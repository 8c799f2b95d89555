use zellit::events::{process_key, process_picker_key, KeyCode};
use zellit::state::{App, Effect, InputMode, PreviewAttribute, PreviewElement, ThemeEntry, ThemeFilter};
use zellit::theme::{RgbColor, Theme};

fn named(name: &str) -> Theme {
    let mut t = Theme::default();
    t.name = String::from(name);
    t
}

fn open_loader(app: &mut App) {
    let e = process_key(app, KeyCode::Char('l'));
    assert!(matches!(e, Effect::ListThemes));
    app.resume_listed(Ok(vec![String::from("mine")]), &["dracula", "nord"]);
    app.resume_swatches(vec![Ok(named("mine")), Ok(named("dracula")), Ok(named("nord"))]);
    app.resume_loaded(Ok(named("mine")));
    assert_eq!(app.input_mode, InputMode::ThemeLoad);
}

#[test]
fn quit_keys_in_the_preview() {
    let mut app = App::new();
    assert!(matches!(process_key(&mut app, KeyCode::Char('q')), Effect::Quit));
    assert!(matches!(process_key(&mut app, KeyCode::Esc), Effect::Quit));
}

#[test]
fn arrows_and_vim_keys_move_and_clear_the_message() {
    let mut app = App::new();
    app.message = Some(String::from("hello"));
    process_key(&mut app, KeyCode::Down);
    assert_eq!(app.selected_element, PreviewElement::TabUnselected);
    assert_eq!(app.message, None);
    process_key(&mut app, KeyCode::Char('j'));
    assert_eq!(app.selected_element, PreviewElement::PaneSelected);
    process_key(&mut app, KeyCode::Char('k'));
    process_key(&mut app, KeyCode::Up);
    assert_eq!(app.selected_element, PreviewElement::TabSelected);
}

#[test]
fn tab_toggles_the_attribute_except_on_pane_borders() {
    let mut app = App::new();
    process_key(&mut app, KeyCode::Tab);
    assert_eq!(app.selected_attribute, PreviewAttribute::Background);
    process_key(&mut app, KeyCode::Tab);
    assert_eq!(app.selected_attribute, PreviewAttribute::Base);
    process_key(&mut app, KeyCode::Tab);
    assert_eq!(app.selected_attribute, PreviewAttribute::Background);
    process_key(&mut app, KeyCode::Char('2'));
    assert_eq!(app.selected_element, PreviewElement::PaneSelected);
    assert_eq!(app.selected_attribute, PreviewAttribute::Base);
    process_key(&mut app, KeyCode::Tab);
    assert_eq!(app.selected_attribute, PreviewAttribute::Base);
    process_key(&mut app, KeyCode::Char('5'));
    process_key(&mut app, KeyCode::Tab);
    assert_eq!(app.selected_attribute, PreviewAttribute::Base);
}

#[test]
fn number_keys_jump_to_groups() {
    let mut app = App::new();
    process_key(&mut app, KeyCode::Char('3'));
    assert_eq!(app.selected_element, PreviewElement::TableTitle);
    process_key(&mut app, KeyCode::Char('4'));
    assert_eq!(app.selected_element, PreviewElement::ExitSuccess);
    process_key(&mut app, KeyCode::Char('5'));
    assert_eq!(app.selected_element, PreviewElement::Player1);
    process_key(&mut app, KeyCode::Char('1'));
    assert_eq!(app.selected_element, PreviewElement::TabSelected);
}

#[test]
fn c_and_enter_open_the_color_picker_on_the_current_color() {
    let mut app = App::new();
    let e = process_key(&mut app, KeyCode::Char('c'));
    assert!(matches!(e, Effect::EditColor(c) if c == RgbColor::new(255, 255, 255)));
    assert_eq!(app.input_mode, InputMode::ColorPicker);
    let e = process_key(&mut app, KeyCode::Char('x'));
    assert!(matches!(e, Effect::ColorPickerKey));
    app.close_color_picker(false);
    let e = process_key(&mut app, KeyCode::Enter);
    assert!(matches!(e, Effect::EditColor(_)));
    assert_eq!(app.input_mode, InputMode::ColorPicker);
}

#[test]
fn yank_paste_undo_keys() {
    let mut app = App::new();
    process_key(&mut app, KeyCode::Char('y'));
    process_key(&mut app, KeyCode::Down);
    process_key(&mut app, KeyCode::Char('p'));
    assert_eq!(app.get_color(), RgbColor::new(255, 255, 255));
    process_key(&mut app, KeyCode::Char('u'));
    assert_eq!(app.get_color(), RgbColor::new(180, 180, 180));
    assert_eq!(app.message.as_deref(), Some("Undone"));
}

#[test]
fn apply_asks_for_a_name_for_the_default_theme() {
    let mut app = App::new();
    let e = process_key(&mut app, KeyCode::Char('a'));
    assert!(matches!(e, Effect::Idle));
    assert_eq!(app.input_mode, InputMode::ThemeNameInputApply);
    assert_eq!(app.message.as_deref(), Some("Name this theme before applying"));
    process_key(&mut app, KeyCode::Char('X'));
    let e = process_key(&mut app, KeyCode::Enter);
    assert!(matches!(e, Effect::ApplyTheme));
    assert_eq!(app.theme.name, "defaultx");
    let e = app.resume_done(Ok(()));
    assert!(matches!(e, Effect::ListThemes));
    app.resume_listed(Ok(vec![String::from("defaultx")]), &[]);
    assert_eq!(app.input_mode, InputMode::Preview);
    let e = process_key(&mut app, KeyCode::Char('a'));
    assert!(matches!(e, Effect::ApplyTheme));
}

#[test]
fn save_prompt_keys() {
    let mut app = App::new();
    process_key(&mut app, KeyCode::Char('s'));
    assert_eq!(app.input_mode, InputMode::ThemeNameInput);
    process_key(&mut app, KeyCode::Backspace);
    assert_eq!(app.theme_name_input, "defaul");
    let e = process_key(&mut app, KeyCode::Esc);
    assert!(matches!(e, Effect::Idle));
    assert_eq!(app.input_mode, InputMode::Preview);
    assert_eq!(app.message.as_deref(), Some("Save cancelled"));
    process_key(&mut app, KeyCode::Char('s'));
    let e = process_key(&mut app, KeyCode::Enter);
    assert!(matches!(e, Effect::SaveTheme));
}

#[test]
fn help_and_about_screens() {
    let mut app = App::new();
    process_key(&mut app, KeyCode::Char('?'));
    assert_eq!(app.input_mode, InputMode::Help);
    process_key(&mut app, KeyCode::PageDown);
    assert_eq!(app.help_scroll, 8);
    process_key(&mut app, KeyCode::Char('k'));
    assert_eq!(app.help_scroll, 7);
    process_key(&mut app, KeyCode::PageUp);
    assert_eq!(app.help_scroll, 0);
    process_key(&mut app, KeyCode::End);
    assert_eq!(app.help_scroll, u16::MAX);
    process_key(&mut app, KeyCode::Down);
    assert_eq!(app.help_scroll, u16::MAX);
    process_key(&mut app, KeyCode::Home);
    assert_eq!(app.help_scroll, 0);
    process_key(&mut app, KeyCode::Char('?'));
    assert_eq!(app.input_mode, InputMode::Preview);
    process_key(&mut app, KeyCode::Char('A'));
    assert_eq!(app.input_mode, InputMode::About);
    process_key(&mut app, KeyCode::Char('z'));
    assert_eq!(app.input_mode, InputMode::Preview);
}

#[test]
fn field_search_keys() {
    let mut app = App::new();
    process_key(&mut app, KeyCode::Char('/'));
    assert_eq!(app.input_mode, InputMode::FieldSearch);
    for c in "exit".chars() {
        process_key(&mut app, KeyCode::Char(c));
    }
    process_key(&mut app, KeyCode::Down);
    process_key(&mut app, KeyCode::Enter);
    assert_eq!(app.selected_element, PreviewElement::ExitError);
    assert_eq!(app.input_mode, InputMode::Preview);
}

#[test]
fn loader_keys_search_filter_and_cancel() {
    let mut app = App::new();
    open_loader(&mut app);
    assert_eq!(app.theme.name, "mine");
    let e = process_key(&mut app, KeyCode::Char('n'));
    assert!(matches!(e, Effect::LoadTheme(ThemeEntry::User(ref n)) if n == "mine"));
    assert!(app.search_focused);
    assert_eq!(app.loadable_themes.len(), 2);
    process_key(&mut app, KeyCode::Char('d'));
    assert_eq!(app.loadable_themes.len(), 1);
    assert_eq!(app.loadable_themes[0].name(), "nord");
    process_key(&mut app, KeyCode::Backspace);
    assert_eq!(app.theme_search_query, "n");
    process_key(&mut app, KeyCode::Esc);
    assert_eq!(app.theme_search_query, "");
    assert!(!app.search_focused);
    assert_eq!(app.input_mode, InputMode::ThemeLoad);
    let e = process_key(&mut app, KeyCode::Char('b'));
    assert!(matches!(e, Effect::LoadTheme(ThemeEntry::Builtin("dracula"))));
    assert_eq!(app.theme_filter, ThemeFilter::Builtin);
    app.resume_loaded(Ok(named("dracula")));
    process_key(&mut app, KeyCode::Esc);
    assert_eq!(app.input_mode, InputMode::Preview);
    assert_eq!(app.theme.name, "default");
}

#[test]
fn loader_keys_rename_and_delete() {
    let mut app = App::new();
    open_loader(&mut app);
    process_key(&mut app, KeyCode::Char('r'));
    assert_eq!(app.input_mode, InputMode::ThemeLoadRename);
    process_key(&mut app, KeyCode::Char('2'));
    let e = process_key(&mut app, KeyCode::Enter);
    assert!(matches!(e, Effect::RenameTheme(ref a, ref b) if a == "mine" && b == "mine2"));
    app.resume_done(Ok(()));
    app.resume_listed(Ok(vec![String::from("mine2")]), &["dracula", "nord"]);
    process_key(&mut app, KeyCode::Char('d'));
    assert_eq!(app.input_mode, InputMode::ThemeLoadDeleteConfirm);
    let e = process_key(&mut app, KeyCode::Char('n'));
    assert!(matches!(e, Effect::Idle));
    assert_eq!(app.input_mode, InputMode::ThemeLoad);
    process_key(&mut app, KeyCode::Char('d'));
    let e = process_key(&mut app, KeyCode::Char('y'));
    assert!(matches!(e, Effect::DeleteTheme(ref n) if n == "mine2"));
}

#[test]
fn loader_enter_loads_and_a_applies() {
    let mut app = App::new();
    open_loader(&mut app);
    let e = process_key(&mut app, KeyCode::Enter);
    assert!(matches!(e, Effect::LoadTheme(ThemeEntry::User(ref n)) if n == "mine"));
    app.resume_loaded(Ok(named("mine")));
    assert_eq!(app.input_mode, InputMode::Preview);
    open_loader(&mut app);
    let e = process_key(&mut app, KeyCode::Char('a'));
    assert!(matches!(e, Effect::ApplyTheme));
}

#[test]
fn restart_prompt_keys() {
    let mut app = App::new();
    app.input_mode = InputMode::UpdateRestartConfirm;
    let e = process_key(&mut app, KeyCode::Char('l'));
    assert!(matches!(e, Effect::Idle));
    assert_eq!(app.input_mode, InputMode::Preview);
    assert!(!app.restart_after_exit);
    app.input_mode = InputMode::UpdateRestartConfirm;
    let e = process_key(&mut app, KeyCode::Enter);
    assert!(matches!(e, Effect::Quit));
    assert!(app.restart_after_exit);
}

#[test]
fn update_key_reports_when_nothing_is_available() {
    let mut app = App::new();
    let e = process_key(&mut app, KeyCode::Char('U'));
    assert!(matches!(e, Effect::Idle));
    assert_eq!(app.message.as_deref(), Some("No update available"));
}

#[test]
fn picker_keys_cancel_confirm_switch_and_yank() {
    let mut app = App::new();
    process_key(&mut app, KeyCode::Char('c'));
    app.apply_current_color(RgbColor::new(1, 2, 3));
    let e = process_picker_key(&mut app, KeyCode::Esc, true, false);
    assert!(matches!(e, Effect::ColorPickerKey));
    assert_eq!(app.input_mode, InputMode::ColorPicker);
    let e = process_picker_key(&mut app, KeyCode::Char('f'), false, false);
    assert!(matches!(e, Effect::EditColor(c) if c == RgbColor::new(80, 80, 80)));
    assert_eq!(app.selected_attribute, PreviewAttribute::Background);
    let e = process_picker_key(&mut app, KeyCode::Char('y'), false, false);
    assert!(matches!(e, Effect::Idle));
    assert_eq!(app.clipboard_color, Some(RgbColor::new(80, 80, 80)));
    let e = process_picker_key(&mut app, KeyCode::Enter, false, true);
    assert!(matches!(e, Effect::ColorPickerKey));
    let e = process_picker_key(&mut app, KeyCode::Left, false, false);
    assert!(matches!(e, Effect::ColorPickerKey));
    let e = process_picker_key(&mut app, KeyCode::Esc, false, false);
    assert!(matches!(e, Effect::Idle));
    assert_eq!(app.input_mode, InputMode::Preview);
    assert_eq!(app.theme.get(zellit::theme::ThemeComponentType::RibbonSelected).base, RgbColor::new(255, 255, 255));
}

#[test]
fn picker_enter_confirms_and_f_is_ignored_on_borders() {
    let mut app = App::new();
    process_key(&mut app, KeyCode::Char('2'));
    process_key(&mut app, KeyCode::Char('c'));
    let e = process_picker_key(&mut app, KeyCode::Char('f'), false, false);
    assert!(matches!(e, Effect::Idle));
    assert_eq!(app.selected_attribute, PreviewAttribute::Base);
    app.apply_current_color(RgbColor::new(7, 7, 7));
    let e = process_picker_key(&mut app, KeyCode::Enter, false, false);
    assert!(matches!(e, Effect::Idle));
    assert_eq!(app.input_mode, InputMode::Preview);
    assert_eq!(app.undo_stack.len(), 1);
}
