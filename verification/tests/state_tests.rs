use zellit::state::{
    flash_off_at, is_theme_usable, normalize_theme_name, App, Effect, InputMode, OverlayAnchor,
    PreviewAttribute, PreviewElement, PreviewGroup, ThemeEntry, ThemeFilter, UpdateMsg,
    UpdatePoll, UpdateStatus,
};
use zellit::theme::{RgbColor, Theme, ThemeComponentType};

fn color_of(app: &App, t: ThemeComponentType) -> (RgbColor, RgbColor) {
    let c = app.theme.get(t);
    (c.base, c.background)
}

fn named(name: &str) -> Theme {
    let mut t = Theme::default();
    t.name = String::from(name);
    t
}

#[test]
fn new_app_starts_on_the_first_tab_element() {
    let app = App::new();
    assert_eq!(app.theme.name, "default");
    assert_eq!(app.theme_name_input, "default");
    assert_eq!(app.selected_element, PreviewElement::TabSelected);
    assert_eq!(app.selected_group, PreviewGroup::TabBar);
    assert_eq!(app.selected_attribute, PreviewAttribute::Base);
    assert_eq!(app.input_mode, InputMode::Preview);
    assert!(!app.dirty);
    assert!(app.undo_stack.is_empty());
    assert!(!app.is_flashing_off());
}

#[test]
fn element_navigation_wraps_and_round_trips() {
    let mut app = App::new();
    app.prev_element();
    assert_eq!(app.selected_element, PreviewElement::Player10);
    assert_eq!(app.selected_group, PreviewGroup::Multiplayer);
    app.next_element();
    assert_eq!(app.selected_element, PreviewElement::TabSelected);
    app.next_element();
    assert_eq!(app.selected_element, PreviewElement::TabUnselected);
    app.prev_element();
    assert_eq!(app.selected_element, PreviewElement::TabSelected);
    for _ in 0..24 {
        app.next_element();
    }
    assert_eq!(app.selected_element, PreviewElement::TabSelected);
    assert_eq!(app.flash_ticks, 6);
    assert!(app.flash_start.is_some());
}

#[test]
fn moving_onto_a_pane_border_selects_its_foreground() {
    let mut app = App::new();
    app.selected_attribute = PreviewAttribute::Background;
    app.next_element();
    assert_eq!(app.selected_element, PreviewElement::TabUnselected);
    assert_eq!(app.selected_attribute, PreviewAttribute::Background);
    app.next_element();
    assert_eq!(app.selected_element, PreviewElement::PaneSelected);
    assert_eq!(app.selected_attribute, PreviewAttribute::Base);
}

#[test]
fn group_selection_jumps_to_the_first_field() {
    let mut app = App::new();
    app.select_group_index(2);
    assert_eq!(app.selected_group, PreviewGroup::Content);
    assert_eq!(app.selected_element, PreviewElement::TableTitle);
    app.select_group(PreviewGroup::Status);
    assert_eq!(app.selected_element, PreviewElement::ExitSuccess);
    app.select_group_index(5);
    assert_eq!(app.selected_element, PreviewElement::ExitSuccess);
    app.selected_attribute = PreviewAttribute::Background;
    app.select_group_index(4);
    assert_eq!(app.selected_group, PreviewGroup::Multiplayer);
    assert_eq!(app.selected_element, PreviewElement::Player1);
    assert_eq!(app.selected_attribute, PreviewAttribute::Base);
    assert_eq!(PreviewGroup::all().len(), 5);
    assert_eq!(PreviewGroup::Multiplayer.label(), "Multiplayer");
    assert_eq!(PreviewGroup::Multiplayer.fields().len(), 10);
    assert_eq!(PreviewGroup::Panes.label(), "Panes");
    assert_eq!(PreviewGroup::Panes.fields().len(), 5);
}

#[test]
fn element_facts() {
    assert_eq!(PreviewElement::all().len(), 24);
    assert_eq!(PreviewElement::Player3.component_type(), ThemeComponentType::Player3);
    assert_eq!(PreviewElement::Player10.label(), "Player 10");
    assert_eq!(PreviewElement::Player10.group(), PreviewGroup::Multiplayer);
    assert!(PreviewElement::Player1.is_single_color());
    assert!(!PreviewElement::Player1.is_frame());
    assert_eq!(PreviewElement::PaneHighlight.component_type(), ThemeComponentType::FrameHighlight);
    assert_eq!(PreviewElement::TabSelected.component_type(), ThemeComponentType::RibbonSelected);
    assert!(PreviewElement::PaneUnselected.is_frame());
    assert!(PreviewElement::PaneUnselected.is_single_color());
    assert!(!PreviewElement::ListSelected.is_single_color());
    assert_eq!(PreviewElement::PaneHighlight.preferred_picker_anchor(), OverlayAnchor::BottomLeft);
    assert_eq!(PreviewElement::TabSelected.preferred_picker_anchor(), OverlayAnchor::BottomRight);
    assert_eq!(PreviewElement::ExitError.label(), "Exit (Error)");
    assert_eq!(PreviewElement::TextSelected.group(), PreviewGroup::Panes);
    assert_eq!(PreviewAttribute::Base.label(), "FG");
    assert_eq!(PreviewAttribute::Background.label(), "BG");
    let mut a = PreviewAttribute::Base;
    a.cycle();
    assert_eq!(a, PreviewAttribute::Background);
    a.cycle();
    assert_eq!(a, PreviewAttribute::Base);
}

#[test]
fn set_color_then_get_color_reads_it_back() {
    let mut app = App::new();
    app.set_color_by_attr(PreviewAttribute::Background, RgbColor::new(1, 2, 3));
    assert_eq!(app.get_color_by_attr(PreviewAttribute::Background), RgbColor::new(1, 2, 3));
    assert_eq!(app.get_color_by_attr(PreviewAttribute::Base), RgbColor::new(255, 255, 255));
    assert_eq!(color_of(&app, ThemeComponentType::RibbonUnselected).1, RgbColor::new(40, 40, 40));
    assert!(app.dirty);
    app.apply_current_color(RgbColor::new(9, 8, 7));
    assert_eq!(app.get_color(), RgbColor::new(9, 8, 7));
}

#[test]
fn yank_paste_undo_restores_the_color() {
    let mut app = App::new();
    app.yank_color();
    assert_eq!(app.clipboard_color, Some(RgbColor::new(255, 255, 255)));
    assert_eq!(app.message.as_deref(), Some("Yanked #ffffff"));
    app.next_element();
    assert_eq!(app.get_color(), RgbColor::new(180, 180, 180));
    app.paste_color();
    assert_eq!(app.get_color(), RgbColor::new(255, 255, 255));
    assert_eq!(app.message.as_deref(), Some("Pasted #ffffff"));
    assert_eq!(app.undo_stack.len(), 1);
    app.undo_color();
    assert_eq!(app.get_color(), RgbColor::new(180, 180, 180));
    assert_eq!(app.message.as_deref(), Some("Undone"));
    app.undo_color();
    assert_eq!(app.message.as_deref(), Some("Nothing to undo"));
}

#[test]
fn undo_counts_what_is_left() {
    let mut app = App::new();
    app.yank_color();
    app.next_element();
    app.paste_color();
    app.next_element();
    app.paste_color();
    app.undo_color();
    assert_eq!(app.message.as_deref(), Some("Undone (1 more)"));
    assert_eq!(app.selected_element, PreviewElement::PaneSelected);
    assert_eq!(color_of(&app, ThemeComponentType::FrameSelected).0, RgbColor::new(255, 255, 255));
    app.undo_color();
    assert_eq!(app.selected_element, PreviewElement::TabUnselected);
    assert_eq!(color_of(&app, ThemeComponentType::RibbonUnselected).0, RgbColor::new(180, 180, 180));
}

#[test]
fn paste_without_clipboard_says_so() {
    let mut app = App::new();
    app.paste_color();
    assert_eq!(app.message.as_deref(), Some("Nothing to paste"));
    assert!(!app.dirty);
}

#[test]
fn undo_history_keeps_the_newest_sixty_four() {
    let mut app = App::new();
    app.yank_color();
    for _ in 0..70 {
        app.paste_color();
    }
    assert_eq!(app.undo_stack.len(), 64);
}

#[test]
fn cancelling_the_color_picker_restores_the_component() {
    let mut app = App::new();
    let start = app.open_color_picker();
    assert_eq!(start, RgbColor::new(255, 255, 255));
    assert_eq!(app.input_mode, InputMode::ColorPicker);
    app.apply_current_color(RgbColor::new(1, 1, 1));
    let bg = app.switch_editing_attribute();
    assert_eq!(bg, RgbColor::new(80, 80, 80));
    app.apply_current_color(RgbColor::new(2, 2, 2));
    app.close_color_picker(false);
    assert_eq!(app.input_mode, InputMode::Preview);
    assert!(app.undo_stack.is_empty());
    assert_eq!(
        color_of(&app, ThemeComponentType::RibbonSelected),
        (RgbColor::new(255, 255, 255), RgbColor::new(80, 80, 80))
    );
    assert!(app.original_component.is_none());
}

#[test]
fn saving_the_color_picker_records_each_changed_attribute() {
    let mut app = App::new();
    app.open_color_picker();
    app.apply_current_color(RgbColor::new(1, 1, 1));
    app.switch_editing_attribute();
    app.apply_current_color(RgbColor::new(2, 2, 2));
    app.close_color_picker(true);
    assert_eq!(app.undo_stack.len(), 2);
    assert_eq!(
        app.undo_stack[0],
        (PreviewElement::TabSelected, PreviewAttribute::Base, RgbColor::new(255, 255, 255))
    );
    app.undo_color();
    app.undo_color();
    assert_eq!(
        color_of(&app, ThemeComponentType::RibbonSelected),
        (RgbColor::new(255, 255, 255), RgbColor::new(80, 80, 80))
    );
}

#[test]
fn field_search_filters_moves_and_commits() {
    let mut app = App::new();
    app.open_field_search();
    assert_eq!(app.input_mode, InputMode::FieldSearch);
    for c in "PANE".chars() {
        app.push_field_search_char(c);
    }
    assert_eq!(
        app.filtered_fields(),
        vec![PreviewElement::PaneSelected, PreviewElement::PaneUnselected, PreviewElement::PaneHighlight]
    );
    app.move_field_search(-1);
    assert_eq!(app.field_search_index, 2);
    app.move_field_search(1);
    assert_eq!(app.field_search_index, 0);
    app.move_field_search(1);
    app.commit_field_search();
    assert_eq!(app.selected_element, PreviewElement::PaneUnselected);
    assert_eq!(app.selected_group, PreviewGroup::Panes);
    assert_eq!(app.message.as_deref(), Some("→ Pane (Unselected)"));
    assert_eq!(app.input_mode, InputMode::Preview);
}

#[test]
fn field_search_with_no_match_changes_nothing() {
    let mut app = App::new();
    app.open_field_search();
    app.push_field_search_char('z');
    app.push_field_search_char('z');
    assert!(app.filtered_fields().is_empty());
    app.move_field_search(1);
    assert_eq!(app.field_search_index, 0);
    app.pop_field_search_char();
    assert_eq!(app.field_search_query, "z");
    app.commit_field_search();
    assert_eq!(app.selected_element, PreviewElement::TabSelected);
    app.open_field_search();
    app.cancel_field_search();
    assert_eq!(app.input_mode, InputMode::Preview);
    assert_eq!(app.message, None);
}

#[test]
fn normalize_theme_name_cases() {
    assert_eq!(normalize_theme_name("  My Theme! "), "my-theme");
    assert_eq!(normalize_theme_name("--a b--"), "a-b");
    assert_eq!(normalize_theme_name("Dracula_Pro"), "dracula_pro");
    assert_eq!(normalize_theme_name("a\tb"), "a-b");
    assert_eq!(normalize_theme_name("日本"), "");
    assert_eq!(normalize_theme_name("my-theme"), "my-theme");
}

#[test]
fn theme_name_input_accepts_name_characters_only() {
    let mut app = App::new();
    app.open_theme_name_input();
    assert_eq!(app.input_mode, InputMode::ThemeNameInput);
    assert_eq!(app.message.as_deref(), Some("Enter a theme name, then press Enter to save"));
    app.push_theme_name_char('-');
    app.push_theme_name_char('X');
    app.push_theme_name_char('!');
    app.push_theme_name_char(' ');
    assert_eq!(app.theme_name_input, "default-X ");
    app.pop_theme_name_char();
    assert_eq!(app.theme_name_input, "default-X");
}

#[test]
fn save_as_normalizes_then_saves_and_lists() {
    let mut app = App::new();
    app.theme_name_input = String::from("  My Theme! ");
    let e = app.save_theme_as_input_name();
    assert!(matches!(e, Effect::SaveTheme));
    assert_eq!(app.theme.name, "my-theme");
    assert_eq!(app.theme_name_input, "my-theme");
    app.dirty = true;
    let e = app.resume_done(Ok(()));
    assert!(matches!(e, Effect::ListThemes));
    assert_eq!(app.message.as_deref(), Some("✓ Saved: my-theme"));
    assert!(!app.dirty);
    app.input_mode = InputMode::ThemeNameInput;
    let e = app.resume_listed(Ok(vec![String::from("my-theme")]), &["dracula"]);
    assert!(matches!(e, Effect::Idle));
    assert_eq!(app.input_mode, InputMode::Preview);
    assert_eq!(app.all_themes.len(), 2);
}

#[test]
fn save_as_refuses_a_name_without_letters() {
    let mut app = App::new();
    app.theme_name_input = String::from("!!!");
    let e = app.save_theme_as_input_name();
    assert!(matches!(e, Effect::Idle));
    assert_eq!(app.message.as_deref(), Some("✗ Theme name must contain letters or numbers"));
    assert_eq!(app.theme.name, "default");
    let e = app.save_and_apply_theme_as_input_name();
    assert!(matches!(e, Effect::Idle));
}

#[test]
fn save_and_apply_reports_the_restart_hint() {
    let mut app = App::new();
    app.theme_name_input = String::from("Night");
    let e = app.save_and_apply_theme_as_input_name();
    assert!(matches!(e, Effect::ApplyTheme));
    let e = app.resume_done(Ok(()));
    assert!(matches!(e, Effect::ListThemes));
    assert_eq!(
        app.message.as_deref(),
        Some("✓ Saved + applied \"night\" — restart Zellij to see changes")
    );
}

#[test]
fn save_and_apply_errors_are_reported() {
    let mut app = App::new();
    let e = app.save_theme();
    assert!(matches!(e, Effect::SaveTheme));
    let e = app.resume_done(Err(String::from("disk full")));
    assert!(matches!(e, Effect::Idle));
    assert_eq!(app.message.as_deref(), Some("✗ Error: disk full"));
    let e = app.apply_theme_to_zellij();
    assert!(matches!(e, Effect::ApplyTheme));
    let e = app.resume_done(Err(String::from("no config")));
    assert!(matches!(e, Effect::Idle));
    assert_eq!(app.message.as_deref(), Some("✗ Error: no config"));
}

#[test]
fn listing_errors_are_reported() {
    let mut app = App::new();
    let e = app.refresh_theme_list();
    assert!(matches!(e, Effect::ListThemes));
    app.resume_listed(Err(String::from("denied")), &["nord"]);
    assert_eq!(app.message.as_deref(), Some("✗ Error listing themes: denied"));
    assert_eq!(app.all_themes.len(), 1);
    assert!(app.all_themes[0].is_builtin());
}

fn open_loader(app: &mut App) {
    let e = app.open_theme_load_dialog();
    assert!(matches!(e, Effect::ListThemes));
    let e = app.resume_listed(
        Ok(vec![String::from("zeta"), String::from("alpha")]),
        &["dracula", "nord"],
    );
    match e {
        Effect::LoadThemes(v) => {
            let names: Vec<&str> = v.iter().map(|e| e.name()).collect();
            assert_eq!(names, vec!["alpha", "zeta", "dracula", "nord"]);
        }
        other => panic!("unexpected {:?}", other),
    }
    let e = app.resume_swatches(vec![
        Ok(named("alpha")),
        Err(String::from("bad file")),
        Ok(named("dracula")),
        Ok(named("nord")),
    ]);
    assert!(matches!(e, Effect::LoadTheme(ThemeEntry::User(ref n)) if n == "alpha"));
    let e = app.resume_loaded(Ok(named("alpha")));
    assert!(matches!(e, Effect::Idle));
}

#[test]
fn loader_lists_saved_sorted_then_builtin_and_previews() {
    let mut app = App::new();
    open_loader(&mut app);
    assert_eq!(app.input_mode, InputMode::ThemeLoad);
    assert_eq!(app.message.as_deref(), Some("Select a theme to load"));
    assert_eq!(app.theme.name, "alpha");
    assert_eq!(app.selected_theme_index, 0);
    assert_eq!(app.swatches_for("zeta"), [RgbColor::new(50, 50, 50); 4]);
    assert_eq!(
        app.swatches_for("alpha"),
        [
            RgbColor::new(30, 30, 30),
            RgbColor::new(80, 80, 80),
            RgbColor::new(255, 255, 255),
            RgbColor::new(255, 200, 100),
        ]
    );
    let e = app.move_theme_selection_down();
    assert!(matches!(e, Effect::LoadTheme(ThemeEntry::User(ref n)) if n == "zeta"));
    app.resume_loaded(Err(String::from("bad file")));
    assert_eq!(app.theme.name, "alpha");
    let e = app.move_theme_selection_down();
    assert!(matches!(e, Effect::LoadTheme(ThemeEntry::Builtin("dracula"))));
    app.resume_loaded(Ok(named("dracula")));
    assert_eq!(app.theme.name, "dracula");
    app.cancel_theme_load();
    assert_eq!(app.theme.name, "default");
    assert_eq!(app.input_mode, InputMode::Preview);
    assert!(app.original_theme.is_none());
}

#[test]
fn loader_selection_wraps_around() {
    let mut app = App::new();
    open_loader(&mut app);
    let e = app.move_theme_selection_up();
    assert!(matches!(e, Effect::LoadTheme(ThemeEntry::Builtin("nord"))));
    assert_eq!(app.selected_theme_index, 3);
    let e = app.move_theme_selection_down();
    assert!(matches!(e, Effect::LoadTheme(ThemeEntry::User(ref n)) if n == "alpha"));
    assert_eq!(app.selected_theme_index, 0);
    app.move_theme_selection_to(2);
    assert_eq!(app.selected_theme_index, 2);
}

#[test]
fn loader_filter_toggles() {
    let mut app = App::new();
    open_loader(&mut app);
    let e = app.set_theme_filter(ThemeFilter::Builtin);
    assert!(matches!(e, Effect::LoadTheme(ThemeEntry::Builtin("dracula"))));
    assert_eq!(app.theme_filter, ThemeFilter::Builtin);
    assert_eq!(app.loadable_themes.len(), 2);
    app.set_theme_filter(ThemeFilter::Saved);
    assert_eq!(app.theme_filter, ThemeFilter::Saved);
    assert_eq!(app.loadable_themes.len(), 2);
    assert!(!app.loadable_themes[0].is_builtin());
    app.set_theme_filter(ThemeFilter::Saved);
    assert_eq!(app.theme_filter, ThemeFilter::All);
    assert_eq!(app.loadable_themes.len(), 4);
}

#[test]
fn loader_search_matches_subsequences() {
    let mut app = App::new();
    open_loader(&mut app);
    app.theme_search_query = String::from("/DR");
    app.apply_filter_to_list();
    assert_eq!(app.loadable_themes.len(), 1);
    assert_eq!(app.loadable_themes[0].name(), "dracula");
    app.theme_search_query = String::from("aa");
    app.apply_filter_to_list();
    assert_eq!(app.loadable_themes.len(), 2);
    assert_eq!(app.loadable_themes[0].name(), "alpha");
    assert_eq!(app.loadable_themes[1].name(), "dracula");
    app.theme_search_query = String::from("qq");
    app.apply_filter_to_list();
    assert!(app.loadable_themes.is_empty());
    assert_eq!(app.selected_theme_index, 0);
}

#[test]
fn loading_the_selected_theme() {
    let mut app = App::new();
    open_loader(&mut app);
    let e = app.load_selected_theme();
    assert!(matches!(e, Effect::LoadTheme(ThemeEntry::User(ref n)) if n == "alpha"));
    app.resume_loaded(Ok(named("alpha")));
    assert_eq!(app.message.as_deref(), Some("✓ Loaded: alpha"));
    assert_eq!(app.theme_name_input, "alpha");
    assert_eq!(app.input_mode, InputMode::Preview);
    assert!(app.original_theme.is_none());

    open_loader(&mut app);
    app.load_selected_theme();
    app.resume_loaded(Err(String::from("corrupt")));
    assert_eq!(app.message.as_deref(), Some("✗ Error loading \"alpha\": corrupt"));
}

#[test]
fn applying_the_selected_theme() {
    let mut app = App::new();
    open_loader(&mut app);
    app.move_theme_selection_to(2);
    app.resume_loaded(Ok(named("dracula")));
    let e = app.apply_selected_theme();
    assert!(matches!(e, Effect::ApplyTheme));
    assert_eq!(app.input_mode, InputMode::Preview);
    assert_eq!(app.theme_name_input, "dracula");
    app.resume_done(Ok(()));
    assert_eq!(
        app.message.as_deref(),
        Some("✓ Applied \"dracula\" — restart Zellij to see changes")
    );
}

#[test]
fn rename_and_delete_refuse_builtin_themes() {
    let mut app = App::new();
    open_loader(&mut app);
    app.move_theme_selection_to(2);
    app.begin_rename_selected_theme();
    assert_eq!(app.message.as_deref(), Some("Cannot rename built-in themes"));
    assert_eq!(app.input_mode, InputMode::ThemeLoad);
    app.begin_delete_selected_theme();
    assert_eq!(app.message.as_deref(), Some("Cannot delete built-in themes"));
}

#[test]
fn renaming_a_saved_theme() {
    let mut app = App::new();
    open_loader(&mut app);
    app.begin_rename_selected_theme();
    assert_eq!(app.input_mode, InputMode::ThemeLoadRename);
    assert_eq!(app.theme_name_input, "alpha");
    app.theme_name_input = String::from("New Name");
    let e = app.commit_rename_theme();
    assert!(matches!(e, Effect::RenameTheme(ref a, ref b) if a == "alpha" && b == "new-name"));
    let e = app.resume_done(Ok(()));
    assert!(matches!(e, Effect::ListThemes));
    assert_eq!(app.message.as_deref(), Some("✓ Renamed to new-name"));
    app.resume_listed(Ok(vec![String::from("new-name"), String::from("zeta")]), &["dracula"]);
    assert_eq!(app.input_mode, InputMode::ThemeLoad);

    app.begin_rename_selected_theme();
    app.theme_name_input = String::from("***");
    let e = app.commit_rename_theme();
    assert!(matches!(e, Effect::Idle));
    assert_eq!(app.message.as_deref(), Some("✗ Invalid name"));
}

#[test]
fn deleting_a_saved_theme() {
    let mut app = App::new();
    open_loader(&mut app);
    app.move_theme_selection_to(1);
    app.begin_delete_selected_theme();
    assert_eq!(app.input_mode, InputMode::ThemeLoadDeleteConfirm);
    assert_eq!(app.message.as_deref(), Some("Delete \"zeta\"? y = confirm, n = cancel"));
    let e = app.confirm_delete_theme();
    assert!(matches!(e, Effect::DeleteTheme(ref n) if n == "zeta"));
    let e = app.resume_done(Err(String::from("busy")));
    assert!(matches!(e, Effect::ListThemes));
    assert_eq!(app.message.as_deref(), Some("✗ busy"));
    app.resume_listed(Ok(vec![String::from("alpha")]), &[]);
    assert_eq!(app.selected_theme_index, 0);
    assert_eq!(app.input_mode, InputMode::ThemeLoad);
}

#[test]
fn self_update_flow() {
    let mut app = App::new();
    let e = app.start_self_update();
    assert!(matches!(e, Effect::Idle));
    assert_eq!(app.message.as_deref(), Some("No update available"));
    app.handle_update_poll(UpdatePoll::Received(UpdateMsg::VersionChecked(Ok(Some(String::from(
        "v2.0.0",
    ))))));
    assert_eq!(app.update_status, UpdateStatus::Available(String::from("v2.0.0")));
    let e = app.start_self_update();
    assert!(matches!(e, Effect::Download(ref t) if t == "v2.0.0"));
    assert_eq!(app.update_status, UpdateStatus::Downloading);
    app.start_self_update();
    assert_eq!(app.message.as_deref(), Some("Update already in progress"));
    app.handle_update_poll(UpdatePoll::Received(UpdateMsg::UpdateComplete(Ok(()))));
    assert_eq!(app.update_status, UpdateStatus::Done);
    assert_eq!(app.input_mode, InputMode::UpdateRestartConfirm);
    app.confirm_restart();
    assert!(app.restart_after_exit);
    assert_eq!(app.input_mode, InputMode::Preview);
}

#[test]
fn update_failures_and_deferral() {
    let mut app = App::new();
    app.handle_update_poll(UpdatePoll::Disconnected);
    assert_eq!(app.update_status, UpdateStatus::Failed(String::from("update worker disconnected")));
    app.start_self_update();
    assert_eq!(app.message.as_deref(), Some("✗ Update unavailable: update worker disconnected"));
    app.handle_update_poll(UpdatePoll::Received(UpdateMsg::VersionChecked(Ok(None))));
    assert_eq!(app.update_status, UpdateStatus::UpToDate);
    app.handle_update_poll(UpdatePoll::Empty);
    assert_eq!(app.update_status, UpdateStatus::UpToDate);
    app.update_status = UpdateStatus::Done;
    app.input_mode = InputMode::UpdateRestartConfirm;
    app.defer_restart();
    assert_eq!(app.update_status, UpdateStatus::Idle);
    assert_eq!(app.input_mode, InputMode::Preview);
    assert!(!app.restart_after_exit);
}

#[test]
fn update_channel_reports_through_the_poll() {
    let mut app = App::new();
    let (tx, rx) = std::sync::mpsc::channel();
    app.start_update_check(rx);
    assert_eq!(app.update_status, UpdateStatus::Checking);
    app.poll_update_channel();
    assert_eq!(app.update_status, UpdateStatus::Checking);
    tx.send(UpdateMsg::VersionChecked(Err(String::from("offline")))).unwrap();
    app.poll_update_channel();
    assert_eq!(app.update_status, UpdateStatus::Failed(String::from("offline")));
    assert!(app.update_rx.is_none());
    app.poll_update_channel();
    assert_eq!(app.update_status, UpdateStatus::Failed(String::from("offline")));
}

#[test]
fn flash_is_off_on_even_ticks_until_it_ends() {
    assert!(flash_off_at(0, 6));
    assert!(!flash_off_at(150, 6));
    assert!(flash_off_at(250, 6));
    assert!(!flash_off_at(600, 6));
    assert!(!flash_off_at(50, 0));
    assert!(!flash_off_at(25600, 6));
    assert!(!flash_off_at(u128::MAX, 6));
}

#[test]
fn usable_themes_set_every_preview_component() {
    assert!(is_theme_usable(&Theme::default()));
    assert!(!is_theme_usable(&Theme::empty(String::from("blank"))));
}

#[test]
fn theme_entries_report_name_and_kind() {
    let u = ThemeEntry::User(String::from("mine"));
    let b = ThemeEntry::Builtin("nord");
    assert_eq!(u.name(), "mine");
    assert!(!u.is_builtin());
    assert_eq!(b.name(), "nord");
    assert!(b.is_builtin());
}

#[test]
fn normalizing_twice_is_normalizing_once() {
    for s in ["  My Theme! ", "--a b--", "Dracula_Pro", "x\t\ty", "Ünï cödé", "-", ""] {
        let once = normalize_theme_name(s);
        assert_eq!(normalize_theme_name(&once), once);
        assert!(once.chars().all(|c| c.is_ascii_lowercase() || c.is_ascii_digit() || c == '-' || c == '_'));
        assert!(!once.starts_with('-') && !once.ends_with('-'));
    }
}

#[test]
fn editing_colors_keeps_the_emphasis_levels() {
    let mut app = App::new();
    let before = *app.theme.get(ThemeComponentType::RibbonSelected);
    app.set_color_by_attr(PreviewAttribute::Base, RgbColor::new(1, 1, 1));
    app.set_color_by_attr(PreviewAttribute::Background, RgbColor::new(2, 2, 2));
    let after = *app.theme.get(ThemeComponentType::RibbonSelected);
    assert_eq!(after.emphasis_0, before.emphasis_0);
    assert_eq!(after.emphasis_1, before.emphasis_1);
    assert_eq!(after.emphasis_2, before.emphasis_2);
    assert_eq!(after.emphasis_3, before.emphasis_3);
    assert_eq!(*app.theme.get(ThemeComponentType::TextSelected), *Theme::default().get(ThemeComponentType::TextSelected));
}

#[test]
fn choosing_the_panes_group_selects_the_border_foreground() {
    let mut app = App::new();
    app.selected_attribute = PreviewAttribute::Background;
    app.select_group(PreviewGroup::Panes);
    assert_eq!(app.selected_element, PreviewElement::PaneSelected);
    assert_eq!(app.selected_attribute, PreviewAttribute::Base);
    app.selected_attribute = PreviewAttribute::Background;
    app.select_group(PreviewGroup::Content);
    assert_eq!(app.selected_attribute, PreviewAttribute::Background);
}

#[test]
fn field_search_matches_characters_in_order() {
    let mut app = App::new();
    app.open_field_search();
    for c in "tsel".chars() {
        app.push_field_search_char(c);
    }
    let found = app.filtered_fields();
    assert!(found.contains(&PreviewElement::TabSelected));
    assert!(!found.contains(&PreviewElement::ExitError));
    app.open_field_search();
    for c in "pl7".chars() {
        app.push_field_search_char(c);
    }
    assert_eq!(app.filtered_fields(), vec![PreviewElement::Player7]);
    app.selected_attribute = PreviewAttribute::Background;
    app.commit_field_search();
    assert_eq!(app.selected_element, PreviewElement::Player7);
    assert_eq!(app.selected_attribute, PreviewAttribute::Base);
}

#[test]
fn multiplayer_colors_are_edited_on_their_foreground() {
    let mut app = App::new();
    app.select_group_index(4);
    app.set_color_by_attr(PreviewAttribute::Base, RgbColor::new(1, 2, 3));
    assert_eq!(app.theme.get(ThemeComponentType::Player1).base, RgbColor::new(1, 2, 3));
    assert_eq!(app.get_color(), RgbColor::new(1, 2, 3));
}

#[test]
fn a_name_listed_twice_gets_one_swatch_from_its_last_entry() {
    let mut app = App::new();
    app.open_theme_load_dialog();
    app.resume_listed(Ok(vec![String::from("dracula")]), &["dracula", "nord"]);
    let mut last = named("dracula");
    last.get_mut(ThemeComponentType::FrameSelected).base = RgbColor::new(1, 2, 3);
    app.resume_swatches(vec![Ok(named("dracula")), Ok(last), Ok(named("nord"))]);
    assert_eq!(app.theme_swatches.len(), 2);
    assert_eq!(app.swatches_for("dracula")[2], RgbColor::new(1, 2, 3));
}

#[test]
fn leaving_the_loader_after_moves_and_filters_restores_the_theme() {
    let mut app = App::new();
    open_loader(&mut app);
    app.move_theme_selection_down();
    app.resume_loaded(Ok(named("zeta")));
    app.set_theme_filter(ThemeFilter::Builtin);
    app.resume_loaded(Ok(named("dracula")));
    app.theme_search_query = String::from("n");
    app.apply_filter_to_list();
    app.cancel_theme_load();
    assert_eq!(app.theme.name, "default");
    assert_eq!(app.theme_name_input, "default");
    assert!(app.theme_search_query.is_empty());
    assert_eq!(app.message, None);
}
