//! Keyboard dispatch: what each key does in each input mode.
use crate::state::{
    apply_filter_view, apply_selected_view, apply_view, begin_delete_view, begin_rename_view,
    cancel_field_view, cancel_load_view, close_picker_view, commit_field_view, commit_rename_view,
    confirm_delete_view, confirm_restart_view, defer_restart_view, element_single_color,
    field_search_results, group_order, last_index, lemma_filter_fields_len, load_selected_view,
    move_down_view, move_field_view, move_to_view, move_up_view, next_in_order,
    open_field_search_view, open_loader_view, open_name_input_view, open_picker_view,
    other_attribute, paste_view, pop_field_char_view, pop_name_char_view, prev_in_order,
    push_field_char_view, push_name_char_view, same_text, save_apply_as_view, save_as_view,
    select_element_view, select_group_view, selected_color, self_update_view, set_filter_view,
    undo_view, yank_view, App, AppView, Effect, EffectView, InputMode, PreviewAttribute,
    ThemeFilter,
};
use crate::text::{pop_char, push_char};
use vstd::prelude::*;

verus! {

/// A key as the editor sees it.
#[derive(Debug, Clone, Copy, PartialEq, Eq, Structural)]
pub enum KeyCode {
    Char(char),
    Up,
    Down,
    Left,
    Right,
    Tab,
    BackTab,
    Enter,
    Esc,
    Backspace,
    PageUp,
    PageDown,
    Home,
    End,
    /// Any other key.
    Other,
}

/// `a - b`, or `0` below zero.
pub open spec fn scroll_up(a: u16, b: u16) -> u16 {
    if a >= b {
        (a - b) as u16
    } else {
        0
    }
}

/// `a + b`, or `u16::MAX` above it.
pub open spec fn scroll_down(a: u16, b: u16) -> u16 {
    if a + b > u16::MAX {
        u16::MAX
    } else {
        (a + b) as u16
    }
}

/// `v` without a message.
pub open spec fn cleared(v: AppView) -> AppView {
    AppView { message: None, ..v }
}

/// Keys of the preview. `at` is when a selection flash started.
pub open spec fn preview_key(v: AppView, key: KeyCode, at: Option<std::time::Instant>) -> (AppView, EffectView) {
    match key {
        KeyCode::Char('q') | KeyCode::Esc => (v, EffectView::Quit),
        KeyCode::Up | KeyCode::Char('k') => (
            cleared(select_element_view(v, prev_in_order(v.selected_element), at)),
            EffectView::Idle,
        ),
        KeyCode::Down | KeyCode::Char('j') => (
            cleared(select_element_view(v, next_in_order(v.selected_element), at)),
            EffectView::Idle,
        ),
        KeyCode::Tab => (
            AppView {
                message: None,
                selected_attribute: if element_single_color(v.selected_element) {
                    v.selected_attribute
                } else {
                    other_attribute(v.selected_attribute)
                },
                ..v
            },
            EffectView::Idle,
        ),
        KeyCode::Char('1') => (cleared(select_group_view(v, group_order()[0], at)), EffectView::Idle),
        KeyCode::Char('2') => (cleared(select_group_view(v, group_order()[1], at)), EffectView::Idle),
        KeyCode::Char('3') => (cleared(select_group_view(v, group_order()[2], at)), EffectView::Idle),
        KeyCode::Char('4') => (cleared(select_group_view(v, group_order()[3], at)), EffectView::Idle),
        KeyCode::Char('5') => (cleared(select_group_view(v, group_order()[4], at)), EffectView::Idle),
        KeyCode::Char('/') => (open_field_search_view(v), EffectView::Idle),
        KeyCode::Char('c') | KeyCode::Enter => (
            open_picker_view(cleared(v)),
            EffectView::EditColor(selected_color(v, v.selected_attribute)),
        ),
        KeyCode::Char('s') => (open_name_input_view(cleared(v)), EffectView::Idle),
        KeyCode::Char('l') => (open_loader_view(cleared(v)), EffectView::ListThemes),
        KeyCode::Char('a') => if v.theme.name == "default"@ {
            (
                AppView {
                    theme_name_input: v.theme.name,
                    input_mode: InputMode::ThemeNameInputApply,
                    message: Some("Name this theme before applying"@),
                    ..v
                },
                EffectView::Idle,
            )
        } else {
            (apply_view(cleared(v)), EffectView::ApplyTheme)
        },
        KeyCode::Char('?') => (
            AppView { message: None, help_scroll: 0, input_mode: InputMode::Help, ..v },
            EffectView::Idle,
        ),
        KeyCode::Char('A') => (
            AppView { message: None, input_mode: InputMode::About, ..v },
            EffectView::Idle,
        ),
        KeyCode::Char('y') => (yank_view(cleared(v)), EffectView::Idle),
        KeyCode::Char('U') => self_update_view(v),
        KeyCode::Char('p') => (paste_view(cleared(v)), EffectView::Idle),
        KeyCode::Char('u') => (undo_view(cleared(v)), EffectView::Idle),
        _ => (v, EffectView::Idle),
    }
}

/// Keys of the theme name prompt; with `apply` the named theme is also
/// written to the Zellij configuration.
pub open spec fn name_input_key(v: AppView, key: KeyCode, apply: bool) -> (AppView, EffectView) {
    match key {
        KeyCode::Esc => (
            AppView { input_mode: InputMode::Preview, message: Some("Save cancelled"@), ..v },
            EffectView::Idle,
        ),
        KeyCode::Enter => if apply {
            save_apply_as_view(v)
        } else {
            save_as_view(v)
        },
        KeyCode::Backspace => (pop_name_char_view(v), EffectView::Idle),
        KeyCode::Char(c) => (push_name_char_view(v, c), EffectView::Idle),
        _ => (v, EffectView::Idle),
    }
}

/// Keys of the theme loader while its search field has the focus.
pub open spec fn loader_search_key(v: AppView, key: KeyCode) -> (AppView, EffectView) {
    match key {
        KeyCode::Enter | KeyCode::Down => move_to_view(AppView { search_focused: false, ..v }, 0),
        KeyCode::Up => move_to_view(
            AppView { search_focused: false, ..v },
            last_index(v.loadable_themes.len()),
        ),
        KeyCode::Esc => move_to_view(
            apply_filter_view(AppView { theme_search_query: Seq::empty(), search_focused: false, ..v }),
            0,
        ),
        KeyCode::Backspace => {
            let q = if v.theme_search_query.len() > 0 {
                v.theme_search_query.drop_last()
            } else {
                v.theme_search_query
            };
            let (w, e) = move_to_view(apply_filter_view(AppView { theme_search_query: q, ..v }), 0);
            (AppView { search_focused: if q.len() == 0 {
                false
            } else {
                w.search_focused
            }, ..w }, e)
        },
        KeyCode::Char(c) => move_to_view(
            apply_filter_view(AppView { theme_search_query: v.theme_search_query.push(c), ..v }),
            0,
        ),
        _ => (v, EffectView::Idle),
    }
}

/// Keys of the theme loader while its list has the focus.
pub open spec fn loader_key(v: AppView, key: KeyCode) -> (AppView, EffectView) {
    match key {
        KeyCode::Esc => if v.theme_search_query.len() > 0 {
            move_to_view(apply_filter_view(AppView { theme_search_query: Seq::empty(), ..v }), 0)
        } else {
            (cancel_load_view(v), EffectView::Idle)
        },
        KeyCode::Enter => load_selected_view(v),
        KeyCode::Char('a') => apply_selected_view(v),
        KeyCode::Char('b') => set_filter_view(v, ThemeFilter::Builtin),
        KeyCode::Char('s') => set_filter_view(v, ThemeFilter::Saved),
        KeyCode::Char('r') => (begin_rename_view(v), EffectView::Idle),
        KeyCode::Char('d') => (begin_delete_view(v), EffectView::Idle),
        KeyCode::Up => move_up_view(v),
        KeyCode::Down => move_down_view(v),
        KeyCode::Backspace => if v.theme_search_query.len() > 0 {
            move_to_view(
                apply_filter_view(
                    AppView {
                        theme_search_query: v.theme_search_query.drop_last(),
                        search_focused: true,
                        ..v
                    },
                ),
                0,
            )
        } else {
            (v, EffectView::Idle)
        },
        KeyCode::Char(c) => move_to_view(
            apply_filter_view(
                AppView { search_focused: true, theme_search_query: v.theme_search_query.push(c), ..v },
            ),
            0,
        ),
        _ => (v, EffectView::Idle),
    }
}

/// Keys of the field search.
pub open spec fn field_search_key(v: AppView, key: KeyCode) -> AppView {
    match key {
        KeyCode::Esc => cancel_field_view(v),
        KeyCode::Enter => commit_field_view(v),
        KeyCode::Backspace => pop_field_char_view(v),
        KeyCode::Up => move_field_view(v, -1i32),
        KeyCode::Down => move_field_view(v, 1i32),
        KeyCode::Char(c) => push_field_char_view(v, c),
        _ => v,
    }
}

/// Keys of the help screen: close it, or scroll it.
pub open spec fn help_key(v: AppView, key: KeyCode) -> AppView {
    match key {
        KeyCode::Esc | KeyCode::Char('q') | KeyCode::Char('?') => AppView {
            input_mode: InputMode::Preview,
            ..v
        },
        KeyCode::Up | KeyCode::Char('k') => AppView { help_scroll: scroll_up(v.help_scroll, 1), ..v },
        KeyCode::Down | KeyCode::Char('j') => AppView {
            help_scroll: scroll_down(v.help_scroll, 1),
            ..v
        },
        KeyCode::PageUp => AppView { help_scroll: scroll_up(v.help_scroll, 8), ..v },
        KeyCode::PageDown => AppView { help_scroll: scroll_down(v.help_scroll, 8), ..v },
        KeyCode::Home => AppView { help_scroll: 0, ..v },
        KeyCode::End => AppView { help_scroll: u16::MAX, ..v },
        _ => v,
    }
}

/// Keys of the rename prompt in the theme loader.
pub open spec fn rename_key(v: AppView, key: KeyCode) -> (AppView, EffectView) {
    match key {
        KeyCode::Esc => (
            AppView { input_mode: InputMode::ThemeLoad, message: None, ..v },
            EffectView::Idle,
        ),
        KeyCode::Enter => commit_rename_view(v),
        KeyCode::Backspace => (pop_name_char_view(v), EffectView::Idle),
        KeyCode::Char(c) => (push_name_char_view(v, c), EffectView::Idle),
        _ => (v, EffectView::Idle),
    }
}

/// Keys of the delete confirmation in the theme loader.
pub open spec fn delete_confirm_key(v: AppView, key: KeyCode) -> (AppView, EffectView) {
    match key {
        KeyCode::Char('y') => confirm_delete_view(v),
        KeyCode::Char('n') | KeyCode::Esc => (
            AppView { input_mode: InputMode::ThemeLoad, message: None, ..v },
            EffectView::Idle,
        ),
        _ => (v, EffectView::Idle),
    }
}

/// Keys of the prompt to restart after an update.
pub open spec fn restart_key(v: AppView, key: KeyCode) -> (AppView, EffectView) {
    match key {
        KeyCode::Enter | KeyCode::Char('r') | KeyCode::Char('y') => (
            confirm_restart_view(v),
            EffectView::Quit,
        ),
        KeyCode::Char('l') | KeyCode::Char('n') | KeyCode::Esc => (
            defer_restart_view(v),
            EffectView::Idle,
        ),
        _ => (v, EffectView::Idle),
    }
}

/// What a key does to the state `v`, and the outside work it asks for.
/// `at` is when a selection flash that the key starts began.
pub open spec fn key_step(v: AppView, key: KeyCode, at: Option<std::time::Instant>) -> (AppView, EffectView) {
    match v.input_mode {
        InputMode::Preview => preview_key(v, key, at),
        InputMode::ColorPicker => (v, EffectView::ColorPickerKey),
        InputMode::ThemeNameInput => name_input_key(v, key, false),
        InputMode::ThemeNameInputApply => name_input_key(v, key, true),
        InputMode::ThemeLoad => if v.search_focused {
            loader_search_key(v, key)
        } else {
            loader_key(v, key)
        },
        InputMode::FieldSearch => (field_search_key(v, key), EffectView::Idle),
        InputMode::Help => (help_key(v, key), EffectView::Idle),
        InputMode::About => (AppView { input_mode: InputMode::Preview, ..v }, EffectView::Idle),
        InputMode::ThemeLoadRename => rename_key(v, key),
        InputMode::ThemeLoadDeleteConfirm => delete_confirm_key(v, key),
        InputMode::UpdateRestartConfirm => restart_key(v, key),
    }
}

/// The key starts a selection flash.
pub open spec fn key_flashes(v: AppView, key: KeyCode) -> bool {
    v.input_mode == InputMode::Preview && (key == KeyCode::Up || key == KeyCode::Char('k') || key
        == KeyCode::Down || key == KeyCode::Char('j') || key == KeyCode::Char('1') || key
        == KeyCode::Char('2') || key == KeyCode::Char('3') || key == KeyCode::Char('4') || key
        == KeyCode::Char('5'))
}

/// The key would move the loader selection past the largest index.
pub open spec fn key_overflows(v: AppView, key: KeyCode) -> bool {
    v.input_mode == InputMode::ThemeLoad && !v.search_focused && key == KeyCode::Down
        && v.loadable_themes.len() > 0 && v.selected_theme_index == usize::MAX
}

/// Keys of the preview.
fn preview_key_exec(app: &mut App, key: KeyCode) -> (e: Effect)
    requires
        old(app).wf(),
        old(app)@.input_mode == InputMode::Preview,
    ensures
        final(app).wf(),
        (final(app)@, e@) == preview_key(old(app)@, key, final(app)@.flash_start),
        key_flashes(old(app)@, key) ==> final(app)@.flash_start is Some,
{
    match key {
        KeyCode::Char('q') | KeyCode::Esc => Effect::Quit,
        KeyCode::Up | KeyCode::Char('k') => {
            app.prev_element();
            app.message = None;
            Effect::Idle
        },
        KeyCode::Down | KeyCode::Char('j') => {
            app.next_element();
            app.message = None;
            Effect::Idle
        },
        KeyCode::Tab => {
            app.message = None;
            if !app.selected_element.is_single_color() {
                app.selected_attribute.cycle();
            }
            Effect::Idle
        },
        KeyCode::Char('1') => {
            app.select_group_index(0);
            app.message = None;
            Effect::Idle
        },
        KeyCode::Char('2') => {
            app.select_group_index(1);
            app.message = None;
            Effect::Idle
        },
        KeyCode::Char('3') => {
            app.select_group_index(2);
            app.message = None;
            Effect::Idle
        },
        KeyCode::Char('4') => {
            app.select_group_index(3);
            app.message = None;
            Effect::Idle
        },
        KeyCode::Char('5') => {
            app.select_group_index(4);
            app.message = None;
            Effect::Idle
        },
        KeyCode::Char('/') => {
            app.open_field_search();
            Effect::Idle
        },
        _ => preview_key_rest(app, key),
    }
}

/// Keys of the preview that start dialogs or edit colors.
#[verifier::spinoff_prover]
#[verifier::rlimit(50)]
fn preview_key_rest(app: &mut App, key: KeyCode) -> (e: Effect)
    requires
        old(app).wf(),
        old(app)@.input_mode == InputMode::Preview,
        !(key is Up || key is Down || key is Tab || key is Esc),
        !(key == KeyCode::Char('q') || key == KeyCode::Char('k') || key == KeyCode::Char('j')
            || key == KeyCode::Char('1') || key == KeyCode::Char('2') || key == KeyCode::Char('3')
            || key == KeyCode::Char('4') || key == KeyCode::Char('5') || key == KeyCode::Char('/')),
    ensures
        final(app).wf(),
        (final(app)@, e@) == preview_key(old(app)@, key, final(app)@.flash_start),
        final(app)@.flash_start == old(app)@.flash_start,
{
    match key {
        KeyCode::Char('c') | KeyCode::Enter => {
            app.message = None;
            let c = app.open_color_picker();
            Effect::EditColor(c)
        },
        KeyCode::Char('s') => {
            app.message = None;
            app.open_theme_name_input();
            Effect::Idle
        },
        KeyCode::Char('l') => {
            app.message = None;
            app.open_theme_load_dialog()
        },
        KeyCode::Char('a') => {
            if same_text(app.theme.name.as_str(), "default") {
                app.message = None;
                app.sync_theme_name_input();
                app.input_mode = InputMode::ThemeNameInputApply;
                app.message = Some(crate::text::owned("Name this theme before applying"));
                Effect::Idle
            } else {
                app.message = None;
                app.apply_theme_to_zellij()
            }
        },
        KeyCode::Char('?') => {
            app.message = None;
            app.help_scroll = 0;
            app.input_mode = InputMode::Help;
            Effect::Idle
        },
        KeyCode::Char('A') => {
            app.message = None;
            app.input_mode = InputMode::About;
            Effect::Idle
        },
        KeyCode::Char('y') => {
            app.message = None;
            app.yank_color();
            Effect::Idle
        },
        KeyCode::Char('U') => app.start_self_update(),
        KeyCode::Char('p') => {
            app.message = None;
            app.paste_color();
            Effect::Idle
        },
        KeyCode::Char('u') => {
            app.message = None;
            app.undo_color();
            Effect::Idle
        },
        _ => Effect::Idle,
    }
}

/// Keys of the theme name prompts.
fn name_input_key_exec(app: &mut App, key: KeyCode, apply: bool) -> (e: Effect)
    requires
        old(app).wf(),
    ensures
        final(app).wf(),
        (final(app)@, e@) == name_input_key(old(app)@, key, apply),
{
    match key {
        KeyCode::Esc => {
            app.input_mode = InputMode::Preview;
            app.message = Some(crate::text::owned("Save cancelled"));
            Effect::Idle
        },
        KeyCode::Enter => if apply {
            app.save_and_apply_theme_as_input_name()
        } else {
            app.save_theme_as_input_name()
        },
        KeyCode::Backspace => {
            app.pop_theme_name_char();
            Effect::Idle
        },
        KeyCode::Char(c) => {
            app.push_theme_name_char(c);
            Effect::Idle
        },
        _ => Effect::Idle,
    }
}

/// Keys of the theme loader while its search field has the focus.
fn loader_search_key_exec(app: &mut App, key: KeyCode) -> (e: Effect)
    requires
        old(app).wf(),
    ensures
        final(app).wf(),
        (final(app)@, e@) == loader_search_key(old(app)@, key),
{
    match key {
        KeyCode::Enter | KeyCode::Down => {
            app.search_focused = false;
            app.move_theme_selection_to(0)
        },
        KeyCode::Up => {
            app.search_focused = false;
            let len = app.loadable_themes.len();
            let last = if len == 0 {
                0
            } else {
                len - 1
            };
            app.move_theme_selection_to(last)
        },
        KeyCode::Esc => {
            app.theme_search_query = String::new();
            app.search_focused = false;
            app.apply_filter_to_list();
            app.move_theme_selection_to(0)
        },
        KeyCode::Backspace => loader_search_backspace(app),
        KeyCode::Char(c) => {
            push_char(&mut app.theme_search_query, c);
            app.apply_filter_to_list();
            app.move_theme_selection_to(0)
        },
        _ => Effect::Idle,
    }
}

/// Backspace in the theme loader's search field: deletes a character; an
/// emptied field gives the focus back to the list.
fn loader_search_backspace(app: &mut App) -> (e: Effect)
    requires
        old(app).wf(),
    ensures
        final(app).wf(),
        (final(app)@, e@) == loader_search_key(old(app)@, KeyCode::Backspace),
{
    let _ = pop_char(&mut app.theme_search_query);
    app.apply_filter_to_list();
    let e = app.move_theme_selection_to(0);
    if app.theme_search_query.as_str().is_empty() {
        app.search_focused = false;
    }
    e
}

/// Keys of the theme loader while its list has the focus.
fn loader_key_exec(app: &mut App, key: KeyCode) -> (e: Effect)
    requires
        old(app).wf(),
        !(key == KeyCode::Down && old(app)@.loadable_themes.len() > 0
            && old(app)@.selected_theme_index == usize::MAX),
    ensures
        final(app).wf(),
        (final(app)@, e@) == loader_key(old(app)@, key),
{
    match key {
        KeyCode::Esc => {
            if !app.theme_search_query.as_str().is_empty() {
                app.theme_search_query = String::new();
                app.apply_filter_to_list();
                app.move_theme_selection_to(0)
            } else {
                app.cancel_theme_load();
                Effect::Idle
            }
        },
        KeyCode::Enter => app.load_selected_theme(),
        KeyCode::Char('a') => app.apply_selected_theme(),
        KeyCode::Char('b') => app.set_theme_filter(ThemeFilter::Builtin),
        KeyCode::Char('s') => app.set_theme_filter(ThemeFilter::Saved),
        KeyCode::Char('r') => {
            app.begin_rename_selected_theme();
            Effect::Idle
        },
        KeyCode::Char('d') => {
            app.begin_delete_selected_theme();
            Effect::Idle
        },
        KeyCode::Up => app.move_theme_selection_up(),
        KeyCode::Down => app.move_theme_selection_down(),
        KeyCode::Backspace => {
            if !app.theme_search_query.as_str().is_empty() {
                let _ = pop_char(&mut app.theme_search_query);
                app.search_focused = true;
                app.apply_filter_to_list();
                app.move_theme_selection_to(0)
            } else {
                Effect::Idle
            }
        },
        KeyCode::Char(c) => {
            // Any other character starts or resumes the search.
            app.search_focused = true;
            push_char(&mut app.theme_search_query, c);
            app.apply_filter_to_list();
            app.move_theme_selection_to(0)
        },
        _ => Effect::Idle,
    }
}

/// Keys of the field search.
fn field_search_key_exec(app: &mut App, key: KeyCode)
    requires
        old(app).wf(),
    ensures
        final(app).wf(),
        final(app)@ == field_search_key(old(app)@, key),
{
    proof {
        lemma_filter_fields_len(
            crate::state::element_order(),
            crate::text::ascii_lower_seq(old(app)@.field_search_query),
        );
    }
    match key {
        KeyCode::Esc => app.cancel_field_search(),
        KeyCode::Enter => app.commit_field_search(),
        KeyCode::Backspace => app.pop_field_search_char(),
        KeyCode::Up => app.move_field_search(-1),
        KeyCode::Down => app.move_field_search(1),
        KeyCode::Char(c) => app.push_field_search_char(c),
        _ => {},
    }
}

/// Keys of the help screen.
fn help_key_exec(app: &mut App, key: KeyCode)
    requires
        old(app).wf(),
    ensures
        final(app).wf(),
        final(app)@ == help_key(old(app)@, key),
{
    match key {
        KeyCode::Esc | KeyCode::Char('q') | KeyCode::Char('?') => {
            app.input_mode = InputMode::Preview;
        },
        KeyCode::Up | KeyCode::Char('k') => {
            app.help_scroll = if app.help_scroll >= 1 {
                app.help_scroll - 1
            } else {
                0
            };
        },
        KeyCode::Down | KeyCode::Char('j') => {
            app.help_scroll = app.help_scroll.saturating_add(1);
        },
        KeyCode::PageUp => {
            app.help_scroll = if app.help_scroll >= 8 {
                app.help_scroll - 8
            } else {
                0
            };
        },
        KeyCode::PageDown => {
            app.help_scroll = app.help_scroll.saturating_add(8);
        },
        KeyCode::Home => {
            app.help_scroll = 0;
        },
        KeyCode::End => {
            app.help_scroll = u16::MAX;
        },
        _ => {},
    }
}

/// Keys of the loader's rename prompt, delete confirmation, and the
/// restart prompt.
fn dialog_key_exec(app: &mut App, key: KeyCode) -> (e: Effect)
    requires
        old(app).wf(),
        old(app)@.input_mode == InputMode::ThemeLoadRename || old(app)@.input_mode
            == InputMode::ThemeLoadDeleteConfirm || old(app)@.input_mode
            == InputMode::UpdateRestartConfirm,
    ensures
        final(app).wf(),
        (final(app)@, e@) == key_step(old(app)@, key, old(app)@.flash_start),
{
    match app.input_mode {
        InputMode::ThemeLoadRename => match key {
            KeyCode::Esc => {
                app.input_mode = InputMode::ThemeLoad;
                app.message = None;
                Effect::Idle
            },
            KeyCode::Enter => app.commit_rename_theme(),
            KeyCode::Backspace => {
                app.pop_theme_name_char();
                Effect::Idle
            },
            KeyCode::Char(c) => {
                app.push_theme_name_char(c);
                Effect::Idle
            },
            _ => Effect::Idle,
        },
        InputMode::ThemeLoadDeleteConfirm => match key {
            KeyCode::Char('y') => app.confirm_delete_theme(),
            KeyCode::Char('n') | KeyCode::Esc => {
                app.input_mode = InputMode::ThemeLoad;
                app.message = None;
                Effect::Idle
            },
            _ => Effect::Idle,
        },
        _ => match key {
            KeyCode::Enter | KeyCode::Char('r') | KeyCode::Char('y') => {
                app.confirm_restart();
                Effect::Quit
            },
            KeyCode::Char('l') | KeyCode::Char('n') | KeyCode::Esc => {
                app.defer_restart();
                Effect::Idle
            },
            _ => Effect::Idle,
        },
    }
}

/// Handles a key. Returns the outside work the key asks for:
/// [`Effect::Quit`] when the program should end.
pub fn process_key(app: &mut App, key: KeyCode) -> (e: Effect)
    requires
        old(app).wf(),
        !key_overflows(old(app)@, key),
    ensures
        final(app).wf(),
        (final(app)@, e@) == key_step(old(app)@, key, final(app)@.flash_start),
        key_flashes(old(app)@, key) ==> final(app)@.flash_start is Some,
{
    match app.input_mode {
        InputMode::Preview => preview_key_exec(app, key),
        // The color editor's keys are handled where the color editor lives.
        InputMode::ColorPicker => Effect::ColorPickerKey,
        InputMode::ThemeNameInput => name_input_key_exec(app, key, false),
        InputMode::ThemeNameInputApply => name_input_key_exec(app, key, true),
        InputMode::ThemeLoad => if app.search_focused {
            loader_search_key_exec(app, key)
        } else {
            loader_key_exec(app, key)
        },
        InputMode::FieldSearch => {
            field_search_key_exec(app, key);
            Effect::Idle
        },
        InputMode::Help => {
            help_key_exec(app, key);
            Effect::Idle
        },
        InputMode::About => {
            app.input_mode = InputMode::Preview;
            Effect::Idle
        },
        _ => dialog_key_exec(app, key),
    }
}

/// What a key does in the color picker to the editor state, and what the
/// color editor is asked for. While the editor edits a text field
/// (`editing_text`) every key is the editor's. Otherwise Esc cancels the
/// picker, Enter confirms it unless the focused control takes it
/// (`enter_edits`), `f` switches between foreground and background (not on
/// a single-color element) and restarts the editor on that color, and `y`
/// yanks; every other key is the editor's.
pub open spec fn picker_key_step(v: AppView, key: KeyCode, editing_text: bool, enter_edits: bool) -> (
    AppView,
    EffectView,
) {
    if editing_text {
        (v, EffectView::ColorPickerKey)
    } else {
        match key {
            KeyCode::Esc => (close_picker_view(v, false), EffectView::Idle),
            KeyCode::Enter => if enter_edits {
                (v, EffectView::ColorPickerKey)
            } else {
                (close_picker_view(v, true), EffectView::Idle)
            },
            KeyCode::Char('f') => if element_single_color(v.selected_element) {
                (v, EffectView::Idle)
            } else {
                let w = AppView { selected_attribute: other_attribute(v.selected_attribute), ..v };
                (w, EffectView::EditColor(selected_color(w, w.selected_attribute)))
            },
            KeyCode::Char('y') => (yank_view(v), EffectView::Idle),
            _ => (v, EffectView::ColorPickerKey),
        }
    }
}

/// Handles a key in the color picker as far as it concerns the editor
/// state; [`Effect::ColorPickerKey`] hands it to the color editor.
pub fn process_picker_key(app: &mut App, key: KeyCode, editing_text: bool, enter_edits: bool) -> (e: Effect)
    requires
        old(app).wf(),
    ensures
        final(app).wf(),
        (final(app)@, e@) == picker_key_step(old(app)@, key, editing_text, enter_edits),
{
    if editing_text {
        return Effect::ColorPickerKey;
    }
    match key {
        KeyCode::Esc => {
            app.close_color_picker(false);
            Effect::Idle
        },
        KeyCode::Enter => if enter_edits {
            Effect::ColorPickerKey
        } else {
            app.close_color_picker(true);
            Effect::Idle
        },
        KeyCode::Char('f') => if app.selected_element.is_single_color() {
            Effect::Idle
        } else {
            let c = app.switch_editing_attribute();
            Effect::EditColor(c)
        },
        KeyCode::Char('y') => {
            app.yank_color();
            Effect::Idle
        },
        _ => Effect::ColorPickerKey,
    }
}

} // verus!
