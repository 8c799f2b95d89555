use ratatui::style::Color;
use zellit::layout::{
    border_dimmed, element_active,
    card_name_width, card_rect, centered_rect, dimmed, clip_text, get_bg, get_fg, help_scroll_offset, label_level,
    loader_overlay_size, loader_scroll, longest_name, mode_label, status_bindings, tui_rgb, update_notice, Rect,
};
use zellit::state::{App, InputMode, PreviewElement, ThemeEntry, UpdateStatus};
use zellit::theme::{RgbColor, Theme, ThemeComponentType};

fn rect(x: u16, y: u16, width: u16, height: u16) -> Rect {
    Rect { x, y, width, height }
}

#[test]
fn centered_rect_centers_with_a_margin() {
    assert_eq!(centered_rect(rect(0, 0, 100, 50), 60, 20), rect(20, 15, 60, 20));
    assert_eq!(centered_rect(rect(10, 4, 100, 50), 60, 20), rect(30, 19, 60, 20));
    assert_eq!(centered_rect(rect(5, 5, 10, 4), 60, 20), rect(6, 6, 8, 2));
    assert_eq!(centered_rect(rect(0, 0, 0, 0), 10, 10), rect(0, 0, 1, 1));
    assert_eq!(centered_rect(rect(0, 0, 80, 24), 0, 0), rect(39, 11, 1, 1));
}

#[test]
fn centered_rect_keeps_edges_within_u16() {
    assert_eq!(centered_rect(rect(u16::MAX, 0, 0, 3), 10, 10), rect(u16::MAX, 1, 0, 1));
}

#[test]
fn clip_text_keeps_the_first_characters() {
    assert_eq!(clip_text("héllo", 3), "hél");
    assert_eq!(clip_text("ab", 5), "ab");
    assert_eq!(clip_text("abc", 0), "");
}

#[test]
fn theme_colors_become_terminal_rgb_colors() {
    let t = Theme::default();
    assert_eq!(get_fg(ThemeComponentType::TextUnselected, &t), Color::Rgb(200, 200, 200));
    assert_eq!(get_bg(ThemeComponentType::TextUnselected, &t), Color::Rgb(30, 30, 30));
    assert_eq!(get_fg(ThemeComponentType::FrameHighlight, &t), Color::Rgb(255, 200, 100));
    assert_eq!(get_bg(ThemeComponentType::FrameHighlight, &t), Color::Rgb(60, 50, 30));
    assert_eq!(tui_rgb(RgbColor::new(1, 2, 3)), Color::Rgb(1, 2, 3));
}

#[test]
fn loader_scroll_keeps_the_selection_in_view() {
    assert_eq!(loader_scroll(3, 2, 5), 0);
    assert_eq!(loader_scroll(10, 1, 4), 0);
    assert_eq!(loader_scroll(10, 7, 4), 5);
    assert_eq!(loader_scroll(10, 9, 4), 6);
    for sel in 0..30 {
        let s = loader_scroll(30, sel, 7);
        assert!(s <= sel && sel < s + 7);
        assert!(s + 7 <= 30);
    }
}

#[test]
fn help_scroll_stops_at_the_last_page() {
    assert_eq!(help_scroll_offset(100, 60, 20), 40);
    assert_eq!(help_scroll_offset(10, 60, 20), 10);
    assert_eq!(help_scroll_offset(5, 10, 20), 0);
}

#[test]
fn loader_overlay_size_follows_the_longest_name() {
    assert_eq!(longest_name(&Vec::new()), 24);
    let entries = vec![ThemeEntry::Builtin("ab"), ThemeEntry::User(String::from("abcé"))];
    assert_eq!(longest_name(&entries), 4);
    assert_eq!(loader_overlay_size(200, 50, 30), (64, 20));
    assert_eq!(loader_overlay_size(200, 50, 55), (73, 20));
    assert_eq!(loader_overlay_size(200, 50, 70), (78, 20));
    assert_eq!(loader_overlay_size(50, 10, 10), (46, 8));
    assert_eq!(loader_overlay_size(2, 1, 10), (0, 0));
}

#[test]
fn card_name_width_leaves_room_for_details() {
    assert_eq!(card_name_width(40, true), 25);
    assert_eq!(card_name_width(40, false), 33);
    assert_eq!(card_name_width(10, true), 12);
}

#[test]
fn status_bar_texts() {
    assert_eq!(mode_label(InputMode::Preview, false), " NORMAL ");
    assert_eq!(mode_label(InputMode::ThemeNameInputApply, false), " APPLY  ");
    assert_eq!(mode_label(InputMode::Help, true), " STATUS ");
    assert_eq!(label_level(10, 5, 20), 0);
    assert_eq!(label_level(10, 5, 8), 1);
    assert_eq!(label_level(10, 9, 8), 2);
    assert_eq!(update_notice(&UpdateStatus::Idle), None);
    assert_eq!(
        update_notice(&UpdateStatus::Available(String::from("v2"))).as_deref(),
        Some(" ↑ v2 available — press U ")
    );
    assert_eq!(
        update_notice(&UpdateStatus::Failed(String::from("x"))).as_deref(),
        Some(" update check failed: x ")
    );
    assert_eq!(
        update_notice(&UpdateStatus::Checking).as_deref(),
        Some(" checking for update… ")
    );
}

#[test]
fn status_info_describes_the_selection() {
    let mut app = App::new();
    assert_eq!(app.status_info(), " default │ Tab (Selected) FG #ffffff ");
    app.selected_attribute.cycle();
    app.dirty = true;
    assert_eq!(app.status_info(), " default* │ Tab (Selected) BG #505050 ");
}

#[test]
fn only_the_selected_element_is_active_without_a_flash() {
    let app = App::new();
    assert!(app.is_element_active(PreviewElement::TabSelected));
    assert!(!app.is_element_active(PreviewElement::TabUnselected));
}

#[test]
fn about_card_is_centered_at_full_size() {
    assert_eq!(card_rect(rect(0, 0, 100, 40), 60, 18), rect(20, 11, 60, 18));
    assert_eq!(card_rect(rect(2, 3, 40, 10), 60, 18), rect(2, 3, 60, 18));
}

#[test]
fn dimmed_colors_are_a_third_as_bright() {
    assert_eq!(dimmed(RgbColor::new(255, 200, 100)), RgbColor::new(85, 66, 33));
    assert_eq!(dimmed(RgbColor::new(2, 3, 4)), RgbColor::new(0, 1, 1));
}

#[test]
fn status_bar_hints_follow_the_mode() {
    let preview = status_bindings(InputMode::Preview, false);
    assert_eq!(preview.len(), 8);
    assert_eq!(preview[0], ("↑↓", "ELEMENT", "EL"));
    assert_eq!(status_bindings(InputMode::ColorPicker, false).len(), 7);
    assert!(status_bindings(InputMode::ColorPicker, false).iter().any(|b| b.0 == "f"));
    assert!(!status_bindings(InputMode::ColorPicker, true).iter().any(|b| b.0 == "f"));
    assert_eq!(status_bindings(InputMode::About, false), &[("any", "CLOSE", "X")]);
}

#[test]
fn an_element_is_active_when_selected_and_not_flashing_off() {
    assert!(element_active(PreviewElement::TabSelected, PreviewElement::TabSelected, false));
    assert!(!element_active(PreviewElement::TabSelected, PreviewElement::TabSelected, true));
    assert!(!element_active(PreviewElement::TabSelected, PreviewElement::PaneSelected, false));
    assert!(border_dimmed(true, true));
    assert!(!border_dimmed(true, false));
    assert!(!border_dimmed(false, true));
}
