//! Rendering arithmetic that does not depend on the terminal: where a popup
//! goes, how text is clipped, and which terminal color a theme component
//! paints with.
use vstd::prelude::*;
use crate::state::{
    element_label, entries_view, grey_swatch, opt_chars, same_text, selected_color, App, AppView,
    EntryView, InputMode, PreviewAttribute, PreviewElement, StatusView, ThemeEntry, UpdateStatus,
};
use crate::text::{chars_of, owned, push_char, push_str};
use crate::theme::{hex_text, RgbColor, Theme, ThemeComponentType};

verus! {

/// A screen rectangle: its top-left cell and its size in cells.
#[derive(Clone, Copy, Debug, PartialEq, Eq, Structural)]
pub struct Rect {
    pub x: u16,
    pub y: u16,
    pub width: u16,
    pub height: u16,
}

/// The rectangle's right and bottom edges stay within `u16`.
pub open spec fn rect_fits(r: Rect) -> bool {
    r.x + r.width <= u16::MAX && r.y + r.height <= u16::MAX
}

/// A size shrunk so that a rectangle starting at `origin` ends within `u16`.
pub open spec fn clamp_extent(origin: u16, extent: u16) -> int {
    if origin + extent <= u16::MAX {
        extent as int
    } else {
        u16::MAX - origin
    }
}

/// `ratatui::layout::Rect::new`: keeps the position and shrinks width and
/// height so that the right and bottom edges stay within `u16` (its source
/// computes `x.saturating_add(width) - x`).
#[verifier::external_body]
fn tui_rect(x: u16, y: u16, width: u16, height: u16) -> (r: Rect)
    ensures
        r.x == x,
        r.y == y,
        r.width == clamp_extent(x, width),
        r.height == clamp_extent(y, height),
{
    let t = ratatui::layout::Rect::new(x, y, width, height);
    Rect { x: t.x, y: t.y, width: t.width, height: t.height }
}

/// The popup size along one axis: the wanted size, at most two cells less
/// than the space there is, and at least one cell.
pub open spec fn popup_extent(wanted: u16, space: u16) -> int {
    let room: int = if space >= 2 { space - 2 } else { 0 };
    let e: int = if wanted <= room { wanted as int } else { room };
    if e >= 1 { e } else { 1 }
}

/// The offset that centers `extent` in `space` (rounded down), none when it
/// does not fit.
pub open spec fn center_offset(space: u16, extent: int) -> int {
    if space >= extent { (space - extent) / 2 } else { 0 }
}

/// The popup of (at most) `width` by `height` cells centered in `area`.
pub open spec fn centered_rect_spec(area: Rect, width: u16, height: u16) -> Rect {
    let w = popup_extent(width, area.width);
    let h = popup_extent(height, area.height);
    let x = area.x + center_offset(area.width, w);
    let y = area.y + center_offset(area.height, h);
    Rect {
        x: x as u16,
        y: y as u16,
        width: clamp_extent(x as u16, w as u16) as u16,
        height: clamp_extent(y as u16, h as u16) as u16,
    }
}

/// A popup of `width` by `height` cells centered in `area`, shrunk to leave
/// a one-cell margin and never smaller than one cell.
pub fn centered_rect(area: Rect, width: u16, height: u16) -> (r: Rect)
    requires
        rect_fits(area),
    ensures
        r == centered_rect_spec(area, width, height),
        r.width <= (if width >= 1 { width } else { 1 }),
        r.height <= (if height >= 1 { height } else { 1 }),
        area.x < u16::MAX ==> 1 <= r.width,
        area.y < u16::MAX ==> 1 <= r.height,
        area.x <= r.x,
        area.y <= r.y,
        r.width <= 1 || r.x + r.width <= area.x + area.width,
        r.height <= 1 || r.y + r.height <= area.y + area.height,
{
    let room_w = area.width.saturating_sub(2);
    let room_h = area.height.saturating_sub(2);
    let w0 = if width < room_w { width } else { room_w };
    let h0 = if height < room_h { height } else { room_h };
    let popup_width = if w0 > 1 { w0 } else { 1 };
    let popup_height = if h0 > 1 { h0 } else { 1 };
    let x = area.x + area.width.saturating_sub(popup_width) / 2;
    let y = area.y + area.height.saturating_sub(popup_height) / 2;
    tui_rect(x, y, popup_width, popup_height)
}

/// A card of exactly `width` by `height` cells centered in `area` (it may
/// stick out of a smaller area).
pub fn card_rect(area: Rect, width: u16, height: u16) -> (r: Rect)
    requires
        rect_fits(area),
    ensures
        r == (Rect {
            x: (area.x + center_offset(area.width, width as int)) as u16,
            y: (area.y + center_offset(area.height, height as int)) as u16,
            width,
            height,
        }),
{
    Rect {
        x: area.x + area.width.saturating_sub(width) / 2,
        y: area.y + area.height.saturating_sub(height) / 2,
        width,
        height,
    }
}

/// A color at a third of its brightness, each channel divided by three
/// (rounded down): how a flashing pane border is drawn in its off phase.
pub fn dimmed(c: RgbColor) -> (d: RgbColor)
    ensures
        d == (RgbColor { r: c.r / 3, g: c.g / 3, b: c.b / 3 }),
{
    RgbColor { r: c.r / 3, g: c.g / 3, b: c.b / 3 }
}

/// The first `max_chars` characters of `text` (all of them when it is
/// shorter).
pub fn clip_text(text: &str, max_chars: usize) -> (r: String)
    ensures
        r@ == text@.take(if max_chars < text@.len() { max_chars as int } else { text@.len() as int }),
{
    let chars = chars_of(text);
    let n = if max_chars < chars.len() { max_chars } else { chars.len() };
    let mut r = String::new();
    let mut i: usize = 0;
    while i < n
        invariant
            n <= chars@.len(),
            chars@ == text@,
            i <= n,
            r@ == text@.take(i as int),
        decreases n - i,
    {
        push_char(&mut r, chars[i]);
        assert(text@.take(i + 1) =~= text@.take(i as int).push(text@[i as int]));
        i = i + 1;
    }
    r
}

/// `ratatui::style::Color`, carried through opaquely.
#[verifier::external_type_specification]
#[verifier::external_body]
pub struct ExColor(ratatui::style::Color);

/// The terminal color `Color::Rgb(r, g, b)`.
pub uninterp spec fn rgb_color(r: u8, g: u8, b: u8) -> ratatui::style::Color;

/// `ratatui::style::Color::Rgb` of the color's three channels.
#[verifier::external_body]
fn color_rgb(color: RgbColor) -> (c: ratatui::style::Color)
    ensures
        c == rgb_color(color.r, color.g, color.b),
{
    ratatui::style::Color::Rgb(color.r, color.g, color.b)
}

/// The terminal color of a color of the theme.
pub fn tui_rgb(color: RgbColor) -> (c: ratatui::style::Color)
    ensures
        c == rgb_color(color.r, color.g, color.b),
{
    color_rgb(color)
}

/// The foreground (base) color a component paints with.
pub fn get_fg(comp: ThemeComponentType, theme: &Theme) -> (c: ratatui::style::Color)
    requires
        theme.wf(),
        theme@.comps.contains_key(comp),
    ensures
        c == rgb_color(theme@.comps[comp].base.r, theme@.comps[comp].base.g, theme@.comps[comp].base.b),
{
    let c = theme.get(comp);
    color_rgb(c.base)
}

/// The background color a component paints with.
pub fn get_bg(comp: ThemeComponentType, theme: &Theme) -> (c: ratatui::style::Color)
    requires
        theme.wf(),
        theme@.comps.contains_key(comp),
    ensures
        c == rgb_color(
            theme@.comps[comp].background.r,
            theme@.comps[comp].background.g,
            theme@.comps[comp].background.b,
        ),
{
    let c = theme.get(comp);
    color_rgb(c.background)
}

/// Where the theme loader's list starts when `per_view` rows fit and entry
/// `selected` of `len` is selected: at the top while the list fits or the
/// selection is in the first half-view, else centering the selection but
/// never past the end of the list.
pub open spec fn loader_scroll_spec(len: int, selected: int, per_view: int) -> int {
    if len <= per_view {
        0
    } else if selected < per_view / 2 {
        0
    } else {
        let a = selected - per_view / 2;
        let b = len - per_view;
        if a <= b { a } else { b }
    }
}

/// The first row the theme loader shows. A selected entry is always in
/// view, and the view never runs past the end of a list longer than it.
pub fn loader_scroll(len: usize, selected: usize, per_view: usize) -> (r: usize)
    ensures
        r == loader_scroll_spec(len as int, selected as int, per_view as int),
        per_view > 0 && selected < len ==> r <= selected < r + per_view,
        len > per_view ==> r + per_view <= len,
{
    if len <= per_view {
        0
    } else if selected < per_view / 2 {
        0
    } else {
        let a = selected - per_view / 2;
        let b = len - per_view;
        if a <= b { a } else { b }
    }
}

/// The first help row shown: the requested scroll position, but no further
/// than leaves the last `visible` of `rows` rows in view (that limit taken
/// as a `u16`, keeping its low 16 bits).
pub fn help_scroll_offset(help_scroll: u16, rows: usize, visible: usize) -> (r: u16)
    ensures
        r == (if help_scroll <= ((if rows >= visible { rows - visible } else { 0 }) as u16) {
            help_scroll
        } else {
            ((if rows >= visible { rows - visible } else { 0 }) as u16)
        }),
{
    let max_scroll = rows.saturating_sub(visible) as u16;
    if help_scroll <= max_scroll { help_scroll } else { max_scroll }
}

/// The longest name among `s`, in characters (`0` for none).
pub open spec fn max_name_len(s: Seq<EntryView>) -> nat
    decreases s.len(),
{
    if s.len() == 0 {
        0
    } else {
        let m = max_name_len(s.drop_last());
        if s.last().name.len() > m { s.last().name.len() } else { m }
    }
}

/// The width the loader reserves for names: the longest listed name, or
/// 24 characters when nothing is listed.
pub fn longest_name(entries: &Vec<ThemeEntry>) -> (n: usize)
    ensures
        n == (if entries@.len() == 0 { 24 } else { max_name_len(entries_view(entries@)) }),
{
    if entries.len() == 0 {
        return 24;
    }
    let mut m: usize = 0;
    let mut i: usize = 0;
    while i < entries.len()
        invariant
            i <= entries@.len(),
            m == max_name_len(entries_view(entries@.take(i as int))),
        decreases entries@.len() - i,
    {
        let l = entries[i].name().unicode_len();
        assert(entries_view(entries@.take(i + 1)).drop_last() =~= entries_view(entries@.take(i as int)));
        if l > m {
            m = l;
        }
        i = i + 1;
    }
    assert(entries@.take(entries@.len() as int) =~= entries@);
    m
}

/// The size of the theme loader overlay in an area of `area_w` by
/// `area_h` cells, for names of `longest` characters (taken as a `u16`,
/// keeping its low 16 bits): 18 cells more than the longest name, between
/// 64 and 78 wide, and 20 rows high, each shrunk to fit the area with a
/// margin.
pub open spec fn loader_overlay_size_spec(area_w: u16, area_h: u16, longest: usize) -> (int, int) {
    let l = longest as u16;
    let desired: int = if l + 18 <= u16::MAX { l + 18 } else { u16::MAX as int };
    let clamped: int = if desired < 64 { 64 } else if desired > 78 { 78 } else { desired };
    let room_w: int = if area_w >= 4 { area_w - 4 } else { 0 };
    let room_h: int = if area_h >= 2 { area_h - 2 } else { 0 };
    (
        if clamped <= room_w { clamped } else { room_w },
        if 20 <= room_h { 20 } else { room_h },
    )
}

/// Width and height of the theme loader overlay.
pub fn loader_overlay_size(area_w: u16, area_h: u16, longest: usize) -> (r: (u16, u16))
    ensures
        r.0 == loader_overlay_size_spec(area_w, area_h, longest).0,
        r.1 == loader_overlay_size_spec(area_w, area_h, longest).1,
{
    let room_h = area_h.saturating_sub(2);
    let overlay_h: u16 = if 20 <= room_h { 20 } else { room_h };
    let l = longest as u16;
    let desired = l.saturating_add(18);
    let clamped: u16 = if desired < 64 { 64 } else if desired > 78 { 78 } else { desired };
    let room_w = area_w.saturating_sub(4);
    let overlay_w: u16 = if clamped <= room_w { clamped } else { room_w };
    (overlay_w, overlay_h)
}

/// The width of the name column of a loader row `width` cells wide: what
/// the marker, the details (12 cells when selected, 4 otherwise) and a
/// space leave, but at least 12.
pub fn card_name_width(width: u16, selected: bool) -> (r: usize)
    ensures
        r == ({
            let reserved: int = if selected { 15 } else { 7 };
            let left: int = if width >= reserved { width - reserved } else { 0 };
            if left >= 12 { left } else { 12int }
        }),
{
    let detail_w: usize = if selected { 12 } else { 4 };
    let reserved = 2 + detail_w;
    let left = (width as usize).saturating_sub(reserved + 1);
    if left >= 12 { left } else { 12 }
}

/// The swatch listed last for `name` in `s`, if any.
pub open spec fn swatch_of(s: Seq<(Seq<char>, Seq<RgbColor>)>, name: Seq<char>) -> Option<Seq<RgbColor>>
    decreases s.len(),
{
    if s.len() == 0 {
        None
    } else if s.last().0 == name {
        Some(s.last().1)
    } else {
        swatch_of(s.drop_last(), name)
    }
}

/// The label of the status bar's mode pill: `STATUS` while the status bar
/// itself is highlighted, otherwise the input mode's name.
pub open spec fn mode_label_spec(mode: InputMode, status_active: bool) -> Seq<char> {
    if status_active {
        " STATUS "@
    } else {
        match mode {
            InputMode::ColorPicker => " COLOR  "@,
            InputMode::Preview => " NORMAL "@,
            InputMode::ThemeNameInput | InputMode::ThemeNameInputApply => " APPLY  "@,
            InputMode::ThemeLoad => " LOAD   "@,
            InputMode::ThemeLoadRename => " RENAME "@,
            InputMode::ThemeLoadDeleteConfirm => " DELETE "@,
            InputMode::UpdateRestartConfirm => " UPDATE "@,
            InputMode::FieldSearch => " FIND   "@,
            InputMode::Help => " HELP   "@,
            InputMode::About => " ABOUT  "@,
        }
    }
}

/// The label of the status bar's mode pill.
pub fn mode_label(mode: InputMode, status_active: bool) -> (s: &'static str)
    ensures
        s@ == mode_label_spec(mode, status_active),
{
    if status_active {
        " STATUS "
    } else {
        match mode {
            InputMode::ColorPicker => " COLOR  ",
            InputMode::Preview => " NORMAL ",
            InputMode::ThemeNameInput | InputMode::ThemeNameInputApply => " APPLY  ",
            InputMode::ThemeLoad => " LOAD   ",
            InputMode::ThemeLoadRename => " RENAME ",
            InputMode::ThemeLoadDeleteConfirm => " DELETE ",
            InputMode::UpdateRestartConfirm => " UPDATE ",
            InputMode::FieldSearch => " FIND   ",
            InputMode::Help => " HELP   ",
            InputMode::About => " ABOUT  ",
        }
    }
}

/// Key hints as plain character sequences.
pub open spec fn hint_texts(s: Seq<(&'static str, &'static str, &'static str)>) -> Seq<(Seq<char>, Seq<char>, Seq<char>)> {
    s.map_values(|t: (&'static str, &'static str, &'static str)| (t.0@, t.1@, t.2@))
}

/// The key hints of the status bar in each mode: key, long label, short
/// label. The color picker offers `f` only for elements with a foreground
/// and a background.
pub open spec fn status_bindings_spec(mode: InputMode, single_color: bool) -> Seq<(Seq<char>, Seq<char>, Seq<char>)> {
    match mode {
        InputMode::Preview => seq![("↑↓"@, "ELEMENT"@, "EL"@), ("c"@, "COLOR"@, "CLR"@), ("U"@, "UPDATE"@, "UPD"@), ("s"@, "SAVE AS"@, "SAVE"@), ("l"@, "LOAD"@, "LD"@), ("a"@, "SAVE+APPLY"@, "APPLY"@), ("?"@, "HELP"@, "?"@), ("q"@, "QUIT"@, "QT"@)],
        InputMode::ThemeNameInput | InputMode::ThemeNameInputApply => seq![("type"@, "NAME"@, "NM"@), ("Enter"@, "SAVE"@, "OK"@), ("Esc"@, "CANCEL"@, "ESC"@)],
        InputMode::ThemeLoad => seq![("↑↓"@, "SELECT"@, "SEL"@), ("b"@, "BUILTIN"@, "BIN"@), ("s"@, "SAVED"@, "SVD"@), ("Enter"@, "LOAD"@, "LD"@), ("a"@, "APPLY"@, "AP"@), ("r"@, "RENAME"@, "RN"@), ("d"@, "DELETE"@, "DEL"@), ("Esc"@, "CANCEL"@, "ESC"@)],
        InputMode::ThemeLoadRename => seq![("type"@, "NAME"@, "NM"@), ("Enter"@, "RENAME"@, "OK"@), ("Esc"@, "CANCEL"@, "ESC"@)],
        InputMode::ThemeLoadDeleteConfirm => seq![("y"@, "CONFIRM"@, "Y"@), ("n"@, "CANCEL"@, "N"@)],
        InputMode::UpdateRestartConfirm => seq![("Enter"@, "RESTART"@, "OK"@), ("l"@, "LATER"@, "L"@), ("Esc"@, "LATER"@, "X"@)],
        InputMode::FieldSearch => seq![("type"@, "SEARCH"@, "SRCH"@), ("Enter"@, "SELECT"@, "OK"@), ("Esc"@, "CANCEL"@, "ESC"@)],
        InputMode::Help => seq![("↑↓"@, "SCROLL"@, "SCR"@), ("Pg"@, "JUMP"@, "PG"@), ("Esc"@, "CLOSE"@, "X"@)],
        InputMode::About => seq![("any"@, "CLOSE"@, "X"@)],
        InputMode::ColorPicker => if single_color {
            seq![("tab"@, "FOCUS"@, "TAB"@), ("m"@, "MODE"@, "MD"@), ("drag"@, "PICK"@, "PK"@), ("#"@, "HEX"@, "HX"@), ("Enter"@, "EDIT/OK"@, "OK"@), ("Esc"@, "CANCEL"@, "ESC"@)]
        } else {
            seq![("tab"@, "FOCUS"@, "TAB"@), ("m"@, "MODE"@, "MD"@), ("f"@, "FG/BG"@, "F/B"@), ("drag"@, "PICK"@, "PK"@), ("#"@, "HEX"@, "HX"@), ("Enter"@, "EDIT/OK"@, "OK"@), ("Esc"@, "CANCEL"@, "ESC"@)]
        },
    }
}

/// The key hints of the status bar in `mode`; `single_color` tells whether
/// the selected element has one color only.
pub fn status_bindings(mode: InputMode, single_color: bool) -> (r: &'static [(&'static str, &'static str, &'static str)])
    ensures
        hint_texts(r@) == status_bindings_spec(mode, single_color),
{
    let r: &'static [(&'static str, &'static str, &'static str)] = match mode {
        InputMode::Preview => &[("↑↓", "ELEMENT", "EL"), ("c", "COLOR", "CLR"), ("U", "UPDATE", "UPD"), ("s", "SAVE AS", "SAVE"), ("l", "LOAD", "LD"), ("a", "SAVE+APPLY", "APPLY"), ("?", "HELP", "?"), ("q", "QUIT", "QT")],
        InputMode::ThemeNameInput | InputMode::ThemeNameInputApply => &[("type", "NAME", "NM"), ("Enter", "SAVE", "OK"), ("Esc", "CANCEL", "ESC")],
        InputMode::ThemeLoad => &[("↑↓", "SELECT", "SEL"), ("b", "BUILTIN", "BIN"), ("s", "SAVED", "SVD"), ("Enter", "LOAD", "LD"), ("a", "APPLY", "AP"), ("r", "RENAME", "RN"), ("d", "DELETE", "DEL"), ("Esc", "CANCEL", "ESC")],
        InputMode::ThemeLoadRename => &[("type", "NAME", "NM"), ("Enter", "RENAME", "OK"), ("Esc", "CANCEL", "ESC")],
        InputMode::ThemeLoadDeleteConfirm => &[("y", "CONFIRM", "Y"), ("n", "CANCEL", "N")],
        InputMode::UpdateRestartConfirm => &[("Enter", "RESTART", "OK"), ("l", "LATER", "L"), ("Esc", "LATER", "X")],
        InputMode::FieldSearch => &[("type", "SEARCH", "SRCH"), ("Enter", "SELECT", "OK"), ("Esc", "CANCEL", "ESC")],
        InputMode::Help => &[("↑↓", "SCROLL", "SCR"), ("Pg", "JUMP", "PG"), ("Esc", "CLOSE", "X")],
        InputMode::About => &[("any", "CLOSE", "X")],
        InputMode::ColorPicker => if single_color {
            &[("tab", "FOCUS", "TAB"), ("m", "MODE", "MD"), ("drag", "PICK", "PK"), ("#", "HEX", "HX"), ("Enter", "EDIT/OK", "OK"), ("Esc", "CANCEL", "ESC")]
        } else {
            &[("tab", "FOCUS", "TAB"), ("m", "MODE", "MD"), ("f", "FG/BG", "F/B"), ("drag", "PICK", "PK"), ("#", "HEX", "HX"), ("Enter", "EDIT/OK", "OK"), ("Esc", "CANCEL", "ESC")]
        },
    };
    assert(hint_texts(r@) =~= status_bindings_spec(mode, single_color));
    r
}

/// How much of the key hints fit beside the mode pill: `0` for the long
/// labels, `1` for the short ones, `2` for the keys alone, given the width
/// the hints take with long and with short labels.
pub fn label_level(long_width: usize, short_width: usize, available: usize) -> (level: u8)
    ensures
        level == (if long_width <= available {
            0u8
        } else if short_width <= available {
            1u8
        } else {
            2u8
        }),
{
    if long_width <= available {
        0
    } else if short_width <= available {
        1
    } else {
        2
    }
}

/// The self-update notice shown in the status bar when there is no
/// message, if the update status has one.
pub open spec fn update_notice_spec(s: StatusView) -> Option<Seq<char>> {
    match s {
        StatusView::Checking => Some(" checking for update… "@),
        StatusView::Available(v) => Some(" ↑ "@ + v + " available — press U "@),
        StatusView::Downloading => Some(" downloading update… "@),
        StatusView::Done => Some(" ✓ updated — restart to apply "@),
        StatusView::Failed(e) => Some(" update check failed: "@ + e + " "@),
        _ => None,
    }
}

/// The self-update notice of the status bar.
pub fn update_notice(status: &UpdateStatus) -> (r: Option<String>)
    ensures
        opt_chars(r) == update_notice_spec(status@),
{
    match status {
        UpdateStatus::Checking => Some(owned(" checking for update… ")),
        UpdateStatus::Available(v) => {
            let mut m = owned(" ↑ ");
            push_str(&mut m, v.as_str());
            push_str(&mut m, " available — press U ");
            Some(m)
        },
        UpdateStatus::Downloading => Some(owned(" downloading update… ")),
        UpdateStatus::Done => Some(owned(" ✓ updated — restart to apply ")),
        UpdateStatus::Failed(e) => {
            let mut m = owned(" update check failed: ");
            push_str(&mut m, e.as_str());
            push_str(&mut m, " ");
            Some(m)
        },
        _ => None,
    }
}

/// The right-hand text of the status bar: theme name (starred when
/// changed), selected element, attribute and its color.
pub open spec fn status_info_spec(v: AppView) -> Seq<char> {
    " "@ + v.theme.name + (if v.dirty { "*"@ } else { ""@ }) + " │ "@ + element_label(v.selected_element)
        + " "@ + (match v.selected_attribute {
        PreviewAttribute::Base => "FG"@,
        PreviewAttribute::Background => "BG"@,
    }) + " "@ + hex_text(selected_color(v, v.selected_attribute)) + " "@
}

/// An element is drawn highlighted when it is the selected one and the
/// selection flash is not in an off phase.
pub open spec fn element_active_spec(selected: PreviewElement, element: PreviewElement, flashing_off: bool) -> bool {
    selected == element && !flashing_off
}

/// Whether `element` is drawn highlighted, given the selected element and
/// whether the flash is in an off phase.
pub fn element_active(selected: PreviewElement, element: PreviewElement, flashing_off: bool) -> (b: bool)
    ensures
        b == element_active_spec(selected, element, flashing_off),
{
    selected == element && !flashing_off
}

/// Whether an edited pane border is drawn dimmed (and thick): while it is
/// edited and the selection flash is in an off phase.
pub fn border_dimmed(editing: bool, flashing_off: bool) -> (b: bool)
    ensures
        b == (editing && flashing_off),
{
    editing && flashing_off
}

impl App {
    /// Whether `element` is drawn highlighted: it is the selected element
    /// and the selection flash is not in an off phase. The phase depends on
    /// the clock; [`element_active`] states the result for a given phase.
    pub fn is_element_active(&self, element: PreviewElement) -> (active: bool)
        ensures
            exists|off: bool|
                active == element_active_spec(self.selected_element, element, off) && (
                self.flash_start is None ==> !off) && (off ==> self.flash_ticks > 0),
            active ==> self.selected_element == element,
            self.selected_element == element && self.flash_start is None ==> active,
    {
        let off = self.is_flashing_off();
        let active = element_active(self.selected_element, element, off);
        assert(active == element_active_spec(self.selected_element, element, off));
        active
    }

    /// The right-hand text of the status bar.
    pub fn status_info(&self) -> (s: String)
        requires
            self.wf(),
        ensures
            s@ == status_info_spec(self@),
    {
        let c = self.get_color_by_attr(self.selected_attribute);
        let mut s = owned(" ");
        push_str(&mut s, self.theme.name.as_str());
        if self.dirty {
            push_str(&mut s, "*");
        } else {
            push_str(&mut s, "");
        }
        push_str(&mut s, " │ ");
        push_str(&mut s, self.selected_element.label());
        push_str(&mut s, " ");
        push_str(&mut s, self.selected_attribute.label());
        push_str(&mut s, " ");
        let h = c.to_hex();
        push_str(&mut s, h.as_str());
        push_str(&mut s, " ");
        s
    }

    /// The four colors shown beside the theme `name` in the loader: those
    /// recorded last for that name, grey when none were.
    pub fn swatches_for(&self, name: &str) -> (r: [RgbColor; 4])
        ensures
            r@ == (match swatch_of(self@.theme_swatches, name@) {
                Some(c) => c,
                None => grey_swatch(),
            }),
    {
        let mut i = self.theme_swatches.len();
        assert(self@.theme_swatches.take(i as int) =~= self@.theme_swatches);
        while i > 0
            invariant
                i <= self.theme_swatches@.len(),
                swatch_of(self@.theme_swatches, name@) == swatch_of(self@.theme_swatches.take(i as int), name@),
            decreases i,
        {
            let ghost t = self@.theme_swatches.take(i as int);
            assert(t.drop_last() =~= self@.theme_swatches.take(i - 1));
            let entry = &self.theme_swatches[i - 1];
            if same_text(entry.0.as_str(), name) {
                return entry.1;
            }
            i = i - 1;
        }
        let grey = RgbColor::new(50, 50, 50);
        let r = [grey, grey, grey, grey];
        assert(r@ =~= grey_swatch());
        r
    }
}

} // verus!
