//! Theme data: RGB colors, the components a Zellij theme styles, and themes.
use crate::text::{decimal, ascii_upper, ascii_upper_seq, hex_byte, hex_digit, push_char, push_hex_byte};
use vstd::prelude::*;
use vstd::std_specs::convert::FromSpecImpl;
use vstd::utf8::is_ascii_chars_encode_utf8;
use vstd::string::StringSliceAdditionalSpecFns;

verus! {

/// A 24-bit RGB color.
#[derive(Debug, Clone, Copy, PartialEq, Eq, Structural)]
pub struct RgbColor {
    pub r: u8,
    pub g: u8,
    pub b: u8,
}

impl Default for RgbColor {
    fn default() -> (c: Self)
        ensures
            c == (RgbColor { r: 0, g: 0, b: 0 }),
    {
        RgbColor { r: 0, g: 0, b: 0 }
    }
}

/// Value of an ASCII hexadecimal digit byte (`0-9`, `a-f`, `A-F`).
pub open spec fn hex_value(c: u8) -> Option<u8> {
    if 48 <= c && c <= 57 {
        Some((c - 48) as u8)
    } else if 97 <= c && c <= 102 {
        Some((c - 87) as u8)
    } else if 65 <= c && c <= 70 {
        Some((c - 55) as u8)
    } else {
        None
    }
}

/// What `u8::from_str_radix(s, 16)` gives for a two-byte string `s = [x, y]`:
/// an optional `+` sign followed by hexadecimal digits.
pub open spec fn radix16_pair(x: u8, y: u8) -> Option<u8> {
    if x == 43 {
        hex_value(y)
    } else {
        match (hex_value(x), hex_value(y)) {
            (Some(a), Some(b)) => Some((a * 16 + b) as u8),
            _ => None,
        }
    }
}

/// The bytes left after removing every leading `#` (`trim_start_matches('#')`).
pub open spec fn trim_hashes(b: Seq<u8>) -> Seq<u8>
    decreases b.len(),
{
    if b.len() > 0 && b[0] == 35 {
        trim_hashes(b.drop_first())
    } else {
        b
    }
}

/// A byte that continues a multi-byte UTF-8 character, so that no
/// character starts there.
pub open spec fn is_continuation(b: u8) -> bool {
    0x80 <= b && b <= 0xbf
}

/// The bytes of `s` after the leading `#` characters.
pub open spec fn hex_body(s: Seq<u8>) -> Seq<u8> {
    trim_hashes(s)
}

/// True where `RgbColor::from_hex` would slice the text off a character
/// boundary: the body is six bytes long and a two-byte slice it takes ends
/// inside a character.
pub open spec fn from_hex_panics(s: Seq<u8>) -> bool {
    let t = hex_body(s);
    t.len() == 6 && (is_continuation(t[2]) || (radix16_pair(t[0], t[1]) is Some
        && is_continuation(t[4])))
}

/// The color that the text with UTF-8 bytes `s` denotes, if any: after the
/// leading `#` characters exactly six bytes, read as three two-byte radix-16
/// numbers.
pub open spec fn parse_hex(s: Seq<u8>) -> Option<RgbColor> {
    let t = hex_body(s);
    if t.len() != 6 {
        None
    } else {
        match (radix16_pair(t[0], t[1]), radix16_pair(t[2], t[3]), radix16_pair(t[4], t[5])) {
            (Some(r), Some(g), Some(b)) => Some(RgbColor { r, g, b }),
            _ => None,
        }
    }
}

/// `#rrggbb` with lowercase, zero-padded hexadecimal digits.
pub open spec fn hex_text(c: RgbColor) -> Seq<char> {
    seq!['#'] + hex_byte(c.r) + hex_byte(c.g) + hex_byte(c.b)
}

/// `value` clamped to `0..=255`.
pub open spec fn clamp_byte(value: int) -> u8 {
    if value < 0 {
        0
    } else if value > 255 {
        255
    } else {
        value as u8
    }
}

impl RgbColor {
    /// The color packed into one number, red highest: `r * 65536 + g * 256 + b`.
    pub open spec fn packed(self) -> int {
        self.r * 65536 + self.g * 256 + self.b
    }

    pub fn new(r: u8, g: u8, b: u8) -> (c: Self)
        ensures
            c == (RgbColor { r, g, b }),
    {
        Self { r, g, b }
    }

    /// Reads `#rrggbb` (any number of leading `#`, digits in either case).
    pub fn from_hex(hex: &str) -> (res: Option<Self>)
        requires
            !from_hex_panics(hex.spec_bytes()),
        ensures
            res == parse_hex(hex.spec_bytes()),
    {
        let bytes = hex.as_bytes();
        let n = bytes.len();
        let mut k: usize = 0;
        assert(bytes@.skip(0) =~= bytes@);
        while k < n && bytes[k] == 35
            invariant
                n == bytes@.len(),
                k <= n,
                trim_hashes(bytes@) == trim_hashes(bytes@.skip(k as int)),
            decreases n - k,
        {
            assert(bytes@.skip(k as int).drop_first() =~= bytes@.skip(k + 1));
            k = k + 1;
        }
        assert(trim_hashes(bytes@.skip(k as int)) == bytes@.skip(k as int));
        let ghost t = bytes@.skip(k as int);
        assert(t == hex_body(hex.spec_bytes()));
        if n - k != 6 {
            return None;
        }
        let r = match parse_radix16_pair(bytes[k], bytes[k + 1]) {
            Some(v) => v,
            None => return None,
        };
        let g = match parse_radix16_pair(bytes[k + 2], bytes[k + 3]) {
            Some(v) => v,
            None => return None,
        };
        let b = match parse_radix16_pair(bytes[k + 4], bytes[k + 5]) {
            Some(v) => v,
            None => return None,
        };
        Some(Self { r, g, b })
    }

    /// `#rrggbb` with lowercase digits.
    pub fn to_hex(&self) -> (s: String)
        ensures
            s@ == hex_text(*self),
    {
        let mut s = String::new();
        push_char(&mut s, '#');
        push_hex_byte(&mut s, self.r);
        push_hex_byte(&mut s, self.g);
        push_hex_byte(&mut s, self.b);
        assert(s@ =~= hex_text(*self));
        s
    }

    /// The packed color (see [`RgbColor::packed`]) plus `delta`, clamped to `0..=255`.
    pub fn saturating_add(self, delta: i8) -> (v: u8)
        ensures
            v == clamp_byte(self.packed() + delta),
    {
        let val = i32::from(self) + (delta as i32);
        if val < 0 {
            0
        } else if val > 255 {
            255
        } else {
            val as u8
        }
    }

    /// The packed color (see [`RgbColor::packed`]) plus `delta`, clamped to `0..=255`.
    pub fn saturating_add_unsigned(self, delta: u8) -> (v: u8)
        ensures
            v == clamp_byte(self.packed() + delta),
    {
        let val = i32::from(self) + (delta as i32);
        if val < 0 {
            0
        } else if val > 255 {
            255
        } else {
            val as u8
        }
    }
}

/// `u8::from_str_radix` on the two-byte string `[x, y]`, radix 16.
fn parse_radix16_pair(x: u8, y: u8) -> (r: Option<u8>)
    ensures
        r == radix16_pair(x, y),
{
    if x == 43 {
        hex_digit_value(y)
    } else {
        match (hex_digit_value(x), hex_digit_value(y)) {
            (Some(a), Some(b)) => Some(a * 16 + b),
            _ => None,
        }
    }
}

fn hex_digit_value(c: u8) -> (r: Option<u8>)
    ensures
        r == hex_value(c),
        r matches Some(v) ==> v < 16,
{
    if 48 <= c && c <= 57 {
        Some(c - 48)
    } else if 97 <= c && c <= 102 {
        Some(c - 87)
    } else if 65 <= c && c <= 70 {
        Some(c - 55)
    } else {
        None
    }
}

impl From<RgbColor> for i32 {
    fn from(color: RgbColor) -> (v: i32) {
        (color.r as i32) * 256 * 256 + (color.g as i32) * 256 + (color.b as i32)
    }
}

impl FromSpecImpl<RgbColor> for i32 {
    open spec fn obeys_from_spec() -> bool {
        true
    }

    open spec fn from_spec(v: RgbColor) -> i32 {
        v.packed() as i32
    }
}

impl From<RgbColor> for u8 {
    fn from(color: RgbColor) -> (v: u8) {
        color.r
    }
}

impl FromSpecImpl<RgbColor> for u8 {
    open spec fn obeys_from_spec() -> bool {
        true
    }

    open spec fn from_spec(v: RgbColor) -> u8 {
        v.r
    }
}

/// Reading back what `to_hex` writes gives the color back, and never panics.
pub proof fn lemma_hex_round_trip(c: RgbColor)
    ensures
        parse_hex(vstd::utf8::encode_utf8(hex_text(c))) == Some(c),
        !from_hex_panics(vstd::utf8::encode_utf8(hex_text(c))),
{
    let s = hex_text(c);
    assert(vstd::utf8::is_ascii_chars(s));
    is_ascii_chars_encode_utf8(s);
    let b = vstd::utf8::encode_utf8(s);
    assert(b.len() == 7);
    assert(b[0] == 35);
    assert(b.drop_first().len() == 6);
    assert(b.drop_first()[0] != 35) by {
        assert(b.drop_first()[0] == hex_digit((c.r / 16) as int) as u8);
    }
    assert(trim_hashes(b.drop_first()) == b.drop_first());
    assert(hex_body(b) == b.drop_first());
}

/// The same text without its leading `#` reads back as the color too.
pub proof fn lemma_hex_round_trip_bare(c: RgbColor)
    ensures
        parse_hex(vstd::utf8::encode_utf8(hex_text(c).drop_first())) == Some(c),
        !from_hex_panics(vstd::utf8::encode_utf8(hex_text(c).drop_first())),
{
    lemma_hex_round_trip(c);
    let s = hex_text(c);
    is_ascii_chars_encode_utf8(s);
    let b = vstd::utf8::encode_utf8(s);
    let s2 = s.drop_first();
    assert(vstd::utf8::is_ascii_chars(s2));
    is_ascii_chars_encode_utf8(s2);
    let b2 = vstd::utf8::encode_utf8(s2);
    assert(b2 =~= b.drop_first());
    assert(hex_body(b) == b.drop_first());
    assert(b2[0] != 35);
    assert(hex_body(b2) == b2);
}

/// An uppercased hexadecimal digit has the same value.
proof fn lemma_upper_hex_digit(v: int)
    requires
        0 <= v < 16,
    ensures
        ascii_upper(hex_digit(v)) <= '\u{7f}',
        hex_value(ascii_upper(hex_digit(v)) as u8) == Some(v as u8),
{
}

/// The same text in uppercase reads back as the color too.
#[verifier::rlimit(30)]
pub proof fn lemma_hex_round_trip_upper(c: RgbColor)
    ensures
        parse_hex(vstd::utf8::encode_utf8(ascii_upper_seq(hex_text(c)))) == Some(c),
        !from_hex_panics(vstd::utf8::encode_utf8(ascii_upper_seq(hex_text(c)))),
{
    let s = hex_text(c);
    let u = ascii_upper_seq(s);
    let d = seq![
        (c.r / 16) as int,
        (c.r % 16) as int,
        (c.g / 16) as int,
        (c.g % 16) as int,
        (c.b / 16) as int,
        (c.b % 16) as int,
    ];
    assert forall|i: int| 1 <= i < 7 implies #[trigger] u[i] == ascii_upper(hex_digit(d[i - 1])) by {
        assert(s[i] == hex_digit(d[i - 1]));
    }
    assert forall|i: int| 0 <= i < 6 implies 0 <= #[trigger] d[i] < 16 by {}
    assert(u[0] == '#');
    assert forall|i: int| 0 <= i < u.len() implies '\0' <= #[trigger] u[i] <= '\u{7f}' by {
        if i > 0 {
            lemma_upper_hex_digit(d[i - 1]);
        }
    }
    is_ascii_chars_encode_utf8(u);
    let bu = vstd::utf8::encode_utf8(u);
    assert(bu.len() == 7);
    assert(bu[0] == 35);
    assert forall|i: int| 1 <= i < 7 implies hex_value(#[trigger] bu[i]) == Some(d[i - 1] as u8) by {
        lemma_upper_hex_digit(d[i - 1]);
    }
    let t = bu.drop_first();
    assert(t[0] == bu[1]);
    assert(trim_hashes(t) == t);
    assert(hex_body(bu) == t);
    assert(hex_value(t[0]) == Some(d[0] as u8));
    assert(hex_value(t[1]) == Some(d[1] as u8));
    assert(hex_value(t[2]) == Some(d[2] as u8));
    assert(hex_value(t[3]) == Some(d[3] as u8));
    assert(hex_value(t[4]) == Some(d[4] as u8));
    assert(hex_value(t[5]) == Some(d[5] as u8));
}

/// The six colors of one themed element. Only `base` and `background` are
/// edited; the emphasis levels are carried along.
#[derive(Debug, Clone, Copy, PartialEq, Eq, Structural)]
pub struct ThemeComponent {
    pub base: RgbColor,
    pub background: RgbColor,
    pub emphasis_0: RgbColor,
    pub emphasis_1: RgbColor,
    pub emphasis_2: RgbColor,
    pub emphasis_3: RgbColor,
}

/// The component that `ThemeComponent::new(base, background)` builds.
pub open spec fn component_with(base: RgbColor, background: RgbColor) -> ThemeComponent {
    ThemeComponent {
        base,
        background,
        emphasis_0: RgbColor { r: 255, g: 255, b: 255 },
        emphasis_1: RgbColor { r: 200, g: 200, b: 200 },
        emphasis_2: RgbColor { r: 150, g: 150, b: 150 },
        emphasis_3: RgbColor { r: 100, g: 100, b: 100 },
    }
}

/// The all-black component that `ThemeComponent::default()` builds.
pub open spec fn black_component() -> ThemeComponent {
    let k = RgbColor { r: 0, g: 0, b: 0 };
    ThemeComponent {
        base: k,
        background: k,
        emphasis_0: k,
        emphasis_1: k,
        emphasis_2: k,
        emphasis_3: k,
    }
}

impl ThemeComponent {
    /// A component with the given colors and the standard grey emphasis ramp.
    pub fn new(base: RgbColor, background: RgbColor) -> (c: Self)
        ensures
            c == component_with(base, background),
    {
        Self {
            base,
            background,
            emphasis_0: RgbColor::new(255, 255, 255),
            emphasis_1: RgbColor::new(200, 200, 200),
            emphasis_2: RgbColor::new(150, 150, 150),
            emphasis_3: RgbColor::new(100, 100, 100),
        }
    }
}

impl Default for ThemeComponent {
    fn default() -> (c: Self)
        ensures
            c == black_component(),
    {
        let k = RgbColor { r: 0, g: 0, b: 0 };
        ThemeComponent {
            base: k,
            background: k,
            emphasis_0: k,
            emphasis_1: k,
            emphasis_2: k,
            emphasis_3: k,
        }
    }
}

/// The elements a Zellij theme styles: fourteen foreground/background style
/// declarations and ten single-color multiplayer slots.
#[derive(Debug, Clone, Copy, PartialEq, Eq, Hash, Structural)]
pub enum ThemeComponentType {
    TextUnselected,
    TextSelected,
    RibbonUnselected,
    RibbonSelected,
    TableTitle,
    TableCellUnselected,
    TableCellSelected,
    ListUnselected,
    ListSelected,
    FrameUnselected,
    FrameSelected,
    FrameHighlight,
    ExitCodeSuccess,
    ExitCodeError,
    // Multiplayer cursor / pane-border colors for other connected clients.
    // Only `ThemeComponent::base` is used for these: they are single colors,
    // not FG/BG pairs, and they are kept out of `all()` because they form
    // their own `multiplayer_user_colors` block.
    Player1,
    Player2,
    Player3,
    Player4,
    Player5,
    Player6,
    Player7,
    Player8,
    Player9,
    Player10,
}

/// Number of component types.
pub const COMPONENT_COUNT: usize = 24;

/// The fourteen standard style declarations, in declaration order.
pub open spec fn standard_types() -> Seq<ThemeComponentType> {
    seq![
        ThemeComponentType::TextUnselected,
        ThemeComponentType::TextSelected,
        ThemeComponentType::RibbonUnselected,
        ThemeComponentType::RibbonSelected,
        ThemeComponentType::TableTitle,
        ThemeComponentType::TableCellUnselected,
        ThemeComponentType::TableCellSelected,
        ThemeComponentType::ListUnselected,
        ThemeComponentType::ListSelected,
        ThemeComponentType::FrameUnselected,
        ThemeComponentType::FrameSelected,
        ThemeComponentType::FrameHighlight,
        ThemeComponentType::ExitCodeSuccess,
        ThemeComponentType::ExitCodeError,
    ]
}

/// The ten multiplayer slots, `player_1` to `player_10`.
pub open spec fn player_types() -> Seq<ThemeComponentType> {
    seq![
        ThemeComponentType::Player1,
        ThemeComponentType::Player2,
        ThemeComponentType::Player3,
        ThemeComponentType::Player4,
        ThemeComponentType::Player5,
        ThemeComponentType::Player6,
        ThemeComponentType::Player7,
        ThemeComponentType::Player8,
        ThemeComponentType::Player9,
        ThemeComponentType::Player10,
    ]
}

/// Human-readable name of a component type.
pub open spec fn type_label(t: ThemeComponentType) -> Seq<char> {
    match t {
        ThemeComponentType::TextUnselected => "Text (Unselected)"@,
        ThemeComponentType::TextSelected => "Text (Selected)"@,
        ThemeComponentType::RibbonUnselected => "Ribbon/Tab (Unselected)"@,
        ThemeComponentType::RibbonSelected => "Ribbon/Tab (Selected)"@,
        ThemeComponentType::TableTitle => "Table Title"@,
        ThemeComponentType::TableCellUnselected => "Table Cell (Unselected)"@,
        ThemeComponentType::TableCellSelected => "Table Cell (Selected)"@,
        ThemeComponentType::ListUnselected => "List Item (Unselected)"@,
        ThemeComponentType::ListSelected => "List Item (Selected)"@,
        ThemeComponentType::FrameUnselected => "Frame (Unselected)"@,
        ThemeComponentType::FrameSelected => "Frame (Selected)"@,
        ThemeComponentType::FrameHighlight => "Frame Highlight"@,
        ThemeComponentType::ExitCodeSuccess => "Exit Code (Success)"@,
        ThemeComponentType::ExitCodeError => "Exit Code (Error)"@,
        ThemeComponentType::Player1 => "Player 1"@,
        ThemeComponentType::Player2 => "Player 2"@,
        ThemeComponentType::Player3 => "Player 3"@,
        ThemeComponentType::Player4 => "Player 4"@,
        ThemeComponentType::Player5 => "Player 5"@,
        ThemeComponentType::Player6 => "Player 6"@,
        ThemeComponentType::Player7 => "Player 7"@,
        ThemeComponentType::Player8 => "Player 8"@,
        ThemeComponentType::Player9 => "Player 9"@,
        ThemeComponentType::Player10 => "Player 10"@,
    }
}

/// Key of a component type in a KDL theme file.
pub open spec fn type_key(t: ThemeComponentType) -> Seq<char> {
    match t {
        ThemeComponentType::TextUnselected => "text_unselected"@,
        ThemeComponentType::TextSelected => "text_selected"@,
        ThemeComponentType::RibbonUnselected => "ribbon_unselected"@,
        ThemeComponentType::RibbonSelected => "ribbon_selected"@,
        ThemeComponentType::TableTitle => "table_title"@,
        ThemeComponentType::TableCellUnselected => "table_cell_unselected"@,
        ThemeComponentType::TableCellSelected => "table_cell_selected"@,
        ThemeComponentType::ListUnselected => "list_unselected"@,
        ThemeComponentType::ListSelected => "list_selected"@,
        ThemeComponentType::FrameUnselected => "frame_unselected"@,
        ThemeComponentType::FrameSelected => "frame_selected"@,
        ThemeComponentType::FrameHighlight => "frame_highlight"@,
        ThemeComponentType::ExitCodeSuccess => "exit_code_success"@,
        ThemeComponentType::ExitCodeError => "exit_code_error"@,
        ThemeComponentType::Player1 => "player_1"@,
        ThemeComponentType::Player2 => "player_2"@,
        ThemeComponentType::Player3 => "player_3"@,
        ThemeComponentType::Player4 => "player_4"@,
        ThemeComponentType::Player5 => "player_5"@,
        ThemeComponentType::Player6 => "player_6"@,
        ThemeComponentType::Player7 => "player_7"@,
        ThemeComponentType::Player8 => "player_8"@,
        ThemeComponentType::Player9 => "player_9"@,
        ThemeComponentType::Player10 => "player_10"@,
    }
}

/// Position of a component type in declaration order.
pub open spec fn type_index(t: ThemeComponentType) -> int {
    match t {
        ThemeComponentType::TextUnselected => 0,
        ThemeComponentType::TextSelected => 1,
        ThemeComponentType::RibbonUnselected => 2,
        ThemeComponentType::RibbonSelected => 3,
        ThemeComponentType::TableTitle => 4,
        ThemeComponentType::TableCellUnselected => 5,
        ThemeComponentType::TableCellSelected => 6,
        ThemeComponentType::ListUnselected => 7,
        ThemeComponentType::ListSelected => 8,
        ThemeComponentType::FrameUnselected => 9,
        ThemeComponentType::FrameSelected => 10,
        ThemeComponentType::FrameHighlight => 11,
        ThemeComponentType::ExitCodeSuccess => 12,
        ThemeComponentType::ExitCodeError => 13,
        ThemeComponentType::Player1 => 14,
        ThemeComponentType::Player2 => 15,
        ThemeComponentType::Player3 => 16,
        ThemeComponentType::Player4 => 17,
        ThemeComponentType::Player5 => 18,
        ThemeComponentType::Player6 => 19,
        ThemeComponentType::Player7 => 20,
        ThemeComponentType::Player8 => 21,
        ThemeComponentType::Player9 => 22,
        ThemeComponentType::Player10 => 23,
    }
}

impl ThemeComponentType {
    pub fn label(&self) -> (s: &'static str)
        ensures
            s@ == type_label(*self),
    {
        match self {
            Self::TextUnselected => "Text (Unselected)",
            Self::TextSelected => "Text (Selected)",
            Self::RibbonUnselected => "Ribbon/Tab (Unselected)",
            Self::RibbonSelected => "Ribbon/Tab (Selected)",
            Self::TableTitle => "Table Title",
            Self::TableCellUnselected => "Table Cell (Unselected)",
            Self::TableCellSelected => "Table Cell (Selected)",
            Self::ListUnselected => "List Item (Unselected)",
            Self::ListSelected => "List Item (Selected)",
            Self::FrameUnselected => "Frame (Unselected)",
            Self::FrameSelected => "Frame (Selected)",
            Self::FrameHighlight => "Frame Highlight",
            Self::ExitCodeSuccess => "Exit Code (Success)",
            Self::ExitCodeError => "Exit Code (Error)",
            Self::Player1 => "Player 1",
            Self::Player2 => "Player 2",
            Self::Player3 => "Player 3",
            Self::Player4 => "Player 4",
            Self::Player5 => "Player 5",
            Self::Player6 => "Player 6",
            Self::Player7 => "Player 7",
            Self::Player8 => "Player 8",
            Self::Player9 => "Player 9",
            Self::Player10 => "Player 10",
        }
    }

    pub fn component_key(&self) -> (s: &'static str)
        ensures
            s@ == type_key(*self),
    {
        match self {
            Self::TextUnselected => "text_unselected",
            Self::TextSelected => "text_selected",
            Self::RibbonUnselected => "ribbon_unselected",
            Self::RibbonSelected => "ribbon_selected",
            Self::TableTitle => "table_title",
            Self::TableCellUnselected => "table_cell_unselected",
            Self::TableCellSelected => "table_cell_selected",
            Self::ListUnselected => "list_unselected",
            Self::ListSelected => "list_selected",
            Self::FrameUnselected => "frame_unselected",
            Self::FrameSelected => "frame_selected",
            Self::FrameHighlight => "frame_highlight",
            Self::ExitCodeSuccess => "exit_code_success",
            Self::ExitCodeError => "exit_code_error",
            Self::Player1 => "player_1",
            Self::Player2 => "player_2",
            Self::Player3 => "player_3",
            Self::Player4 => "player_4",
            Self::Player5 => "player_5",
            Self::Player6 => "player_6",
            Self::Player7 => "player_7",
            Self::Player8 => "player_8",
            Self::Player9 => "player_9",
            Self::Player10 => "player_10",
        }
    }

    /// The fourteen standard style declarations; the multiplayer slots,
    /// which have their own KDL shape, are in [`Self::players`].
    pub fn all() -> (r: &'static [Self])
        ensures
            r@ == standard_types(),
    {
        let r: &'static [Self] = &[
            Self::TextUnselected,
            Self::TextSelected,
            Self::RibbonUnselected,
            Self::RibbonSelected,
            Self::TableTitle,
            Self::TableCellUnselected,
            Self::TableCellSelected,
            Self::ListUnselected,
            Self::ListSelected,
            Self::FrameUnselected,
            Self::FrameSelected,
            Self::FrameHighlight,
            Self::ExitCodeSuccess,
            Self::ExitCodeError,
        ];
        assert(r@ =~= standard_types());
        r
    }

    /// The ten multiplayer cursor/border slots, in `player_1..player_10` order.
    pub fn players() -> (r: &'static [Self; 10])
        ensures
            r@ == player_types(),
    {
        let r: &'static [Self; 10] = &[
            Self::Player1,
            Self::Player2,
            Self::Player3,
            Self::Player4,
            Self::Player5,
            Self::Player6,
            Self::Player7,
            Self::Player8,
            Self::Player9,
            Self::Player10,
        ];
        assert(r@ =~= player_types());
        r
    }

    /// Position of this type in declaration order.
    pub fn ordinal(&self) -> (i: usize)
        ensures
            i == type_index(*self),
    {
        match self {
            Self::TextUnselected => 0,
            Self::TextSelected => 1,
            Self::RibbonUnselected => 2,
            Self::RibbonSelected => 3,
            Self::TableTitle => 4,
            Self::TableCellUnselected => 5,
            Self::TableCellSelected => 6,
            Self::ListUnselected => 7,
            Self::ListSelected => 8,
            Self::FrameUnselected => 9,
            Self::FrameSelected => 10,
            Self::FrameHighlight => 11,
            Self::ExitCodeSuccess => 12,
            Self::ExitCodeError => 13,
            Self::Player1 => 14,
            Self::Player2 => 15,
            Self::Player3 => 16,
            Self::Player4 => 17,
            Self::Player5 => 18,
            Self::Player6 => 19,
            Self::Player7 => 20,
            Self::Player8 => 21,
            Self::Player9 => 22,
            Self::Player10 => 23,
        }
    }
}

/// A theme: a name and, for each component type, the component it sets.
///
/// `components` holds one slot per component type, indexed by
/// [`ThemeComponentType::ordinal`]; an empty slot means the theme does not
/// set that component.
#[derive(Debug, PartialEq, Eq)]
pub struct Theme {
    pub name: String,
    pub components: Vec<Option<ThemeComponent>>,
}

/// A theme as a name and a map from component types to components.
pub struct ThemeView {
    pub name: Seq<char>,
    pub comps: Map<ThemeComponentType, ThemeComponent>,
}

/// The map that a slot vector stands for.
pub open spec fn slots_map(v: Seq<Option<ThemeComponent>>) -> Map<ThemeComponentType, ThemeComponent> {
    Map::new(|t: ThemeComponentType| v[type_index(t)] is Some, |t: ThemeComponentType| v[type_index(t)]->0)
}

impl View for Theme {
    type V = ThemeView;

    open spec fn view(&self) -> ThemeView {
        ThemeView { name: self.name@, comps: slots_map(self.components@) }
    }
}

/// Foreground and background of the default theme's standard components.
pub open spec fn default_standard_colors(t: ThemeComponentType) -> (RgbColor, RgbColor) {
    let c = |r: u8, g: u8, b: u8| RgbColor { r, g, b };
    match t {
        ThemeComponentType::TextUnselected => (c(200, 200, 200), c(30, 30, 30)),
        ThemeComponentType::TextSelected => (c(255, 255, 255), c(60, 60, 60)),
        ThemeComponentType::RibbonUnselected => (c(180, 180, 180), c(40, 40, 40)),
        ThemeComponentType::RibbonSelected => (c(255, 255, 255), c(80, 80, 80)),
        ThemeComponentType::TableTitle => (c(200, 200, 200), c(50, 50, 50)),
        ThemeComponentType::TableCellUnselected => (c(180, 180, 180), c(35, 35, 35)),
        ThemeComponentType::TableCellSelected => (c(255, 255, 255), c(60, 60, 60)),
        ThemeComponentType::ListUnselected => (c(180, 180, 180), c(30, 30, 30)),
        ThemeComponentType::ListSelected => (c(255, 255, 255), c(70, 70, 70)),
        ThemeComponentType::FrameUnselected => (c(100, 100, 100), c(30, 30, 30)),
        ThemeComponentType::FrameSelected => (c(255, 255, 255), c(50, 50, 50)),
        ThemeComponentType::FrameHighlight => (c(255, 200, 100), c(60, 50, 30)),
        ThemeComponentType::ExitCodeSuccess => (c(100, 255, 100), c(30, 30, 30)),
        ThemeComponentType::ExitCodeError => (c(255, 100, 100), c(30, 30, 30)),
        // Multiplayer slots: the default player color on black.
        ThemeComponentType::Player1 => (c(220, 80, 200), c(0, 0, 0)),
        ThemeComponentType::Player2 => (c(80, 140, 220), c(0, 0, 0)),
        ThemeComponentType::Player3 => (c(150, 90, 210), c(0, 0, 0)),
        ThemeComponentType::Player4 => (c(220, 200, 80), c(0, 0, 0)),
        ThemeComponentType::Player5 => (c(80, 200, 200), c(0, 0, 0)),
        ThemeComponentType::Player6 => (c(210, 180, 70), c(0, 0, 0)),
        ThemeComponentType::Player7 => (c(220, 80, 80), c(0, 0, 0)),
        ThemeComponentType::Player8 => (c(190, 190, 200), c(0, 0, 0)),
        ThemeComponentType::Player9 => (c(230, 150, 190), c(0, 0, 0)),
        ThemeComponentType::Player10 => (c(150, 100, 70), c(0, 0, 0)),
    }
}

/// The component the default theme sets for a component type.
pub open spec fn default_component(t: ThemeComponentType) -> ThemeComponent {
    component_with(default_standard_colors(t).0, default_standard_colors(t).1)
}

/// The map of the default theme: every component type is set.
pub open spec fn default_components() -> Map<ThemeComponentType, ThemeComponent> {
    Map::new(|t: ThemeComponentType| true, |t: ThemeComponentType| default_component(t))
}

/// Default colors of the ten multiplayer slots, used when a theme file
/// has no `multiplayer_user_colors` block of its own.
fn default_player_colors() -> (r: [RgbColor; 10])
    ensures
        forall|i: int|
            0 <= i < 10 ==> r@[i] == default_standard_colors(#[trigger] player_types()[i]).0,
{
    let r = [
        RgbColor::new(220, 80, 200),  // player_1: magenta
        RgbColor::new(80, 140, 220),  // player_2: blue
        RgbColor::new(150, 90, 210),  // player_3: purple
        RgbColor::new(220, 200, 80),  // player_4: yellow
        RgbColor::new(80, 200, 200),  // player_5: cyan
        RgbColor::new(210, 180, 70),  // player_6: gold
        RgbColor::new(220, 80, 80),  // player_7: red
        RgbColor::new(190, 190, 200),  // player_8: silver
        RgbColor::new(230, 150, 190),  // player_9: pink
        RgbColor::new(150, 100, 70),  // player_10: brown
    ];
    r
}

impl Theme {
    /// One slot per component type.
    pub open spec fn wf(&self) -> bool {
        self.components@.len() == COMPONENT_COUNT
    }

    /// A theme with the given name that sets no component.
    pub fn empty(name: String) -> (t: Self)
        ensures
            t.wf(),
            t@.name == name@,
            t@.comps == Map::<ThemeComponentType, ThemeComponent>::empty(),
    {
        let mut components: Vec<Option<ThemeComponent>> = Vec::new();
        let mut i: usize = 0;
        while i < COMPONENT_COUNT
            invariant
                i <= COMPONENT_COUNT,
                components@.len() == i,
                forall|j: int| 0 <= j < i ==> components@[j] is None,
            decreases COMPONENT_COUNT - i,
        {
            components.push(None);
            i = i + 1;
        }
        let t = Theme { name, components };
        assert(t@.comps =~= Map::<ThemeComponentType, ThemeComponent>::empty());
        t
    }

    /// The component set for `t`. The theme must set it.
    pub fn get(&self, t: ThemeComponentType) -> (c: &ThemeComponent)
        requires
            self.wf(),
            self@.comps.contains_key(t),
        ensures
            *c == self@.comps[t],
    {
        self.components[t.ordinal()].as_ref().unwrap()
    }

    /// The component set for `t`, after setting it to the all-black
    /// default where the theme did not set it.
    pub fn get_mut(&mut self, t: ThemeComponentType) -> (c: &mut ThemeComponent)
        requires
            old(self).wf(),
        ensures
            final(self).wf(),
            *c == (if old(self)@.comps.contains_key(t) {
                old(self)@.comps[t]
            } else {
                black_component()
            }),
            final(self)@.name == old(self)@.name,
            final(self)@.comps == old(self)@.comps.insert(t, *final(c)),
    {
        let i = t.ordinal();
        if self.components[i].is_none() {
            self.components.set(i, Some(ThemeComponent::default()));
        }
        let slot = &mut self.components[i];
        match slot {
            Some(c) => c,
            None => vstd::pervasive::unreached(),
        }
    }
}

impl Default for Theme {
    /// The built-in theme named `default`, which sets every component.
    fn default() -> (t: Self)
        ensures
            t.wf(),
            t@.name == "default"@,
            t@.comps == default_components(),
    {
        let mut components: Vec<Option<ThemeComponent>> = Vec::new();
        // TextUnselected
        components.push(Some(ThemeComponent::new(RgbColor::new(200, 200, 200), RgbColor::new(30, 30, 30))));
        // TextSelected
        components.push(Some(ThemeComponent::new(RgbColor::new(255, 255, 255), RgbColor::new(60, 60, 60))));
        // RibbonUnselected
        components.push(Some(ThemeComponent::new(RgbColor::new(180, 180, 180), RgbColor::new(40, 40, 40))));
        // RibbonSelected
        components.push(Some(ThemeComponent::new(RgbColor::new(255, 255, 255), RgbColor::new(80, 80, 80))));
        // TableTitle
        components.push(Some(ThemeComponent::new(RgbColor::new(200, 200, 200), RgbColor::new(50, 50, 50))));
        // TableCellUnselected
        components.push(Some(ThemeComponent::new(RgbColor::new(180, 180, 180), RgbColor::new(35, 35, 35))));
        // TableCellSelected
        components.push(Some(ThemeComponent::new(RgbColor::new(255, 255, 255), RgbColor::new(60, 60, 60))));
        // ListUnselected
        components.push(Some(ThemeComponent::new(RgbColor::new(180, 180, 180), RgbColor::new(30, 30, 30))));
        // ListSelected
        components.push(Some(ThemeComponent::new(RgbColor::new(255, 255, 255), RgbColor::new(70, 70, 70))));
        // FrameUnselected
        components.push(Some(ThemeComponent::new(RgbColor::new(100, 100, 100), RgbColor::new(30, 30, 30))));
        // FrameSelected
        components.push(Some(ThemeComponent::new(RgbColor::new(255, 255, 255), RgbColor::new(50, 50, 50))));
        // FrameHighlight
        components.push(Some(ThemeComponent::new(RgbColor::new(255, 200, 100), RgbColor::new(60, 50, 30))));
        // ExitCodeSuccess
        components.push(Some(ThemeComponent::new(RgbColor::new(100, 255, 100), RgbColor::new(30, 30, 30))));
        // ExitCodeError
        components.push(Some(ThemeComponent::new(RgbColor::new(255, 100, 100), RgbColor::new(30, 30, 30))));
        let colors = default_player_colors();
        let mut i: usize = 0;
        while i < 10
            invariant
                i <= 10,
                components@.len() == 14 + i,
                forall|j: int| 0 <= j < 10 ==> colors@[j] == default_standard_colors(#[trigger] player_types()[j]).0,
                forall|j: int| 0 <= j < 14 ==> components@[j] == Some(default_component(#[trigger] standard_types()[j])),
                forall|j: int| 0 <= j < i ==> components@[14 + j] == Some(default_component(#[trigger] player_types()[j])),
            decreases 10 - i,
        {
            components.push(Some(ThemeComponent::new(colors[i], RgbColor::new(0, 0, 0))));
            i = i + 1;
        }
        let t = Theme { name: String::from_str("default"), components };
        assert forall|x: ThemeComponentType| #[trigger] t@.comps.contains_key(x) && t@.comps[x] == default_component(x) by {
            if type_index(x) < 14 {
                assert(standard_types()[type_index(x)] == x);
            } else {
                assert(player_types()[type_index(x) - 14] == x);
            }
        }
        assert(t@.comps =~= default_components());
        t
    }
}

impl Clone for Theme {
    fn clone(&self) -> (t: Self)
        ensures
            t.name@ == self.name@,
            t.components@ == self.components@,
    {
        let mut components: Vec<Option<ThemeComponent>> = Vec::new();
        let mut i: usize = 0;
        while i < self.components.len()
            invariant
                i <= self.components@.len(),
                components@ == self.components@.take(i as int),
            decreases self.components@.len() - i,
        {
            components.push(self.components[i]);
            i = i + 1;
            assert(components@ =~= self.components@.take(i as int));
        }
        assert(components@ =~= self.components@);
        Theme { name: self.name.clone(), components }
    }
}


/// A key as theme files write it: non-empty, of lowercase ASCII letters,
/// digits and `_`.
pub open spec fn snake_key(s: Seq<char>) -> bool {
    s.len() > 0 && forall|i: int|
        0 <= i < s.len() ==> ('a' <= #[trigger] s[i] <= 'z') || ('0' <= s[i] <= '9') || s[i] == '_'
}

/// Each component type has its own key in a theme file, and every key is
/// a snake_case word.
#[verifier::rlimit(60)]
pub proof fn lemma_component_keys(t1: ThemeComponentType, t2: ThemeComponentType)
    ensures
        snake_key(type_key(t1)),
        type_key(t1) == type_key(t2) ==> t1 == t2,
{
    reveal_strlit("text_unselected");
    reveal_strlit("text_selected");
    reveal_strlit("ribbon_unselected");
    reveal_strlit("ribbon_selected");
    reveal_strlit("table_title");
    reveal_strlit("table_cell_unselected");
    reveal_strlit("table_cell_selected");
    reveal_strlit("list_unselected");
    reveal_strlit("list_selected");
    reveal_strlit("frame_unselected");
    reveal_strlit("frame_selected");
    reveal_strlit("frame_highlight");
    reveal_strlit("exit_code_success");
    reveal_strlit("exit_code_error");
    reveal_strlit("player_1");
    reveal_strlit("player_2");
    reveal_strlit("player_3");
    reveal_strlit("player_4");
    reveal_strlit("player_5");
    reveal_strlit("player_6");
    reveal_strlit("player_7");
    reveal_strlit("player_8");
    reveal_strlit("player_9");
    reveal_strlit("player_10");
    let k1 = type_key(t1);
    let k2 = type_key(t2);
    if k1 == k2 {
        assert(k1.len() == k2.len() && k1[0] == k2[0] && k1[k1.len() - 1] == k2[k2.len() - 1]);
    }
}


/// The multiplayer slots are keyed `player_1` to `player_10`, in order, and
/// none of them is a standard style declaration.
pub proof fn lemma_player_keys(i: int)
    requires
        0 <= i < 10,
    ensures
        type_key(player_types()[i]) == "player_"@ + decimal((i + 1) as nat),
        !standard_types().contains(player_types()[i]),
{
    reveal_strlit("player_");
    reveal_strlit("player_1");
    reveal_strlit("player_2");
    reveal_strlit("player_3");
    reveal_strlit("player_4");
    reveal_strlit("player_5");
    reveal_strlit("player_6");
    reveal_strlit("player_7");
    reveal_strlit("player_8");
    reveal_strlit("player_9");
    reveal_strlit("player_10");
    reveal_with_fuel(decimal, 2);
    assert(decimal(10) == decimal(1).push('0'));
    assert(type_key(player_types()[i]) =~= "player_"@ + decimal((i + 1) as nat));
    if standard_types().contains(player_types()[i]) {
        let k = choose|k: int| 0 <= k < standard_types().len() && standard_types()[k] == player_types()[i];
        assert(type_index(standard_types()[k]) < 14);
    }
}

} // verus!
