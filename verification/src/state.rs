//! The editor's state: what is selected, which dialog is open, the theme
//! loader's list, undo history, and the operations that change them.
use crate::text::{
    ascii_lower, ascii_lower_seq, char_ascii_lower, char_is_ascii_alnum, char_is_ascii_space,
    chars_of, decimal, is_ascii_alnum, is_ascii_space,
    is_subsequence, lower_chars, owned, pop_char, push_char, push_decimal, push_str,
    sort_strings, sort_texts, subsequence_chars, texts,
};
use crate::theme::{
    black_component, hex_text, RgbColor, COMPONENT_COUNT, Theme, ThemeComponent, ThemeComponentType, ThemeView,
};
use vstd::prelude::*;

verus! {

/// An entry of the theme loader: a theme saved by the user, or one that
/// ships with the program.
#[derive(Debug)]
pub enum ThemeEntry {
    User(String),
    Builtin(&'static str),
}

/// A loader entry as a plain value.
pub struct EntryView {
    pub builtin: bool,
    pub name: Seq<char>,
}

impl View for ThemeEntry {
    type V = EntryView;

    open spec fn view(&self) -> EntryView {
        match self {
            ThemeEntry::User(n) => EntryView { builtin: false, name: n@ },
            ThemeEntry::Builtin(n) => EntryView { builtin: true, name: n@ },
        }
    }
}

impl Clone for ThemeEntry {
    fn clone(&self) -> (e: Self)
        ensures
            e@ == self@,
    {
        match self {
            ThemeEntry::User(n) => ThemeEntry::User(n.clone()),
            ThemeEntry::Builtin(n) => ThemeEntry::Builtin(n),
        }
    }
}

impl ThemeEntry {
    pub fn name(&self) -> (n: &str)
        ensures
            n@ == self@.name,
    {
        match self {
            Self::User(n) => n.as_str(),
            Self::Builtin(n) => n,
        }
    }

    pub fn is_builtin(&self) -> (b: bool)
        ensures
            b == self@.builtin,
    {
        match self {
            Self::User(_) => false,
            Self::Builtin(_) => true,
        }
    }
}

/// Which entries the theme loader lists.
#[derive(Debug, Clone, Copy, PartialEq, Eq, Structural)]
pub enum ThemeFilter {
    All,
    Builtin,
    Saved,
}

/// Width of the left navigation sidebar, in columns.
pub const SIDEBAR_W: u16 = 24;

/// Corner of the screen that the color picker opens in.
#[derive(Debug, Clone, Copy, PartialEq, Eq, Structural)]
pub enum OverlayAnchor {
    BottomLeft,
    BottomRight,
}

/// The dialog or view that receives keys.
#[derive(Debug, Clone, Copy, PartialEq, Eq, Structural)]
pub enum InputMode {
    Preview,
    ColorPicker,
    ThemeNameInput,
    ThemeNameInputApply,
    ThemeLoad,
    ThemeLoadRename,
    ThemeLoadDeleteConfirm,
    UpdateRestartConfirm,
    FieldSearch,
    Help,
    About,
}

/// Progress of the self-update.
#[derive(Debug, PartialEq, Eq)]
pub enum UpdateStatus {
    Idle,
    Checking,
    UpToDate,
    Available(String),
    Downloading,
    Done,
    Failed(String),
}

/// The self-update progress as a plain value.
pub enum StatusView {
    Idle,
    Checking,
    UpToDate,
    Available(Seq<char>),
    Downloading,
    Done,
    Failed(Seq<char>),
}

impl View for UpdateStatus {
    type V = StatusView;

    open spec fn view(&self) -> StatusView {
        match self {
            UpdateStatus::Idle => StatusView::Idle,
            UpdateStatus::Checking => StatusView::Checking,
            UpdateStatus::UpToDate => StatusView::UpToDate,
            UpdateStatus::Available(s) => StatusView::Available(s@),
            UpdateStatus::Downloading => StatusView::Downloading,
            UpdateStatus::Done => StatusView::Done,
            UpdateStatus::Failed(s) => StatusView::Failed(s@),
        }
    }
}

impl Clone for UpdateStatus {
    fn clone(&self) -> (s: Self)
        ensures
            s@ == self@,
    {
        match self {
            UpdateStatus::Idle => UpdateStatus::Idle,
            UpdateStatus::Checking => UpdateStatus::Checking,
            UpdateStatus::UpToDate => UpdateStatus::UpToDate,
            UpdateStatus::Available(s) => UpdateStatus::Available(s.clone()),
            UpdateStatus::Downloading => UpdateStatus::Downloading,
            UpdateStatus::Done => UpdateStatus::Done,
            UpdateStatus::Failed(s) => UpdateStatus::Failed(s.clone()),
        }
    }
}

/// Which of an element's two colors is edited.
#[derive(Debug, Clone, Copy, PartialEq, Eq, Hash, Structural)]
pub enum PreviewAttribute {
    Base,
    Background,
}

/// The other attribute.
pub open spec fn other_attribute(a: PreviewAttribute) -> PreviewAttribute {
    match a {
        PreviewAttribute::Base => PreviewAttribute::Background,
        PreviewAttribute::Background => PreviewAttribute::Base,
    }
}

impl PreviewAttribute {
    pub fn label(&self) -> (s: &'static str)
        ensures
            s@ == (match *self {
                PreviewAttribute::Base => "FG"@,
                PreviewAttribute::Background => "BG"@,
            }),
    {
        match self {
            Self::Base => "FG",
            Self::Background => "BG",
        }
    }

    /// Switches to the other attribute.
    pub fn cycle(&mut self)
        ensures
            *final(self) == other_attribute(*old(self)),
    {
        *self = match self {
            Self::Base => Self::Background,
            Self::Background => Self::Base,
        };
    }
}

/// Groups of preview elements in the two-tier sidebar.
#[derive(Debug, Clone, Copy, PartialEq, Eq, Hash, Structural)]
pub enum PreviewGroup {
    TabBar,
    Panes,
    Content,
    Status,
    Multiplayer,
}

/// The groups in sidebar order.
pub open spec fn group_order() -> Seq<PreviewGroup> {
    seq![
        PreviewGroup::TabBar,
        PreviewGroup::Panes,
        PreviewGroup::Content,
        PreviewGroup::Status,
        PreviewGroup::Multiplayer,
    ]
}

/// The elements of a group, in sidebar order.
pub open spec fn group_fields(g: PreviewGroup) -> Seq<PreviewElement> {
    match g {
        PreviewGroup::TabBar => seq![PreviewElement::TabSelected, PreviewElement::TabUnselected],
        PreviewGroup::Panes => seq![
            PreviewElement::PaneSelected,
            PreviewElement::TextSelected,
            PreviewElement::TextUnselected,
            PreviewElement::PaneUnselected,
            PreviewElement::PaneHighlight,
        ],
        PreviewGroup::Content => seq![
            PreviewElement::TableTitle,
            PreviewElement::TableCellSelected,
            PreviewElement::TableCellUnselected,
            PreviewElement::ListSelected,
            PreviewElement::ListUnselected,
        ],
        PreviewGroup::Status => seq![PreviewElement::ExitSuccess, PreviewElement::ExitError],
        PreviewGroup::Multiplayer => seq![
            PreviewElement::Player1,
            PreviewElement::Player2,
            PreviewElement::Player3,
            PreviewElement::Player4,
            PreviewElement::Player5,
            PreviewElement::Player6,
            PreviewElement::Player7,
            PreviewElement::Player8,
            PreviewElement::Player9,
            PreviewElement::Player10,
        ],
    }
}

impl PreviewGroup {
    pub fn all() -> (r: &'static [PreviewGroup; 5])
        ensures
            r@ == group_order(),
    {
        let r: &'static [PreviewGroup; 5] = &[
            PreviewGroup::TabBar,
            PreviewGroup::Panes,
            PreviewGroup::Content,
            PreviewGroup::Status,
            PreviewGroup::Multiplayer,
        ];
        assert(r@ =~= group_order());
        r
    }

    pub fn label(&self) -> (s: &'static str)
        ensures
            s@ == (match *self {
                PreviewGroup::TabBar => "Tab Bar"@,
                PreviewGroup::Panes => "Panes"@,
                PreviewGroup::Content => "Content"@,
                PreviewGroup::Status => "Status"@,
                PreviewGroup::Multiplayer => "Multiplayer"@,
            }),
    {
        match self {
            Self::TabBar => "Tab Bar",
            Self::Panes => "Panes",
            Self::Content => "Content",
            Self::Status => "Status",
            Self::Multiplayer => "Multiplayer",
        }
    }

    pub fn fields(&self) -> (r: &'static [PreviewElement])
        ensures
            r@ == group_fields(*self),
    {
        let r: &'static [PreviewElement] = match self {
            Self::TabBar => &[PreviewElement::TabSelected, PreviewElement::TabUnselected],
            Self::Panes => &[
                PreviewElement::PaneSelected,
                PreviewElement::TextSelected,
                PreviewElement::TextUnselected,
                PreviewElement::PaneUnselected,
                PreviewElement::PaneHighlight,
            ],
            Self::Content => &[
                PreviewElement::TableTitle,
                PreviewElement::TableCellSelected,
                PreviewElement::TableCellUnselected,
                PreviewElement::ListSelected,
                PreviewElement::ListUnselected,
            ],
            Self::Status => &[PreviewElement::ExitSuccess, PreviewElement::ExitError],
            Self::Multiplayer => &[
                PreviewElement::Player1,
                PreviewElement::Player2,
                PreviewElement::Player3,
                PreviewElement::Player4,
                PreviewElement::Player5,
                PreviewElement::Player6,
                PreviewElement::Player7,
                PreviewElement::Player8,
                PreviewElement::Player9,
                PreviewElement::Player10,
            ],
        };
        assert(r@ =~= group_fields(*self));
        r
    }
}

/// The elements of the Zellij preview that can be edited.
#[derive(Debug, Clone, Copy, PartialEq, Eq, Hash, Structural)]
pub enum PreviewElement {
    // Tab bar
    TabSelected,
    TabUnselected,
    // Left panes
    PaneSelected,
    TextSelected,
    TextUnselected,
    PaneUnselected,
    // Right pane (highlight): frame and contents
    PaneHighlight,
    TableTitle,
    TableCellSelected,
    TableCellUnselected,
    ListSelected,
    ListUnselected,
    ExitSuccess,
    ExitError,
    // Multiplayer: one color per other connected client
    Player1,
    Player2,
    Player3,
    Player4,
    Player5,
    Player6,
    Player7,
    Player8,
    Player9,
    Player10,
}

/// Every element, in sidebar order.
pub open spec fn element_order() -> Seq<PreviewElement> {
    seq![
        PreviewElement::TabSelected,
        PreviewElement::TabUnselected,
        PreviewElement::PaneSelected,
        PreviewElement::TextSelected,
        PreviewElement::TextUnselected,
        PreviewElement::PaneUnselected,
        PreviewElement::PaneHighlight,
        PreviewElement::TableTitle,
        PreviewElement::TableCellSelected,
        PreviewElement::TableCellUnselected,
        PreviewElement::ListSelected,
        PreviewElement::ListUnselected,
        PreviewElement::ExitSuccess,
        PreviewElement::ExitError,
        PreviewElement::Player1,
        PreviewElement::Player2,
        PreviewElement::Player3,
        PreviewElement::Player4,
        PreviewElement::Player5,
        PreviewElement::Player6,
        PreviewElement::Player7,
        PreviewElement::Player8,
        PreviewElement::Player9,
        PreviewElement::Player10,
    ]
}

/// Position of an element in [`element_order`].
pub open spec fn element_index(e: PreviewElement) -> int {
    match e {
        PreviewElement::TabSelected => 0,
        PreviewElement::TabUnselected => 1,
        PreviewElement::PaneSelected => 2,
        PreviewElement::TextSelected => 3,
        PreviewElement::TextUnselected => 4,
        PreviewElement::PaneUnselected => 5,
        PreviewElement::PaneHighlight => 6,
        PreviewElement::TableTitle => 7,
        PreviewElement::TableCellSelected => 8,
        PreviewElement::TableCellUnselected => 9,
        PreviewElement::ListSelected => 10,
        PreviewElement::ListUnselected => 11,
        PreviewElement::ExitSuccess => 12,
        PreviewElement::ExitError => 13,
        PreviewElement::Player1 => 14,
        PreviewElement::Player2 => 15,
        PreviewElement::Player3 => 16,
        PreviewElement::Player4 => 17,
        PreviewElement::Player5 => 18,
        PreviewElement::Player6 => 19,
        PreviewElement::Player7 => 20,
        PreviewElement::Player8 => 21,
        PreviewElement::Player9 => 22,
        PreviewElement::Player10 => 23,
    }
}

/// The group an element is listed under.
pub open spec fn element_group(e: PreviewElement) -> PreviewGroup {
    match e {
        PreviewElement::TabSelected | PreviewElement::TabUnselected => PreviewGroup::TabBar,
        PreviewElement::PaneSelected | PreviewElement::TextSelected | PreviewElement::TextUnselected
        | PreviewElement::PaneUnselected | PreviewElement::PaneHighlight => PreviewGroup::Panes,
        PreviewElement::TableTitle | PreviewElement::TableCellSelected
        | PreviewElement::TableCellUnselected | PreviewElement::ListSelected
        | PreviewElement::ListUnselected => PreviewGroup::Content,
        PreviewElement::ExitSuccess | PreviewElement::ExitError => PreviewGroup::Status,
        _ => PreviewGroup::Multiplayer,
    }
}

/// Pane borders: a single color, no background.
pub open spec fn element_is_frame(e: PreviewElement) -> bool {
    e == PreviewElement::PaneSelected || e == PreviewElement::PaneUnselected || e
        == PreviewElement::PaneHighlight
}

/// The multiplayer colors of other connected clients.
pub open spec fn element_is_player(e: PreviewElement) -> bool {
    element_group(e) == PreviewGroup::Multiplayer
}

/// Elements with one color only, no foreground/background pair: the pane
/// borders and the multiplayer colors.
pub open spec fn element_single_color(e: PreviewElement) -> bool {
    element_is_frame(e) || element_is_player(e)
}

/// The theme component an element shows.
pub open spec fn element_component(e: PreviewElement) -> ThemeComponentType {
    match e {
        PreviewElement::TabSelected => ThemeComponentType::RibbonSelected,
        PreviewElement::TabUnselected => ThemeComponentType::RibbonUnselected,
        PreviewElement::TextUnselected => ThemeComponentType::TextUnselected,
        PreviewElement::PaneSelected => ThemeComponentType::FrameSelected,
        PreviewElement::TextSelected => ThemeComponentType::TextSelected,
        PreviewElement::PaneHighlight => ThemeComponentType::FrameHighlight,
        PreviewElement::PaneUnselected => ThemeComponentType::FrameUnselected,
        PreviewElement::TableTitle => ThemeComponentType::TableTitle,
        PreviewElement::TableCellSelected => ThemeComponentType::TableCellSelected,
        PreviewElement::TableCellUnselected => ThemeComponentType::TableCellUnselected,
        PreviewElement::ListSelected => ThemeComponentType::ListSelected,
        PreviewElement::ListUnselected => ThemeComponentType::ListUnselected,
        PreviewElement::ExitSuccess => ThemeComponentType::ExitCodeSuccess,
        PreviewElement::ExitError => ThemeComponentType::ExitCodeError,
        PreviewElement::Player1 => ThemeComponentType::Player1,
        PreviewElement::Player2 => ThemeComponentType::Player2,
        PreviewElement::Player3 => ThemeComponentType::Player3,
        PreviewElement::Player4 => ThemeComponentType::Player4,
        PreviewElement::Player5 => ThemeComponentType::Player5,
        PreviewElement::Player6 => ThemeComponentType::Player6,
        PreviewElement::Player7 => ThemeComponentType::Player7,
        PreviewElement::Player8 => ThemeComponentType::Player8,
        PreviewElement::Player9 => ThemeComponentType::Player9,
        PreviewElement::Player10 => ThemeComponentType::Player10,
    }
}

/// Label of an element in the sidebar.
pub open spec fn element_label(e: PreviewElement) -> Seq<char> {
    match e {
        PreviewElement::TabSelected => "Tab (Selected)"@,
        PreviewElement::TabUnselected => "Tab (Unselected)"@,
        PreviewElement::TextUnselected => "Text (Unselected)"@,
        PreviewElement::PaneSelected => "Pane (Selected)"@,
        PreviewElement::TextSelected => "Text (Selected)"@,
        PreviewElement::PaneHighlight => "Pane (Highlight)"@,
        PreviewElement::PaneUnselected => "Pane (Unselected)"@,
        PreviewElement::TableTitle => "Table Title"@,
        PreviewElement::TableCellSelected => "Table Cell (Selected)"@,
        PreviewElement::TableCellUnselected => "Table Cell (Unselected)"@,
        PreviewElement::ListSelected => "List (Selected)"@,
        PreviewElement::ListUnselected => "List (Unselected)"@,
        PreviewElement::ExitSuccess => "Exit (Success)"@,
        PreviewElement::ExitError => "Exit (Error)"@,
        PreviewElement::Player1 => "Player 1"@,
        PreviewElement::Player2 => "Player 2"@,
        PreviewElement::Player3 => "Player 3"@,
        PreviewElement::Player4 => "Player 4"@,
        PreviewElement::Player5 => "Player 5"@,
        PreviewElement::Player6 => "Player 6"@,
        PreviewElement::Player7 => "Player 7"@,
        PreviewElement::Player8 => "Player 8"@,
        PreviewElement::Player9 => "Player 9"@,
        PreviewElement::Player10 => "Player 10"@,
    }
}

impl PreviewElement {
    pub fn all() -> (r: &'static [PreviewElement])
        ensures
            r@ == element_order(),
    {
        let r: &'static [PreviewElement] = &[
            PreviewElement::TabSelected,
            PreviewElement::TabUnselected,
            PreviewElement::PaneSelected,
            PreviewElement::TextSelected,
            PreviewElement::TextUnselected,
            PreviewElement::PaneUnselected,
            PreviewElement::PaneHighlight,
            PreviewElement::TableTitle,
            PreviewElement::TableCellSelected,
            PreviewElement::TableCellUnselected,
            PreviewElement::ListSelected,
            PreviewElement::ListUnselected,
            PreviewElement::ExitSuccess,
            PreviewElement::ExitError,
            PreviewElement::Player1,
            PreviewElement::Player2,
            PreviewElement::Player3,
            PreviewElement::Player4,
            PreviewElement::Player5,
            PreviewElement::Player6,
            PreviewElement::Player7,
            PreviewElement::Player8,
            PreviewElement::Player9,
            PreviewElement::Player10,
        ];
        assert(r@ =~= element_order());
        r
    }

    pub fn group(&self) -> (g: PreviewGroup)
        ensures
            g == element_group(*self),
    {
        match self {
            Self::TabSelected | Self::TabUnselected => PreviewGroup::TabBar,
            Self::PaneSelected | Self::TextSelected | Self::TextUnselected | Self::PaneUnselected
            | Self::PaneHighlight => PreviewGroup::Panes,
            Self::TableTitle | Self::TableCellSelected | Self::TableCellUnselected
            | Self::ListSelected | Self::ListUnselected => PreviewGroup::Content,
            Self::ExitSuccess | Self::ExitError => PreviewGroup::Status,
            _ => PreviewGroup::Multiplayer,
        }
    }

    pub fn is_frame(&self) -> (b: bool)
        ensures
            b == element_is_frame(*self),
    {
        match self {
            Self::PaneSelected | Self::PaneUnselected | Self::PaneHighlight => true,
            _ => false,
        }
    }

    /// Elements that have one color only (the pane borders and the
    /// multiplayer colors): their foreground/background toggle is disabled.
    pub fn is_single_color(&self) -> (b: bool)
        ensures
            b == element_single_color(*self),
    {
        match self.group() {
            PreviewGroup::Multiplayer => true,
            _ => self.is_frame(),
        }
    }

    /// Where the color picker opens so that the element stays visible: the
    /// highlight pane is the only element drawn on the right of the
    /// preview, so it anchors bottom-left; every other one bottom-right.
    pub fn preferred_picker_anchor(&self) -> (a: OverlayAnchor)
        ensures
            a == (if *self == PreviewElement::PaneHighlight {
                OverlayAnchor::BottomLeft
            } else {
                OverlayAnchor::BottomRight
            }),
    {
        match self {
            Self::PaneHighlight => OverlayAnchor::BottomLeft,
            _ => OverlayAnchor::BottomRight,
        }
    }

    pub fn component_type(&self) -> (t: ThemeComponentType)
        ensures
            t == element_component(*self),
    {
        match self {
            Self::TabSelected => ThemeComponentType::RibbonSelected,
            Self::TabUnselected => ThemeComponentType::RibbonUnselected,
            Self::TextUnselected => ThemeComponentType::TextUnselected,
            Self::PaneSelected => ThemeComponentType::FrameSelected,
            Self::TextSelected => ThemeComponentType::TextSelected,
            Self::PaneHighlight => ThemeComponentType::FrameHighlight,
            Self::PaneUnselected => ThemeComponentType::FrameUnselected,
            Self::TableTitle => ThemeComponentType::TableTitle,
            Self::TableCellSelected => ThemeComponentType::TableCellSelected,
            Self::TableCellUnselected => ThemeComponentType::TableCellUnselected,
            Self::ListSelected => ThemeComponentType::ListSelected,
            Self::ListUnselected => ThemeComponentType::ListUnselected,
            Self::ExitSuccess => ThemeComponentType::ExitCodeSuccess,
            Self::ExitError => ThemeComponentType::ExitCodeError,
            Self::Player1 => ThemeComponentType::Player1,
            Self::Player2 => ThemeComponentType::Player2,
            Self::Player3 => ThemeComponentType::Player3,
            Self::Player4 => ThemeComponentType::Player4,
            Self::Player5 => ThemeComponentType::Player5,
            Self::Player6 => ThemeComponentType::Player6,
            Self::Player7 => ThemeComponentType::Player7,
            Self::Player8 => ThemeComponentType::Player8,
            Self::Player9 => ThemeComponentType::Player9,
            Self::Player10 => ThemeComponentType::Player10,
        }
    }

    pub fn label(&self) -> (s: &'static str)
        ensures
            s@ == element_label(*self),
    {
        match self {
            Self::TabSelected => "Tab (Selected)",
            Self::TabUnselected => "Tab (Unselected)",
            Self::TextUnselected => "Text (Unselected)",
            Self::PaneSelected => "Pane (Selected)",
            Self::TextSelected => "Text (Selected)",
            Self::PaneHighlight => "Pane (Highlight)",
            Self::PaneUnselected => "Pane (Unselected)",
            Self::TableTitle => "Table Title",
            Self::TableCellSelected => "Table Cell (Selected)",
            Self::TableCellUnselected => "Table Cell (Unselected)",
            Self::ListSelected => "List (Selected)",
            Self::ListUnselected => "List (Unselected)",
            Self::ExitSuccess => "Exit (Success)",
            Self::ExitError => "Exit (Error)",
            Self::Player1 => "Player 1",
            Self::Player2 => "Player 2",
            Self::Player3 => "Player 3",
            Self::Player4 => "Player 4",
            Self::Player5 => "Player 5",
            Self::Player6 => "Player 6",
            Self::Player7 => "Player 7",
            Self::Player8 => "Player 8",
            Self::Player9 => "Player 9",
            Self::Player10 => "Player 10",
        }
    }
}

/// What the self-update worker reports back.
#[derive(Debug)]
pub enum UpdateMsg {
    /// The newest release tag, `None` when this build is the newest.
    VersionChecked(Result<Option<String>, String>),
    UpdateComplete(Result<(), String>),
}

/// An update report as a plain value.
pub enum UpdateMsgView {
    VersionChecked(Result<Option<Seq<char>>, Seq<char>>),
    UpdateComplete(Result<(), Seq<char>>),
}

impl View for UpdateMsg {
    type V = UpdateMsgView;

    open spec fn view(&self) -> UpdateMsgView {
        match self {
            UpdateMsg::VersionChecked(Ok(Some(t))) => UpdateMsgView::VersionChecked(Ok(Some(t@))),
            UpdateMsg::VersionChecked(Ok(None)) => UpdateMsgView::VersionChecked(Ok(None)),
            UpdateMsg::VersionChecked(Err(e)) => UpdateMsgView::VersionChecked(Err(e@)),
            UpdateMsg::UpdateComplete(Ok(())) => UpdateMsgView::UpdateComplete(Ok(())),
            UpdateMsg::UpdateComplete(Err(e)) => UpdateMsgView::UpdateComplete(Err(e@)),
        }
    }
}

/// What a look at the update channel found.
#[derive(Debug)]
pub enum UpdatePoll {
    Received(UpdateMsg),
    Empty,
    Disconnected,
}

/// `std::time::Instant`, carried through opaquely.
#[verifier::external_type_specification]
#[verifier::external_body]
pub struct ExInstant(std::time::Instant);

/// `std::sync::mpsc::Receiver`, carried through opaquely.
#[verifier::external_type_specification]
#[verifier::external_body]
#[verifier::reject_recursive_types(T)]
pub struct ExReceiver<T>(std::sync::mpsc::Receiver<T>);

/// `Instant::now()`: the current time. Nothing is stated of the value.
#[verifier::external_body]
fn instant_now() -> std::time::Instant {
    std::time::Instant::now()
}

/// `Instant::elapsed`: the time passed since `start`. Nothing is stated of
/// the value, which depends on the clock.
#[verifier::external_body]
fn time_since(start: &std::time::Instant) -> std::time::Duration {
    start.elapsed()
}

/// `Duration::as_millis`: a duration in whole milliseconds. Nothing is
/// stated of the value.
#[verifier::external_body]
fn whole_millis(d: &std::time::Duration) -> u128 {
    d.as_millis()
}

/// `Receiver::try_recv`, with its error told apart by variant. Nothing is
/// stated of the outcome, which depends on the worker thread.
#[verifier::external_body]
fn try_recv_update(rx: &std::sync::mpsc::Receiver<UpdateMsg>) -> UpdatePoll {
    match rx.try_recv() {
        Ok(m) => UpdatePoll::Received(m),
        Err(std::sync::mpsc::TryRecvError::Empty) => UpdatePoll::Empty,
        Err(std::sync::mpsc::TryRecvError::Disconnected) => UpdatePoll::Disconnected,
    }
}

/// What happens after the theme list has been read again.
#[derive(Debug, Clone, Copy, PartialEq, Eq, Structural)]
pub enum AfterRefresh {
    /// Nothing more.
    Stay,
    /// Back to the preview.
    ToPreview,
    /// Back to the theme loader.
    ToLoad,
    /// Back to the theme loader, keeping the selection inside the list.
    ToLoadClamped,
    /// Go on opening the theme loader.
    OpenDialog,
}

/// The rest of an operation that waits for outside work (disk, the theme
/// files) to finish.
#[derive(Debug)]
pub enum Pending {
    Idle,
    /// A save of the current theme; then, when `then_refresh`, the theme
    /// list is read again and the preview shown.
    Save { then_refresh: bool },
    /// Writing the current theme to the Zellij configuration; then, when
    /// `then_refresh`, the theme list is read again and the preview shown.
    Apply { then_refresh: bool },
    /// Writing the theme chosen in the loader, named `name`, to the Zellij
    /// configuration.
    ApplySelected { name: String },
    /// Reading the list of saved themes.
    Refresh { then: AfterRefresh },
    /// Loading every listed theme for its swatch.
    Swatches,
    /// Loading the theme selected when the loader opens.
    DialogPreview,
    /// Loading the theme selected in the loader, to preview it.
    PreviewLoad,
    /// Loading the theme chosen in the loader, named `name`.
    LoadSelected { name: String },
    /// Renaming a saved theme to `new_name`.
    Rename { new_name: String },
    /// Deleting the saved theme `name`.
    Delete { name: String },
}

/// A waiting operation as a plain value.
pub enum PendingView {
    Idle,
    Save { then_refresh: bool },
    Apply { then_refresh: bool },
    ApplySelected { name: Seq<char> },
    Refresh { then: AfterRefresh },
    Swatches,
    DialogPreview,
    PreviewLoad,
    LoadSelected { name: Seq<char> },
    Rename { new_name: Seq<char> },
    Delete { name: Seq<char> },
}

impl View for Pending {
    type V = PendingView;

    open spec fn view(&self) -> PendingView {
        match self {
            Pending::Idle => PendingView::Idle,
            Pending::Save { then_refresh } => PendingView::Save { then_refresh: *then_refresh },
            Pending::Apply { then_refresh } => PendingView::Apply { then_refresh: *then_refresh },
            Pending::ApplySelected { name } => PendingView::ApplySelected { name: name@ },
            Pending::Refresh { then } => PendingView::Refresh { then: *then },
            Pending::Swatches => PendingView::Swatches,
            Pending::DialogPreview => PendingView::DialogPreview,
            Pending::PreviewLoad => PendingView::PreviewLoad,
            Pending::LoadSelected { name } => PendingView::LoadSelected { name: name@ },
            Pending::Rename { new_name } => PendingView::Rename { new_name: new_name@ },
            Pending::Delete { name } => PendingView::Delete { name: name@ },
        }
    }
}

/// Outside work that the editor asks its host to do next. The host does it
/// and hands the result back through the matching `resume_*` method.
#[derive(Debug)]
pub enum Effect {
    /// Nothing to do.
    Idle,
    /// Leave the program.
    Quit,
    /// Save the current theme to its file; answer with `resume_done`.
    SaveTheme,
    /// Write the current theme into the Zellij configuration; answer with
    /// `resume_done`.
    ApplyTheme,
    /// List the saved theme names and the built-in ones; answer with
    /// `resume_listed`.
    ListThemes,
    /// Load one theme; answer with `resume_loaded`.
    LoadTheme(ThemeEntry),
    /// Load each theme of the list; answer with `resume_swatches`.
    LoadThemes(Vec<ThemeEntry>),
    /// Rename the saved theme (old name, new name); answer with `resume_done`.
    RenameTheme(String, String),
    /// Delete the saved theme; answer with `resume_done`.
    DeleteTheme(String),
    /// Download and install the release with this tag in the background,
    /// and hand the channel it reports on to `attach_update_channel`.
    Download(String),
    /// The key belongs to the color editor.
    ColorPickerKey,
    /// Start the color editor afresh on this color, keeping its mode.
    EditColor(RgbColor),
}

/// A request for outside work as a plain value.
pub enum EffectView {
    Idle,
    Quit,
    SaveTheme,
    ApplyTheme,
    ListThemes,
    LoadTheme(EntryView),
    LoadThemes(Seq<EntryView>),
    RenameTheme(Seq<char>, Seq<char>),
    DeleteTheme(Seq<char>),
    Download(Seq<char>),
    ColorPickerKey,
    EditColor(RgbColor),
}

/// The loader entries as plain values.
pub open spec fn entries_view(v: Seq<ThemeEntry>) -> Seq<EntryView> {
    v.map_values(|e: ThemeEntry| e@)
}

impl View for Effect {
    type V = EffectView;

    open spec fn view(&self) -> EffectView {
        match self {
            Effect::Idle => EffectView::Idle,
            Effect::Quit => EffectView::Quit,
            Effect::SaveTheme => EffectView::SaveTheme,
            Effect::ApplyTheme => EffectView::ApplyTheme,
            Effect::ListThemes => EffectView::ListThemes,
            Effect::LoadTheme(e) => EffectView::LoadTheme(e@),
            Effect::LoadThemes(v) => EffectView::LoadThemes(entries_view(v@)),
            Effect::RenameTheme(a, b) => EffectView::RenameTheme(a@, b@),
            Effect::DeleteTheme(a) => EffectView::DeleteTheme(a@),
            Effect::Download(a) => EffectView::Download(a@),
            Effect::ColorPickerKey => EffectView::ColorPickerKey,
            Effect::EditColor(c) => EffectView::EditColor(*c),
        }
    }
}

/// The whole editor state.
pub struct App {
    pub theme: Theme,
    pub selected_group: PreviewGroup,
    pub selected_element: PreviewElement,
    pub selected_attribute: PreviewAttribute,
    pub message: Option<String>,
    pub input_mode: InputMode,
    /// The component as it was when the color picker opened.
    pub original_component: Option<ThemeComponent>,
    pub theme_name_input: String,
    pub all_themes: Vec<ThemeEntry>,
    pub loadable_themes: Vec<ThemeEntry>,
    pub theme_filter: ThemeFilter,
    pub selected_theme_index: usize,
    pub dirty: bool,
    /// The theme as it was when the loader opened.
    pub original_theme: Option<Theme>,
    /// Four colors to show beside each listed theme, by theme name.
    pub theme_swatches: Vec<(String, [RgbColor; 4])>,
    pub theme_search_query: String,
    pub search_focused: bool,
    pub help_scroll: u16,
    pub clipboard_color: Option<RgbColor>,
    pub undo_stack: Vec<(PreviewElement, PreviewAttribute, RgbColor)>,
    /// The loader entry that a rename or delete acts on.
    pub loader_action_index: usize,
    pub field_search_query: String,
    pub field_search_index: usize,
    /// When the selection last started to flash.
    pub flash_start: Option<std::time::Instant>,
    pub flash_ticks: u8,
    pub update_status: UpdateStatus,
    pub update_rx: Option<std::sync::mpsc::Receiver<UpdateMsg>>,
    pub restart_after_exit: bool,
    /// The rest of an operation waiting for outside work.
    pub pending: Pending,
}

/// The editor state as plain values.
pub struct AppView {
    pub theme: ThemeView,
    pub selected_group: PreviewGroup,
    pub selected_element: PreviewElement,
    pub selected_attribute: PreviewAttribute,
    pub message: Option<Seq<char>>,
    pub input_mode: InputMode,
    pub original_component: Option<ThemeComponent>,
    pub theme_name_input: Seq<char>,
    pub all_themes: Seq<EntryView>,
    pub loadable_themes: Seq<EntryView>,
    pub theme_filter: ThemeFilter,
    pub selected_theme_index: usize,
    pub dirty: bool,
    pub original_theme: Option<ThemeView>,
    pub theme_swatches: Seq<(Seq<char>, Seq<RgbColor>)>,
    pub theme_search_query: Seq<char>,
    pub search_focused: bool,
    pub help_scroll: u16,
    pub clipboard_color: Option<RgbColor>,
    pub undo_stack: Seq<(PreviewElement, PreviewAttribute, RgbColor)>,
    pub loader_action_index: usize,
    pub field_search_query: Seq<char>,
    pub field_search_index: usize,
    pub flash_start: Option<std::time::Instant>,
    pub flash_ticks: u8,
    pub update_status: StatusView,
    pub update_rx: Option<std::sync::mpsc::Receiver<UpdateMsg>>,
    pub restart_after_exit: bool,
    pub pending: PendingView,
}

/// An optional string as an optional sequence of characters.
pub open spec fn opt_chars(o: Option<String>) -> Option<Seq<char>> {
    match o {
        Some(s) => Some(s@),
        None => None,
    }
}

impl View for App {
    type V = AppView;

    open spec fn view(&self) -> AppView {
        AppView {
            theme: self.theme@,
            selected_group: self.selected_group,
            selected_element: self.selected_element,
            selected_attribute: self.selected_attribute,
            message: opt_chars(self.message),
            input_mode: self.input_mode,
            original_component: self.original_component,
            theme_name_input: self.theme_name_input@,
            all_themes: entries_view(self.all_themes@),
            loadable_themes: entries_view(self.loadable_themes@),
            theme_filter: self.theme_filter,
            selected_theme_index: self.selected_theme_index,
            dirty: self.dirty,
            original_theme: match self.original_theme {
                Some(t) => Some(t@),
                None => None,
            },
            theme_swatches: self.theme_swatches@.map_values(
                |p: (String, [RgbColor; 4])| (p.0@, p.1@),
            ),
            theme_search_query: self.theme_search_query@,
            search_focused: self.search_focused,
            help_scroll: self.help_scroll,
            clipboard_color: self.clipboard_color,
            undo_stack: self.undo_stack@,
            loader_action_index: self.loader_action_index,
            field_search_query: self.field_search_query@,
            field_search_index: self.field_search_index,
            flash_start: self.flash_start,
            flash_ticks: self.flash_ticks,
            update_status: self.update_status@,
            update_rx: self.update_rx,
            restart_after_exit: self.restart_after_exit,
            pending: self.pending@,
        }
    }
}

/// The theme sets the component of every preview element.
pub open spec fn preview_complete(t: ThemeView) -> bool {
    forall|e: PreviewElement| #[trigger] t.comps.contains_key(element_component(e))
}

/// The state right after start-up.
pub open spec fn initial_view() -> AppView {
    AppView {
        theme: ThemeView { name: "default"@, comps: crate::theme::default_components() },
        selected_group: PreviewGroup::TabBar,
        selected_element: PreviewElement::TabSelected,
        selected_attribute: PreviewAttribute::Base,
        message: None,
        input_mode: InputMode::Preview,
        original_component: None,
        theme_name_input: "default"@,
        all_themes: Seq::empty(),
        loadable_themes: Seq::empty(),
        theme_filter: ThemeFilter::All,
        selected_theme_index: 0,
        dirty: false,
        original_theme: None,
        theme_swatches: Seq::empty(),
        theme_search_query: Seq::empty(),
        search_focused: false,
        help_scroll: 0,
        clipboard_color: None,
        undo_stack: Seq::empty(),
        loader_action_index: 0,
        field_search_query: Seq::empty(),
        field_search_index: 0,
        flash_start: None,
        flash_ticks: 0,
        update_status: StatusView::Idle,
        update_rx: None,
        restart_after_exit: false,
        pending: PendingView::Idle,
    }
}

/// Moves the selection to element `e`; single-color elements (pane
/// borders, multiplayer colors) have only a foreground, so selecting one
/// selects it. The selection starts to flash
/// at `at`.
pub open spec fn select_element_view(v: AppView, e: PreviewElement, at: Option<std::time::Instant>) -> AppView {
    AppView {
        selected_element: e,
        selected_group: element_group(e),
        selected_attribute: if element_single_color(e) {
            PreviewAttribute::Base
        } else {
            v.selected_attribute
        },
        flash_start: at,
        flash_ticks: 6,
        ..v
    }
}

/// The element before `e` in sidebar order, wrapping around.
pub open spec fn prev_in_order(e: PreviewElement) -> PreviewElement {
    element_order()[if element_index(e) == 0 { 23 } else { element_index(e) - 1 }]
}

/// The element after `e` in sidebar order, wrapping around.
pub open spec fn next_in_order(e: PreviewElement) -> PreviewElement {
    element_order()[(element_index(e) + 1) % 24]
}

/// Selects the first element of group `g`, flashing from `at`; when that
/// element has a single color, its foreground is selected.
pub open spec fn select_group_view(v: AppView, g: PreviewGroup, at: Option<std::time::Instant>) -> AppView {
    AppView {
        selected_group: g,
        selected_element: group_fields(g)[0],
        selected_attribute: if element_single_color(group_fields(g)[0]) {
            PreviewAttribute::Base
        } else {
            v.selected_attribute
        },
        flash_start: at,
        flash_ticks: 6,
        ..v
    }
}

/// Whether the selection highlight is hidden, `elapsed_ms` milliseconds
/// after a flash of `ticks` 100 ms ticks started: off on even ticks until
/// the flash is over.
pub open spec fn flash_off(elapsed_ms: u128, ticks: u8) -> bool {
    let tick = elapsed_ms / 100;
    tick < ticks && tick % 2 == 0
}

/// Whether the selection highlight is hidden `elapsed_ms` milliseconds after
/// a flash of `ticks` ticks started.
pub fn flash_off_at(elapsed_ms: u128, ticks: u8) -> (off: bool)
    ensures
        off == flash_off(elapsed_ms, ticks),
{
    let tick: u128 = elapsed_ms / 100;
    if tick >= ticks as u128 {
        return false;
    }
    tick % 2 == 0
}

impl Default for App {
    fn default() -> (a: Self)
        ensures
            a.wf(),
            a@ == (AppView { theme_name_input: "default"@, ..initial_view() }),
    {
        let first_element = PreviewElement::TabSelected;
        let a = Self {
            theme: Theme::default(),
            selected_group: first_element.group(),
            selected_element: first_element,
            selected_attribute: PreviewAttribute::Base,
            message: None,
            input_mode: InputMode::Preview,
            original_component: None,
            theme_name_input: owned("default"),
            all_themes: Vec::new(),
            loadable_themes: Vec::new(),
            theme_filter: ThemeFilter::All,
            selected_theme_index: 0,
            dirty: false,
            original_theme: None,
            theme_swatches: Vec::new(),
            theme_search_query: String::new(),
            search_focused: false,
            help_scroll: 0,
            clipboard_color: None,
            undo_stack: Vec::new(),
            loader_action_index: 0,
            field_search_query: String::new(),
            field_search_index: 0,
            flash_start: None,
            flash_ticks: 0,
            update_status: UpdateStatus::Idle,
            update_rx: None,
            restart_after_exit: false,
            pending: Pending::Idle,
        };
        assert(a@.all_themes =~= Seq::<EntryView>::empty());
        assert(a@.loadable_themes =~= Seq::<EntryView>::empty());
        assert(a@.theme_swatches =~= Seq::<(Seq<char>, Seq<RgbColor>)>::empty());
        a
    }
}

impl App {
    /// The theme and the theme the loader keeps are each complete for the
    /// preview and hold one slot per component type.
    pub open spec fn wf(&self) -> bool {
        &&& self.theme.wf()
        &&& preview_complete(self.theme@)
        &&& (self.original_theme matches Some(t) ==> t.wf() && preview_complete(t@))
        &&& names_unique(self@.theme_swatches)
    }

    pub fn new() -> (a: Self)
        ensures
            a.wf(),
            a@ == initial_view(),
    {
        let mut app = Self::default();
        app.sync_theme_name_input();
        app
    }

    /// Puts the theme's name in the name field.
    pub fn sync_theme_name_input(&mut self)
        ensures
            final(self)@ == (AppView { theme_name_input: old(self)@.theme.name, ..old(self)@ }),
            final(self).wf() == old(self).wf(),
    {
        self.theme_name_input = self.theme.name.clone();
    }

    /// Starts (or restarts) the selection flash: three on-off cycles.
    fn flash_selection(&mut self)
        ensures
            final(self)@ == (AppView { flash_start: final(self)@.flash_start, flash_ticks: 6, ..old(self)@ }),
            final(self)@.flash_start is Some,
            final(self).wf() == old(self).wf(),
    {
        self.flash_start = Some(instant_now());
        self.flash_ticks = 6;
    }

    /// Whether the selection highlight is hidden now (an off phase of the
    /// flash). Never while no flash was started; depends on the clock
    /// otherwise, as [`flash_off_at`] states.
    pub fn is_flashing_off(&self) -> (off: bool)
        ensures
            self.flash_start is None ==> !off,
            off ==> self.flash_ticks > 0,
    {
        match &self.flash_start {
            None => false,
            Some(start) => {
                let passed = time_since(start);
                flash_off_at(whole_millis(&passed), self.flash_ticks)
            },
        }
    }

    /// Position of the selected element in sidebar order.
    fn selected_position(&self) -> (i: usize)
        ensures
            i == element_index(self.selected_element),
    {
        let all = PreviewElement::all();
        let mut i: usize = 0;
        while i < all.len()
            invariant
                all@ == element_order(),
                0 <= i <= 24,
                forall|j: int| 0 <= j < i ==> all@[j] != self.selected_element,
            decreases 24 - i,
        {
            if all[i] == self.selected_element {
                return i;
            }
            i = i + 1;
        }
        proof {
            assert(all@[element_index(self.selected_element)] == self.selected_element);
        }
        0
    }

    /// Moves to the previous element across all groups, wrapping around.
    pub fn prev_element(&mut self)
        ensures
            final(self)@ == select_element_view(
                old(self)@,
                prev_in_order(old(self)@.selected_element),
                final(self)@.flash_start,
            ),
            final(self)@.flash_start is Some,
            final(self).wf() == old(self).wf(),
    {
        let all = PreviewElement::all();
        let idx = self.selected_position();
        let next_idx = if idx == 0 { all.len() - 1 } else { idx - 1 };
        self.selected_element = all[next_idx];
        self.selected_group = all[next_idx].group();
        if self.selected_element.is_single_color() {
            self.selected_attribute = PreviewAttribute::Base;
        }
        self.flash_selection();
    }

    /// Moves to the next element across all groups, wrapping around.
    pub fn next_element(&mut self)
        ensures
            final(self)@ == select_element_view(
                old(self)@,
                next_in_order(old(self)@.selected_element),
                final(self)@.flash_start,
            ),
            final(self)@.flash_start is Some,
            final(self).wf() == old(self).wf(),
    {
        let all = PreviewElement::all();
        let idx = self.selected_position();
        let next_idx = (idx + 1) % all.len();
        self.selected_element = all[next_idx];
        self.selected_group = all[next_idx].group();
        if self.selected_element.is_single_color() {
            self.selected_attribute = PreviewAttribute::Base;
        }
        self.flash_selection();
    }

    /// Jumps to group `n` (counting from 0); nothing happens past the last group.
    pub fn select_group_index(&mut self, n: usize)
        ensures
            n >= 5 ==> final(self)@ == old(self)@,
            n < 5 ==> final(self)@ == select_group_view(old(self)@, group_order()[n as int], final(self)@.flash_start)
                && final(self)@.flash_start is Some,
            final(self).wf() == old(self).wf(),
    {
        let all = PreviewGroup::all();
        if n < all.len() {
            let g = all[n];
            self.select_group(g);
        }
    }

    /// Selects the first element of `group`.
    pub fn select_group(&mut self, group: PreviewGroup)
        ensures
            final(self)@ == select_group_view(old(self)@, group, final(self)@.flash_start),
            final(self)@.flash_start is Some,
            final(self).wf() == old(self).wf(),
    {
        self.selected_group = group;
        self.selected_element = group.fields()[0];
        if self.selected_element.is_single_color() {
            self.selected_attribute = PreviewAttribute::Base;
        }
        self.flash_selection();
    }
}

/// The element's label matches the (lowercased) field search query
/// fuzzily: the query is empty or its characters occur in the lowercased
/// label in order.
pub open spec fn field_matches(e: PreviewElement, q: Seq<char>) -> bool {
    q.len() == 0 || is_subsequence(q, ascii_lower_seq(element_label(e)))
}

/// The elements of `s` that match `q`, in order.
pub open spec fn filter_fields(s: Seq<PreviewElement>, q: Seq<char>) -> Seq<PreviewElement>
    decreases s.len(),
{
    if s.len() == 0 {
        Seq::empty()
    } else {
        let rest = filter_fields(s.drop_last(), q);
        if field_matches(s.last(), q) {
            rest.push(s.last())
        } else {
            rest
        }
    }
}

pub(crate) proof fn lemma_filter_fields_len(s: Seq<PreviewElement>, q: Seq<char>)
    ensures
        filter_fields(s, q).len() <= s.len(),
    decreases s.len(),
{
    if s.len() > 0 {
        lemma_filter_fields_len(s.drop_last(), q);
    }
}

/// The elements the field search lists for the state `v`.
pub open spec fn field_search_results(v: AppView) -> Seq<PreviewElement> {
    filter_fields(element_order(), ascii_lower_seq(v.field_search_query))
}

/// A character that may go into a theme name as typed.
pub open spec fn name_char(c: char) -> bool {
    is_ascii_alnum(c) || c == '-' || c == '_' || c == ' '
}

/// The color of attribute `a` in component `c`.
pub open spec fn attr_color(c: ThemeComponent, a: PreviewAttribute) -> RgbColor {
    match a {
        PreviewAttribute::Base => c.base,
        PreviewAttribute::Background => c.background,
    }
}

/// Component `c` with attribute `a` set to `color`.
pub open spec fn with_attr_color(c: ThemeComponent, a: PreviewAttribute, color: RgbColor) -> ThemeComponent {
    match a {
        PreviewAttribute::Base => ThemeComponent { base: color, ..c },
        PreviewAttribute::Background => ThemeComponent { background: color, ..c },
    }
}

/// The color shown for attribute `a` of the selected element.
pub open spec fn selected_color(v: AppView, a: PreviewAttribute) -> RgbColor {
    attr_color(v.theme.comps[element_component(v.selected_element)], a)
}

/// Sets attribute `a` of the selected element's component to `color`
/// (starting from the all-black component where the theme has none), and
/// marks the theme as changed.
pub open spec fn set_color_view(v: AppView, a: PreviewAttribute, color: RgbColor) -> AppView {
    let ct = element_component(v.selected_element);
    let before = if v.theme.comps.contains_key(ct) {
        v.theme.comps[ct]
    } else {
        black_component()
    };
    AppView {
        theme: ThemeView { comps: v.theme.comps.insert(ct, with_attr_color(before, a, color)), ..v.theme },
        dirty: true,
        ..v
    }
}

/// The state after [`App::open_field_search`].
pub open spec fn open_field_search_view(v: AppView) -> AppView {
    AppView {
        field_search_query: Seq::empty(),
        field_search_index: 0,
        input_mode: InputMode::FieldSearch,
        message: None,
        ..v
    }
}

/// The state after [`App::push_field_search_char`].
pub open spec fn push_field_char_view(v: AppView, c: char) -> AppView {
    AppView {
        field_search_query: v.field_search_query.push(c),
        field_search_index: 0,
        ..v
    }
}

/// The state after [`App::pop_field_search_char`].
pub open spec fn pop_field_char_view(v: AppView) -> AppView {
    AppView {
        field_search_query: if v.field_search_query.len() > 0 {
            v.field_search_query.drop_last()
        } else {
            v.field_search_query
        },
        field_search_index: 0,
        ..v
    }
}

/// The state after [`App::move_field_search`].
pub open spec fn move_field_view(v: AppView, delta: i32) -> AppView {
    let len = field_search_results(v).len();
    let cur = if v.field_search_index < len {
        v.field_search_index as int
    } else {
        len - 1
    };
    (AppView {
        field_search_index: if len == 0 {
            0
        } else {
            ((cur + delta) % (len as int)) as usize
        },
        ..v
    })
}

/// The state after [`App::commit_field_search`].
pub open spec fn commit_field_view(v: AppView) -> AppView {
    let matches = field_search_results(v);
    let i = v.field_search_index;
    if i < matches.len() {
        let f = matches[i as int];
        (AppView {
            selected_element: f,
            selected_group: element_group(f),
            selected_attribute: if element_single_color(f) {
                PreviewAttribute::Base
            } else {
                v.selected_attribute
            },
            message: Some("→ "@ + element_label(f)),
            input_mode: InputMode::Preview,
            ..v
        })
    } else {
        (AppView { input_mode: InputMode::Preview, ..v })
    }
}

/// The state after [`App::cancel_field_search`].
pub open spec fn cancel_field_view(v: AppView) -> AppView {
    AppView { input_mode: InputMode::Preview, message: None, ..v }
}

/// The state after [`App::open_theme_name_input`].
pub open spec fn open_name_input_view(v: AppView) -> AppView {
    AppView {
        theme_name_input: v.theme.name,
        input_mode: InputMode::ThemeNameInput,
        message: Some("Enter a theme name, then press Enter to save"@),
        ..v
    }
}

/// The state after [`App::push_theme_name_char`].
pub open spec fn push_name_char_view(v: AppView, c: char) -> AppView {
    AppView {
        theme_name_input: if name_char(c) {
            v.theme_name_input.push(c)
        } else {
            v.theme_name_input
        },
        ..v
    }
}

/// The state after [`App::pop_theme_name_char`].
pub open spec fn pop_name_char_view(v: AppView) -> AppView {
    AppView {
        theme_name_input: if v.theme_name_input.len() > 0 {
            v.theme_name_input.drop_last()
        } else {
            v.theme_name_input
        },
        ..v
    }
}

/// The state after [`App::open_color_picker`].
pub open spec fn open_picker_view(v: AppView) -> AppView {
    AppView {
        original_component: Some(v.theme.comps[element_component(v.selected_element)]),
        input_mode: InputMode::ColorPicker,
        ..v
    }
}

/// The state after [`App::close_color_picker`]: with `save` the changes
/// are recorded for undo, otherwise the component is put back as it was
/// when the picker opened.
pub open spec fn close_picker_view(v: AppView, save: bool) -> AppView {
    let kept = if save {
        record_undo_view(v)
    } else {
        match v.original_component {
            Some(orig) => AppView {
                theme: ThemeView {
                    comps: v.theme.comps.insert(element_component(v.selected_element), orig),
                    ..v.theme
                },
                ..v
            },
            None => v,
        }
    };
    AppView { original_component: None, input_mode: InputMode::Preview, ..kept }
}

/// The state after [`App::yank_color`].
pub open spec fn yank_view(v: AppView) -> AppView {
    let c = selected_color(v, v.selected_attribute);
    (AppView {
        clipboard_color: Some(c),
        message: Some("Yanked "@ + hex_text(c)),
        ..v
    })
}

/// The state after [`App::paste_color`].
pub open spec fn paste_view(v: AppView) -> AppView {
    match v.clipboard_color {
        Some(c) => {
            let before = selected_color(v, v.selected_attribute);
            let v1 = AppView {
                undo_stack: push_undo_seq(
                    v.undo_stack,
                    (v.selected_element, v.selected_attribute, before),
                ),
                ..v
            };
            (AppView {
                message: Some("Pasted "@ + hex_text(c)),
                ..set_color_view(v1, v.selected_attribute, c)
            })
        },
        None => (AppView { message: Some("Nothing to paste"@), ..v }),
    }
}

/// The state and the request for outside work after [`App::set_theme_filter`].
pub open spec fn set_filter_view(v: AppView, filter: ThemeFilter) -> (AppView, EffectView) {
    let v1 = apply_filter_view(AppView {
        theme_filter: if v.theme_filter == filter {
            ThemeFilter::All
        } else {
            filter
        },
        ..v
    });
    preview_selected(AppView { selected_theme_index: 0, ..v1 })
}

/// The state and the request for outside work after [`App::move_theme_selection_up`].
pub open spec fn move_up_view(v: AppView) -> (AppView, EffectView) {
    preview_selected(AppView {
        selected_theme_index: index_up(
            v.selected_theme_index,
            v.loadable_themes.len(),
        ),
        ..v
    })
}

/// The state and the request for outside work after [`App::move_theme_selection_down`].
pub open spec fn move_down_view(v: AppView) -> (AppView, EffectView) {
    preview_selected(AppView {
        selected_theme_index: index_down(
            v.selected_theme_index,
            v.loadable_themes.len(),
        ),
        ..v
    })
}

/// The state and the request for outside work after [`App::move_theme_selection_to`].
pub open spec fn move_to_view(v: AppView, index: usize) -> (AppView, EffectView) {
    preview_selected(AppView { selected_theme_index: index, ..v })
}

/// The state after [`App::open_theme_load_dialog`].
pub open spec fn open_loader_view(v: AppView) -> AppView {
    AppView {
        theme_search_query: Seq::empty(),
        search_focused: false,
        theme_filter: ThemeFilter::All,
        original_theme: Some(v.theme),
        pending: PendingView::Refresh { then: AfterRefresh::OpenDialog },
        ..v
    }
}

/// The state and the request for outside work after [`App::load_selected_theme`].
pub open spec fn load_selected_view(v: AppView) -> (AppView, EffectView) {
    let i = v.selected_theme_index;
    if i < v.loadable_themes.len() {
        (
            AppView {
                pending: PendingView::LoadSelected { name: v.loadable_themes[i as int].name },
                ..v
            },
            EffectView::LoadTheme(v.loadable_themes[i as int]),
        )
    } else {
        (v, EffectView::Idle)
    }
}

/// The state and the request for outside work after [`App::apply_selected_theme`].
pub open spec fn apply_selected_view(v: AppView) -> (AppView, EffectView) {
    (
        AppView {
            theme_name_input: v.theme.name,
            original_theme: None,
            dirty: false,
            input_mode: InputMode::Preview,
            pending: PendingView::ApplySelected {
                name: entry_name_or_empty(v.loadable_themes, v.selected_theme_index),
            },
            ..v
        },
        EffectView::ApplyTheme,
    )
}

/// The state after [`App::cancel_theme_load`].
pub open spec fn cancel_load_view(v: AppView) -> AppView {
    let t = match v.original_theme {
        Some(t) => t,
        None => v.theme,
    };
    (AppView {
        theme: t,
        original_theme: None,
        theme_name_input: t.name,
        theme_search_query: Seq::empty(),
        search_focused: false,
        input_mode: InputMode::Preview,
        message: None,
        ..v
    })
}

/// The state after [`App::apply_theme_to_zellij`].
pub open spec fn apply_view(v: AppView) -> AppView {
    AppView {
        pending: PendingView::Apply { then_refresh: false },
        ..v
    }
}

/// The state and the request for outside work after [`App::save_theme_as_input_name`].
pub open spec fn save_as_view(v: AppView) -> (AppView, EffectView) {
    let n = normalized_name(v.theme_name_input);
    if n.len() == 0 {
        (
            AppView { message: Some("✗ Theme name must contain letters or numbers"@), ..v },
            EffectView::Idle,
        )
    } else {
        (
            AppView {
                theme: ThemeView { name: n, ..v.theme },
                theme_name_input: n,
                pending: PendingView::Save { then_refresh: true },
                ..v
            },
            EffectView::SaveTheme,
        )
    }
}

/// The state and the request for outside work after [`App::save_and_apply_theme_as_input_name`].
pub open spec fn save_apply_as_view(v: AppView) -> (AppView, EffectView) {
    let n = normalized_name(v.theme_name_input);
    if n.len() == 0 {
        (
            AppView { message: Some("✗ Theme name must contain letters or numbers"@), ..v },
            EffectView::Idle,
        )
    } else {
        (
            AppView {
                theme: ThemeView { name: n, ..v.theme },
                theme_name_input: n,
                pending: PendingView::Apply { then_refresh: true },
                ..v
            },
            EffectView::ApplyTheme,
        )
    }
}

/// The state after [`App::begin_rename_selected_theme`].
pub open spec fn begin_rename_view(v: AppView) -> AppView {
    let i = v.selected_theme_index;
    if i >= v.loadable_themes.len() || v.loadable_themes[i as int].builtin {
        (AppView { message: Some("Cannot rename built-in themes"@), ..v })
    } else {
        (AppView {
            loader_action_index: i,
            theme_name_input: v.loadable_themes[i as int].name,
            input_mode: InputMode::ThemeLoadRename,
            ..v
        })
    }
}

/// The state and the request for outside work after [`App::commit_rename_theme`].
pub open spec fn commit_rename_view(v: AppView) -> (AppView, EffectView) {
    let n = normalized_name(v.theme_name_input);
    if n.len() == 0 {
        (
            AppView { message: Some("✗ Invalid name"@), ..v },
            EffectView::Idle,
        )
    } else {
        (
            AppView { pending: PendingView::Rename { new_name: n }, ..v },
            EffectView::RenameTheme(
                entry_name_or_empty(v.loadable_themes, v.loader_action_index),
                n,
            ),
        )
    }
}

/// The state after [`App::begin_delete_selected_theme`].
pub open spec fn begin_delete_view(v: AppView) -> AppView {
    let i = v.selected_theme_index;
    if i >= v.loadable_themes.len() || v.loadable_themes[i as int].builtin {
        (AppView { message: Some("Cannot delete built-in themes"@), ..v })
    } else {
        (AppView {
            loader_action_index: i,
            message: Some(
                "Delete \""@ + v.loadable_themes[i as int].name
                    + "\"? y = confirm, n = cancel"@,
            ),
            input_mode: InputMode::ThemeLoadDeleteConfirm,
            ..v
        })
    }
}

/// The state and the request for outside work after [`App::confirm_delete_theme`].
pub open spec fn confirm_delete_view(v: AppView) -> (AppView, EffectView) {
    let name = entry_name_or_empty(v.loadable_themes, v.loader_action_index);
    (
        AppView { pending: PendingView::Delete { name }, ..v },
        EffectView::DeleteTheme(name),
    )
}

/// The state after [`App::defer_restart`].
pub open spec fn defer_restart_view(v: AppView) -> AppView {
    AppView {
        input_mode: InputMode::Preview,
        update_status: StatusView::Idle,
        message: None,
        ..v
    }
}

/// The state after [`App::confirm_restart`].
pub open spec fn confirm_restart_view(v: AppView) -> AppView {
    AppView {
        restart_after_exit: true,
        input_mode: InputMode::Preview,
        ..v
    }
}

/// Most entries the undo history keeps.
pub const UNDO_LIMIT: usize = 64;

/// The undo history after recording `x`: the oldest entry goes once there
/// are more than [`UNDO_LIMIT`].
pub open spec fn push_undo_seq(
    s: Seq<(PreviewElement, PreviewAttribute, RgbColor)>,
    x: (PreviewElement, PreviewAttribute, RgbColor),
) -> Seq<(PreviewElement, PreviewAttribute, RgbColor)> {
    let t = s.push(x);
    if t.len() > UNDO_LIMIT {
        t.drop_first()
    } else {
        t
    }
}

/// Records in the undo history what the color picker changed: for each of
/// foreground and background that differs from the component as it was when
/// the picker opened, the old color.
pub open spec fn record_undo_view(v: AppView) -> AppView {
    match v.original_component {
        None => v,
        Some(orig) => {
            let cur = v.theme.comps[element_component(v.selected_element)];
            let e = v.selected_element;
            let s1 = if cur.base != orig.base {
                push_undo_seq(v.undo_stack, (e, PreviewAttribute::Base, orig.base))
            } else {
                v.undo_stack
            };
            let s2 = if cur.background != orig.background {
                push_undo_seq(s1, (e, PreviewAttribute::Background, orig.background))
            } else {
                s1
            };
            AppView { undo_stack: s2, ..v }
        },
    }
}

/// Message after an undo that leaves `remaining` entries.
pub open spec fn undone_message(remaining: nat) -> Seq<char> {
    if remaining == 0 {
        "Undone"@
    } else {
        "Undone ("@ + decimal(remaining) + " more)"@
    }
}

/// Undoes the newest recorded change: selects its element and attribute and
/// puts the old color back.
pub open spec fn undo_view(v: AppView) -> AppView {
    if v.undo_stack.len() == 0 {
        AppView { message: Some("Nothing to undo"@), ..v }
    } else {
        let (e, a, c) = v.undo_stack.last();
        let v1 = AppView {
            undo_stack: v.undo_stack.drop_last(),
            selected_element: e,
            selected_attribute: a,
            ..v
        };
        AppView {
            message: Some(undone_message((v.undo_stack.len() - 1) as nat)),
            ..set_color_view(v1, a, c)
        }
    }
}

impl App {
    pub fn open_field_search(&mut self)
        ensures
            final(self)@ == open_field_search_view(old(self)@),
            final(self).wf() == old(self).wf(),
    {
        self.field_search_query = String::new();
        self.field_search_index = 0;
        self.input_mode = InputMode::FieldSearch;
        self.message = None;
    }

    /// Fields whose label matches the query (all of them while it is empty).
    pub fn filtered_fields(&self) -> (r: Vec<PreviewElement>)
        ensures
            r@ == field_search_results(self@),
            r@.len() <= 24,
    {
        let q = lower_chars(&chars_of(self.field_search_query.as_str()));
        let all = PreviewElement::all();
        let mut r: Vec<PreviewElement> = Vec::new();
        let mut i: usize = 0;
        while i < all.len()
            invariant
                all@ == element_order(),
                i <= 24,
                q@ == ascii_lower_seq(self@.field_search_query),
                r@ == filter_fields(element_order().take(i as int), q@),
            decreases 24 - i,
        {
            let f = all[i];
            let keep = if q.len() == 0 {
                true
            } else {
                let hay = lower_chars(&chars_of(f.label()));
                subsequence_chars(&hay, &q)
            };
            assert(element_order().take(i + 1).drop_last() =~= element_order().take(i as int));
            if keep {
                r.push(f);
            }
            i = i + 1;
        }
        assert(element_order().take(24) =~= element_order());
        proof {
            lemma_filter_fields_len(element_order(), q@);
        }
        r
    }

    pub fn push_field_search_char(&mut self, c: char)
        ensures
            final(self)@ == push_field_char_view(old(self)@, c),
            final(self).wf() == old(self).wf(),
    {
        push_char(&mut self.field_search_query, c);
        self.field_search_index = 0;
    }

    pub fn pop_field_search_char(&mut self)
        ensures
            final(self)@ == pop_field_char_view(old(self)@),
            final(self).wf() == old(self).wf(),
    {
        let _ = pop_char(&mut self.field_search_query);
        self.field_search_index = 0;
    }

    /// Moves the field search selection by `delta` within the results,
    /// wrapping around; the selection is first kept inside the results.
    pub fn move_field_search(&mut self, delta: i32)
        requires
            field_search_results(old(self)@).len() == 0 || (if old(self)@.field_search_index
                < field_search_results(old(self)@).len() {
                old(self)@.field_search_index as int
            } else {
                field_search_results(old(self)@).len() - 1
            }) + delta <= i32::MAX,
        ensures
            final(self)@ == move_field_view(old(self)@, delta),
            final(self).wf() == old(self).wf(),
    {
        let len = self.filtered_fields().len();
        if len == 0 {
            self.field_search_index = 0;
            return;
        }
        let cur: i32 = if self.field_search_index < len {
            self.field_search_index as i32
        } else {
            (len - 1) as i32
        };
        let sum: i32 = cur + delta;
        let m: i32 = len as i32;
        let r: i32 = sum.checked_rem_euclid(m).unwrap();
        self.field_search_index = r as usize;
    }

    /// Selects the highlighted search result, if any, and closes the search.
    pub fn commit_field_search(&mut self)
        ensures
            final(self)@ == commit_field_view(old(self)@),
            final(self).wf() == old(self).wf(),
    {
        let matches = self.filtered_fields();
        if self.field_search_index < matches.len() {
            let f = matches[self.field_search_index];
            self.selected_element = f;
            self.selected_group = f.group();
            if f.is_single_color() {
                self.selected_attribute = PreviewAttribute::Base;
            }
            let mut m = owned("→ ");
            push_str(&mut m, f.label());
            self.message = Some(m);
        }
        self.input_mode = InputMode::Preview;
    }

    pub fn cancel_field_search(&mut self)
        ensures
            final(self)@ == cancel_field_view(old(self)@),
            final(self).wf() == old(self).wf(),
    {
        self.input_mode = InputMode::Preview;
        self.message = None;
    }

    /// Opens the prompt for a theme name, starting from the theme's name.
    pub fn open_theme_name_input(&mut self)
        ensures
            final(self)@ == open_name_input_view(old(self)@),
            final(self).wf() == old(self).wf(),
    {
        self.sync_theme_name_input();
        self.input_mode = InputMode::ThemeNameInput;
        self.message = Some(owned("Enter a theme name, then press Enter to save"));
    }

    /// Types a character into the theme name; only letters, digits, `-`,
    /// `_` and space are taken.
    pub fn push_theme_name_char(&mut self, c: char)
        ensures
            final(self)@ == push_name_char_view(old(self)@, c),
            final(self).wf() == old(self).wf(),
    {
        if char_is_ascii_alnum(c) || c == '-' || c == '_' || c == ' ' {
            push_char(&mut self.theme_name_input, c);
        }
    }

    pub fn pop_theme_name_char(&mut self)
        ensures
            final(self)@ == pop_name_char_view(old(self)@),
            final(self).wf() == old(self).wf(),
    {
        let _ = pop_char(&mut self.theme_name_input);
    }

    /// The color of attribute `attr` of the selected element.
    pub fn get_color_by_attr(&self, attr: PreviewAttribute) -> (c: RgbColor)
        requires
            self.wf(),
        ensures
            c == selected_color(self@, attr),
    {
        let component = self.theme.get(self.selected_element.component_type());
        match attr {
            PreviewAttribute::Base => component.base,
            PreviewAttribute::Background => component.background,
        }
    }

    /// The color being edited.
    pub fn get_color(&self) -> (c: RgbColor)
        requires
            self.wf(),
        ensures
            c == selected_color(self@, self@.selected_attribute),
    {
        self.get_color_by_attr(self.selected_attribute)
    }

    /// Sets attribute `attr` of the selected element to `color`.
    pub fn set_color_by_attr(&mut self, attr: PreviewAttribute, color: RgbColor)
        requires
            old(self).wf(),
        ensures
            final(self).wf(),
            final(self)@ == set_color_view(old(self)@, attr, color),
    {
        let comp_type = self.selected_element.component_type();
        let component = self.theme.get_mut(comp_type);
        match attr {
            PreviewAttribute::Base => component.base = color,
            PreviewAttribute::Background => component.background = color,
        }
        self.dirty = true;
        proof {
            let v = final(self)@;
            assert(v.theme.comps =~= set_color_view(old(self)@, attr, color).theme.comps);
        }
    }

    /// Sets the color being edited to `color`, the color picker's current
    /// color.
    pub fn apply_current_color(&mut self, color: RgbColor)
        requires
            old(self).wf(),
        ensures
            final(self).wf(),
            final(self)@ == set_color_view(old(self)@, old(self)@.selected_attribute, color),
    {
        let attr = self.selected_attribute;
        self.set_color_by_attr(attr, color);
    }

    /// Opens the color picker on the color being edited, remembering the
    /// component as it is; returns the color the picker starts from.
    pub fn open_color_picker(&mut self) -> (c: RgbColor)
        requires
            old(self).wf(),
        ensures
            final(self).wf(),
            c == selected_color(old(self)@, old(self)@.selected_attribute),
            final(self)@ == open_picker_view(old(self)@),
    {
        let comp_type = self.selected_element.component_type();
        self.original_component = Some(*self.theme.get(comp_type));
        let color = self.get_color();
        self.input_mode = InputMode::ColorPicker;
        color
    }

    /// Closes the color picker. With `save` the changes are recorded for
    /// undo; otherwise the component is put back as it was.
    pub fn close_color_picker(&mut self, save: bool)
        requires
            old(self).wf(),
        ensures
            final(self).wf(),
            final(self)@ == close_picker_view(old(self)@, save),
    {
        if save {
            self.record_undo();
        } else {
            if let Some(original) = self.original_component.take() {
                let comp_type = self.selected_element.component_type();
                let component = self.theme.get_mut(comp_type);
                *component = original;
            }
        }
        self.original_component = None;
        self.input_mode = InputMode::Preview;
    }

    /// Edits the other attribute; returns its color, which the color picker
    /// starts from.
    pub fn switch_editing_attribute(&mut self) -> (c: RgbColor)
        requires
            old(self).wf(),
        ensures
            final(self).wf(),
            final(self)@ == (AppView {
                selected_attribute: other_attribute(old(self)@.selected_attribute),
                ..old(self)@
            }),
            c == selected_color(final(self)@, final(self)@.selected_attribute),
    {
        self.selected_attribute.cycle();
        let attr = self.selected_attribute;
        self.get_color_by_attr(attr)
    }

    /// Copies the color being edited.
    pub fn yank_color(&mut self)
        requires
            old(self).wf(),
        ensures
            final(self).wf(),
            final(self)@ == yank_view(old(self)@),
    {
        let c = self.get_color_by_attr(self.selected_attribute);
        self.clipboard_color = Some(c);
        let mut m = owned("Yanked ");
        let h = c.to_hex();
        push_str(&mut m, h.as_str());
        self.message = Some(m);
    }

    /// Sets the color being edited to the copied color, recording the old
    /// one for undo.
    pub fn paste_color(&mut self)
        requires
            old(self).wf(),
        ensures
            final(self).wf(),
            final(self)@ == paste_view(old(self)@),
    {
        if let Some(c) = self.clipboard_color {
            let before = self.get_color_by_attr(self.selected_attribute);
            self.push_undo(self.selected_element, self.selected_attribute, before);
            self.set_color_by_attr(self.selected_attribute, c);
            let mut m = owned("Pasted ");
            let h = c.to_hex();
            push_str(&mut m, h.as_str());
            self.message = Some(m);
        } else {
            self.message = Some(owned("Nothing to paste"));
        }
    }

    fn push_undo(&mut self, element: PreviewElement, attr: PreviewAttribute, color: RgbColor)
        ensures
            final(self)@ == (AppView {
                undo_stack: push_undo_seq(old(self)@.undo_stack, (element, attr, color)),
                ..old(self)@
            }),
            final(self).wf() == old(self).wf(),
    {
        self.undo_stack.push((element, attr, color));
        if self.undo_stack.len() > UNDO_LIMIT {
            self.undo_stack.remove(0);
            assert(self.undo_stack@ =~= push_undo_seq(old(self)@.undo_stack, (element, attr, color)));
        }
    }

    /// Records, for undo, the colors that the color picker changed.
    pub fn record_undo(&mut self)
        requires
            old(self).wf(),
        ensures
            final(self).wf(),
            final(self)@ == record_undo_view(old(self)@),
    {
        if let Some(orig) = self.original_component {
            let comp_type = self.selected_element.component_type();
            let current = self.theme.get(comp_type);
            let base_changed = current.base != orig.base;
            let bg_changed = current.background != orig.background;
            let element = self.selected_element;
            if base_changed {
                self.push_undo(element, PreviewAttribute::Base, orig.base);
            }
            if bg_changed {
                self.push_undo(element, PreviewAttribute::Background, orig.background);
            }
        }
    }

    /// Undoes the newest recorded color change.
    pub fn undo_color(&mut self)
        requires
            old(self).wf(),
        ensures
            final(self).wf(),
            final(self)@ == undo_view(old(self)@),
    {
        if let Some((element, attr, color)) = self.undo_stack.pop() {
            self.selected_element = element;
            self.selected_attribute = attr;
            self.set_color_by_attr(attr, color);
            let remaining = self.undo_stack.len();
            self.message = Some(
                if remaining == 0 {
                    owned("Undone")
                } else {
                    let mut m = owned("Undone (");
                    push_decimal(&mut m, remaining);
                    push_str(&mut m, " more)");
                    m
                },
            );
        } else {
            self.message = Some(owned("Nothing to undo"));
        }
    }
}

/// `s` without its leading `c` characters (`trim_start_matches(c)`).
pub open spec fn trim_leading(s: Seq<char>, c: char) -> Seq<char>
    decreases s.len(),
{
    if s.len() > 0 && s[0] == c {
        trim_leading(s.drop_first(), c)
    } else {
        s
    }
}

/// Whether the loader filter lets an entry through.
pub open spec fn filter_allows(f: ThemeFilter, builtin: bool) -> bool {
    match f {
        ThemeFilter::All => true,
        ThemeFilter::Builtin => builtin,
        ThemeFilter::Saved => !builtin,
    }
}

/// The loader lists an entry: the filter lets it through, and the query is
/// empty or a subsequence of the lowercased name.
pub open spec fn entry_shown(e: EntryView, f: ThemeFilter, q: Seq<char>) -> bool {
    filter_allows(f, e.builtin) && (q.len() == 0 || is_subsequence(q, ascii_lower_seq(e.name)))
}

/// The entries of `s` that the loader lists, in order.
pub open spec fn filter_entries(s: Seq<EntryView>, f: ThemeFilter, q: Seq<char>) -> Seq<EntryView>
    decreases s.len(),
{
    if s.len() == 0 {
        Seq::empty()
    } else {
        let rest = filter_entries(s.drop_last(), f, q);
        if entry_shown(s.last(), f, q) {
            rest.push(s.last())
        } else {
            rest
        }
    }
}

/// The loader's search query as matched: without leading `/`, lowercased.
pub open spec fn loader_query(v: AppView) -> Seq<char> {
    ascii_lower_seq(trim_leading(v.theme_search_query, '/'))
}

/// `n - 1`, or `0` for `n == 0`.
pub open spec fn last_index(n: nat) -> usize {
    if n == 0 {
        0
    } else {
        (n - 1) as usize
    }
}

/// Lists the entries that pass the filter and the search, keeping the
/// selection inside the list.
pub open spec fn apply_filter_view(v: AppView) -> AppView {
    let l = filter_entries(v.all_themes, v.theme_filter, loader_query(v));
    AppView {
        loadable_themes: l,
        selected_theme_index: if v.selected_theme_index >= l.len() {
            last_index(l.len())
        } else {
            v.selected_theme_index
        },
        ..v
    }
}

/// Saved theme names as loader entries.
pub open spec fn user_entries(names: Seq<Seq<char>>) -> Seq<EntryView> {
    names.map_values(|n: Seq<char>| EntryView { builtin: false, name: n })
}

/// Built-in theme names as loader entries.
pub open spec fn builtin_entries(names: Seq<&'static str>) -> Seq<EntryView> {
    names.map_values(|n: &'static str| EntryView { builtin: true, name: n@ })
}

/// The theme list read again: the saved themes sorted by name, then the
/// built-in ones; a listing error is reported and lists no saved theme.
pub open spec fn refreshed_view(
    v: AppView,
    saved: Result<Seq<Seq<char>>, Seq<char>>,
    builtin: Seq<&'static str>,
) -> AppView {
    let (user, msg) = match saved {
        Ok(names) => (user_entries(sort_texts(names)), v.message),
        Err(e) => (Seq::<EntryView>::empty(), Some("✗ Error listing themes: "@ + e)),
    };
    apply_filter_view(AppView { all_themes: user + builtin_entries(builtin), message: msg, ..v })
}

/// Index of the first entry named `name`, if any.
pub open spec fn find_named(s: Seq<EntryView>, name: Seq<char>) -> Option<nat>
    decreases s.len(),
{
    if s.len() == 0 {
        None
    } else if s[0].name == name {
        Some(0)
    } else {
        match find_named(s.drop_first(), name) {
            Some(i) => Some(i + 1),
            None => None,
        }
    }
}

/// Index of the first entry named `name`, or `0` when there is none.
pub open spec fn first_named(s: Seq<EntryView>, name: Seq<char>) -> usize {
    match find_named(s, name) {
        Some(i) => i as usize,
        None => 0,
    }
}

/// The four colors shown beside a theme in the loader.
pub open spec fn swatch_colors(t: ThemeView) -> Seq<RgbColor> {
    seq![
        t.comps[ThemeComponentType::TextUnselected].background,
        t.comps[ThemeComponentType::RibbonSelected].background,
        t.comps[ThemeComponentType::FrameSelected].base,
        t.comps[ThemeComponentType::FrameHighlight].base,
    ]
}

/// The swatch shown for a theme that does not load.
pub open spec fn grey_swatch() -> Seq<RgbColor> {
    seq![
        RgbColor { r: 50, g: 50, b: 50 },
        RgbColor { r: 50, g: 50, b: 50 },
        RgbColor { r: 50, g: 50, b: 50 },
        RgbColor { r: 50, g: 50, b: 50 },
    ]
}

/// Loaded themes as plain values: `None` for one that did not load.
pub open spec fn loaded_view(v: Seq<Result<Theme, String>>) -> Seq<Option<ThemeView>> {
    v.map_values(
        |r: Result<Theme, String>|
            match r {
                Ok(t) => Some(t@),
                Err(_) => None,
            },
    )
}

/// A load result as a plain value.
pub open spec fn load_result_view(r: Result<Theme, String>) -> Result<ThemeView, Seq<char>> {
    match r {
        Ok(t) => Ok(t@),
        Err(e) => Err(e@),
    }
}

/// A result without value as a plain value.
pub open spec fn done_view(r: Result<(), String>) -> Result<(), Seq<char>> {
    match r {
        Ok(()) => Ok(()),
        Err(e) => Err(e@),
    }
}

/// A loaded theme is usable: one slot per type, every preview element set.
pub open spec fn theme_usable(t: Theme) -> bool {
    t.wf() && preview_complete(t@)
}

/// Whether a loaded theme can be shown: see [`theme_usable`].
pub fn is_theme_usable(t: &Theme) -> (b: bool)
    ensures
        b == theme_usable(*t),
{
    if t.components.len() != COMPONENT_COUNT {
        return false;
    }
    let all = PreviewElement::all();
    let mut i: usize = 0;
    while i < all.len()
        invariant
            t.wf(),
            all@ == element_order(),
            i <= all@.len(),
            forall|j: int| 0 <= j < i ==> t@.comps.contains_key(element_component(#[trigger] element_order()[j])),
        decreases all@.len() - i,
    {
        let k = all[i].component_type().ordinal();
        if t.components[k].is_none() {
            assert(!t@.comps.contains_key(element_component(element_order()[i as int])));
            return false;
        }
        i = i + 1;
    }
    assert forall|e: PreviewElement| #[trigger] t@.comps.contains_key(element_component(e)) by {
        assert(element_order()[element_index(e)] == e);
    }
    true
}

/// Selects the loader entry at the current index for preview: asks for it
/// to be loaded, when there is one.
pub open spec fn preview_selected(v: AppView) -> (AppView, EffectView) {
    if v.selected_theme_index < v.loadable_themes.len() {
        (
            AppView { pending: PendingView::PreviewLoad, ..v },
            EffectView::LoadTheme(v.loadable_themes[v.selected_theme_index as int]),
        )
    } else {
        (v, EffectView::Idle)
    }
}

/// The last step of opening the loader: load the selected entry to preview
/// it, or, with an empty list, show the loader at once.
pub open spec fn dialog_preview_step(v: AppView) -> (AppView, EffectView) {
    if v.selected_theme_index < v.loadable_themes.len() {
        (
            AppView { pending: PendingView::DialogPreview, ..v },
            EffectView::LoadTheme(v.loadable_themes[v.selected_theme_index as int]),
        )
    } else {
        (
            AppView {
                input_mode: InputMode::ThemeLoad,
                message: Some("Select a theme to load"@),
                pending: PendingView::Idle,
                ..v
            },
            EffectView::Idle,
        )
    }
}

/// The rest of an operation after a save, apply, rename or delete finished
/// with `r`.
pub open spec fn resume_done_view(v: AppView, r: Result<(), Seq<char>>) -> (AppView, EffectView) {
    match v.pending {
        PendingView::Save { then_refresh } => {
            let v1 = match r {
                Ok(_) => AppView { message: Some("✓ Saved: "@ + v.theme.name), dirty: false, ..v },
                Err(e) => AppView { message: Some("✗ Error: "@ + e), ..v },
            };
            if then_refresh {
                (
                    AppView { pending: PendingView::Refresh { then: AfterRefresh::ToPreview }, ..v1 },
                    EffectView::ListThemes,
                )
            } else {
                (AppView { pending: PendingView::Idle, ..v1 }, EffectView::Idle)
            }
        },
        PendingView::Apply { then_refresh } => {
            let v1 = match r {
                Ok(_) => AppView {
                    message: Some(
                        "✓ Saved + applied \""@ + v.theme.name
                            + "\" — restart Zellij to see changes"@,
                    ),
                    ..v
                },
                Err(e) => AppView { message: Some("✗ Error: "@ + e), ..v },
            };
            if then_refresh {
                (
                    AppView { pending: PendingView::Refresh { then: AfterRefresh::ToPreview }, ..v1 },
                    EffectView::ListThemes,
                )
            } else {
                (AppView { pending: PendingView::Idle, ..v1 }, EffectView::Idle)
            }
        },
        PendingView::ApplySelected { name } => {
            let m = match r {
                Ok(_) => "✓ Applied \""@ + name + "\" — restart Zellij to see changes"@,
                Err(e) => "✗ Error: "@ + e,
            };
            (AppView { message: Some(m), pending: PendingView::Idle, ..v }, EffectView::Idle)
        },
        PendingView::Rename { new_name } => {
            let m = match r {
                Ok(_) => "✓ Renamed to "@ + new_name,
                Err(e) => "✗ "@ + e,
            };
            (
                AppView {
                    message: Some(m),
                    pending: PendingView::Refresh { then: AfterRefresh::ToLoad },
                    ..v
                },
                EffectView::ListThemes,
            )
        },
        PendingView::Delete { name } => {
            let m = match r {
                Ok(_) => "✓ Deleted \""@ + name + "\""@,
                Err(e) => "✗ "@ + e,
            };
            (
                AppView {
                    message: Some(m),
                    pending: PendingView::Refresh { then: AfterRefresh::ToLoadClamped },
                    ..v
                },
                EffectView::ListThemes,
            )
        },
        _ => (v, EffectView::Idle),
    }
}

/// The rest of an operation after the theme list was read.
pub open spec fn resume_listed_view(
    v: AppView,
    saved: Result<Seq<Seq<char>>, Seq<char>>,
    builtin: Seq<&'static str>,
) -> (AppView, EffectView) {
    match v.pending {
        PendingView::Refresh { then } => {
            let v1 = refreshed_view(v, saved, builtin);
            match then {
                AfterRefresh::Stay => (AppView { pending: PendingView::Idle, ..v1 }, EffectView::Idle),
                AfterRefresh::ToPreview => (
                    AppView { input_mode: InputMode::Preview, pending: PendingView::Idle, ..v1 },
                    EffectView::Idle,
                ),
                AfterRefresh::ToLoad => (
                    AppView { input_mode: InputMode::ThemeLoad, pending: PendingView::Idle, ..v1 },
                    EffectView::Idle,
                ),
                AfterRefresh::ToLoadClamped => (
                    AppView {
                        selected_theme_index: if v1.selected_theme_index <= last_index(
                            v1.loadable_themes.len(),
                        ) {
                            v1.selected_theme_index
                        } else {
                            last_index(v1.loadable_themes.len())
                        },
                        input_mode: InputMode::ThemeLoad,
                        pending: PendingView::Idle,
                        ..v1
                    },
                    EffectView::Idle,
                ),
                AfterRefresh::OpenDialog => (
                    AppView {
                        selected_theme_index: first_named(v1.loadable_themes, v1.theme.name),
                        pending: PendingView::Swatches,
                        ..v1
                    },
                    EffectView::LoadThemes(v1.all_themes),
                ),
            }
        },
        _ => (v, EffectView::Idle),
    }
}

/// The rest of an operation after a theme was loaded.
pub open spec fn resume_loaded_view(v: AppView, r: Result<ThemeView, Seq<char>>) -> (AppView, EffectView) {
    let theme = match r {
        Ok(t) => t,
        Err(_) => v.theme,
    };
    match v.pending {
        PendingView::PreviewLoad => (
            AppView { theme, pending: PendingView::Idle, ..v },
            EffectView::Idle,
        ),
        PendingView::DialogPreview => (
            AppView {
                theme,
                input_mode: InputMode::ThemeLoad,
                message: Some("Select a theme to load"@),
                pending: PendingView::Idle,
                ..v
            },
            EffectView::Idle,
        ),
        PendingView::LoadSelected { name } => match r {
            Ok(t) => (
                AppView {
                    theme: t,
                    theme_name_input: t.name,
                    original_theme: None,
                    dirty: false,
                    message: Some("✓ Loaded: "@ + name),
                    input_mode: InputMode::Preview,
                    pending: PendingView::Idle,
                    ..v
                },
                EffectView::Idle,
            ),
            Err(e) => (
                AppView {
                    message: Some("✗ Error loading \""@ + name + "\": "@ + e),
                    pending: PendingView::Idle,
                    ..v
                },
                EffectView::Idle,
            ),
        },
        _ => (v, EffectView::Idle),
    }
}

/// The colors shown for a theme: its swatch, or grey when it did not load.
pub open spec fn swatch_or_grey(t: Option<ThemeView>) -> Seq<RgbColor> {
    match t {
        Some(t) => swatch_colors(t),
        None => grey_swatch(),
    }
}

/// Position of the entry named `name` in a swatch table, if any.
pub open spec fn name_position(table: Seq<(Seq<char>, Seq<RgbColor>)>, name: Seq<char>) -> Option<int>
    decreases table.len(),
{
    if table.len() == 0 {
        None
    } else if table.last().0 == name {
        Some(table.len() - 1)
    } else {
        name_position(table.drop_last(), name)
    }
}

/// The table with `name`'s colors set to `colors`: the entry of that name
/// is replaced where there is one, else one is added at the end.
pub open spec fn swatch_insert(
    table: Seq<(Seq<char>, Seq<RgbColor>)>,
    name: Seq<char>,
    colors: Seq<RgbColor>,
) -> Seq<(Seq<char>, Seq<RgbColor>)> {
    match name_position(table, name) {
        Some(p) => table.update(p, (name, colors)),
        None => table.push((name, colors)),
    }
}

/// The swatch table after recording the first `n` listed themes in order,
/// a later theme of the same name replacing an earlier one.
pub open spec fn swatch_table(entries: Seq<EntryView>, loaded: Seq<Option<ThemeView>>, n: nat) -> Seq<
    (Seq<char>, Seq<RgbColor>),
>
    decreases n,
{
    if n == 0 {
        Seq::empty()
    } else {
        swatch_insert(
            swatch_table(entries, loaded, (n - 1) as nat),
            entries[n - 1].name,
            swatch_or_grey(loaded[n - 1]),
        )
    }
}

/// The swatch of each listed theme, from the load results in list order;
/// each name is recorded once, with the colors of its last entry.
pub open spec fn swatches_from(entries: Seq<EntryView>, loaded: Seq<Option<ThemeView>>) -> Seq<(Seq<char>, Seq<RgbColor>)> {
    swatch_table(entries, loaded, entries.len())
}

/// No name occurs twice in a swatch table.
pub open spec fn names_unique(table: Seq<(Seq<char>, Seq<RgbColor>)>) -> bool {
    forall|i: int, j: int| 0 <= i < j < table.len() ==> #[trigger] table[i].0 != #[trigger] table[j].0
}

/// Where `name_position` finds an entry, it holds that name; where it
/// finds none, no entry does.
pub proof fn lemma_name_position(table: Seq<(Seq<char>, Seq<RgbColor>)>, name: Seq<char>)
    ensures
        name_position(table, name) matches Some(p) ==> 0 <= p < table.len() && table[p].0 == name,
        name_position(table, name) is None ==> forall|i: int| 0 <= i < table.len() ==> #[trigger] table[i].0 != name,
    decreases table.len(),
{
    if table.len() > 0 && table.last().0 != name {
        lemma_name_position(table.drop_last(), name);
        assert forall|i: int| 0 <= i < table.len() - 1 implies #[trigger] table[i].0 == table.drop_last()[i].0 by {}
    }
}

/// Recording a swatch keeps the names of a table unique.
pub proof fn lemma_swatch_insert_unique(
    table: Seq<(Seq<char>, Seq<RgbColor>)>,
    name: Seq<char>,
    colors: Seq<RgbColor>,
)
    requires
        names_unique(table),
    ensures
        names_unique(swatch_insert(table, name, colors)),
{
    lemma_name_position(table, name);
    let r = swatch_insert(table, name, colors);
    match name_position(table, name) {
        Some(p) => {
            assert forall|i: int, j: int| 0 <= i < j < r.len() implies #[trigger] r[i].0 != #[trigger] r[j].0 by {
                assert(r[i].0 == table[i].0 && r[j].0 == table[j].0);
            }
        },
        None => {
            assert forall|i: int, j: int| 0 <= i < j < r.len() implies #[trigger] r[i].0 != #[trigger] r[j].0 by {
                if j < table.len() {
                    assert(r[i].0 == table[i].0 && r[j].0 == table[j].0);
                } else {
                    assert(r[i].0 == table[i].0);
                }
            }
        },
    }
}

/// Every swatch table built from a list holds each name once.
pub proof fn lemma_swatch_table_unique(entries: Seq<EntryView>, loaded: Seq<Option<ThemeView>>, n: nat)
    ensures
        names_unique(swatch_table(entries, loaded, n)),
    decreases n,
{
    if n > 0 {
        lemma_swatch_table_unique(entries, loaded, (n - 1) as nat);
        lemma_swatch_insert_unique(
            swatch_table(entries, loaded, (n - 1) as nat),
            entries[n - 1].name,
            swatch_or_grey(loaded[n - 1]),
        );
    }
}

/// The rest of opening the loader after every listed theme was loaded for
/// its swatch.
pub open spec fn resume_swatches_view(v: AppView, loaded: Seq<Option<ThemeView>>) -> (AppView, EffectView) {
    match v.pending {
        PendingView::Swatches => dialog_preview_step(
            AppView { theme_swatches: swatches_from(v.all_themes, loaded), ..v },
        ),
        _ => (v, EffectView::Idle),
    }
}

/// The characters a typed name keeps: letters and digits lowercased, `-`
/// and `_` as they are, ASCII whitespace as `-`; the rest are dropped.
pub open spec fn name_filter(s: Seq<char>) -> Seq<char>
    decreases s.len(),
{
    if s.len() == 0 {
        Seq::empty()
    } else {
        let rest = name_filter(s.drop_last());
        let c = s.last();
        if is_ascii_alnum(c) || c == '-' || c == '_' {
            rest.push(ascii_lower(c))
        } else if is_ascii_space(c) {
            rest.push('-')
        } else {
            rest
        }
    }
}

/// `s` without its leading `-`.
pub open spec fn trim_dash_start(s: Seq<char>) -> Seq<char>
    decreases s.len(),
{
    if s.len() > 0 && s[0] == '-' {
        trim_dash_start(s.drop_first())
    } else {
        s
    }
}

/// `s` without its trailing `-`.
pub open spec fn trim_dash_end(s: Seq<char>) -> Seq<char>
    decreases s.len(),
{
    if s.len() > 0 && s.last() == '-' {
        trim_dash_end(s.drop_last())
    } else {
        s
    }
}

/// The file name (without extension) that a typed theme name is saved
/// under. Leading and trailing whitespace of the input makes no difference:
/// ASCII whitespace becomes `-`, which is trimmed, and other whitespace is
/// dropped.
pub open spec fn normalized_name(s: Seq<char>) -> Seq<char> {
    trim_dash_end(trim_dash_start(name_filter(s)))
}

/// Turns a typed theme name into the name it is saved under: see
/// [`normalized_name`].
pub fn normalize_theme_name(input: &str) -> (r: String)
    ensures
        r@ == normalized_name(input@),
{
    let cs = chars_of(input);
    let mut f: Vec<char> = Vec::new();
    let mut i: usize = 0;
    while i < cs.len()
        invariant
            i <= cs@.len(),
            cs@ == input@,
            f@ == name_filter(cs@.take(i as int)),
        decreases cs@.len() - i,
    {
        let c = cs[i];
        assert(cs@.take(i + 1).drop_last() =~= cs@.take(i as int));
        if char_is_ascii_alnum(c) || c == '-' || c == '_' {
            f.push(char_ascii_lower(c));
        } else if char_is_ascii_space(c) {
            f.push('-');
        }
        i = i + 1;
    }
    assert(cs@.take(cs@.len() as int) =~= cs@);
    let n = f.len();
    let mut a: usize = 0;
    assert(f@.skip(0) =~= f@);
    while a < n && f[a] == '-'
        invariant
            n == f@.len(),
            a <= n,
            trim_dash_start(f@) == trim_dash_start(f@.skip(a as int)),
        decreases n - a,
    {
        assert(f@.skip(a as int).drop_first() =~= f@.skip(a + 1));
        a = a + 1;
    }
    assert(trim_dash_start(f@) == f@.subrange(a as int, n as int)) by {
        assert(f@.skip(a as int) =~= f@.subrange(a as int, n as int));
    }
    let mut b: usize = n;
    while b > a && f[b - 1] == '-'
        invariant
            n == f@.len(),
            a <= b <= n,
            trim_dash_end(f@.subrange(a as int, n as int)) == trim_dash_end(f@.subrange(a as int, b as int)),
        decreases b,
    {
        assert(f@.subrange(a as int, b as int).drop_last() =~= f@.subrange(a as int, b - 1));
        b = b - 1;
    }
    let mut r = String::new();
    let mut k: usize = a;
    while k < b
        invariant
            a <= k <= b,
            b <= f@.len(),
            r@ == f@.subrange(a as int, k as int),
        decreases b - k,
    {
        push_char(&mut r, f[k]);
        k = k + 1;
        assert(r@ =~= f@.subrange(a as int, k as int));
    }
    r
}

/// Whether the characters of `needle` appear in `haystack` in order.
fn fuzzy_match(haystack: &str, needle: &str) -> (b: bool)
    ensures
        b == is_subsequence(needle@, haystack@),
{
    let h = chars_of(haystack);
    let n = chars_of(needle);
    subsequence_chars(&h, &n)
}

/// Whether two strings hold the same characters.
pub(crate) fn same_text(a: &str, b: &str) -> (r: bool)
    ensures
        r == (a@ == b@),
{
    let x = chars_of(a);
    let y = chars_of(b);
    if x.len() != y.len() {
        assert(x@.len() != y@.len());
        return false;
    }
    let mut i: usize = 0;
    while i < x.len()
        invariant
            x@ == a@,
            y@ == b@,
            x@.len() == y@.len(),
            i <= x@.len(),
            forall|j: int| 0 <= j < i ==> x@[j] == y@[j],
        decreases x@.len() - i,
    {
        if x[i] != y[i] {
            assert(x@[i as int] != y@[i as int]);
            return false;
        }
        i = i + 1;
    }
    assert(x@ =~= y@);
    true
}

/// The four colors shown beside a theme in the loader.
fn theme_swatches(theme: &Theme) -> (r: [RgbColor; 4])
    requires
        theme_usable(*theme),
    ensures
        r@ == swatch_colors(theme@),
{
    assert(theme@.comps.contains_key(element_component(PreviewElement::TextUnselected)));
    assert(theme@.comps.contains_key(element_component(PreviewElement::TabSelected)));
    assert(theme@.comps.contains_key(element_component(PreviewElement::PaneSelected)));
    assert(theme@.comps.contains_key(element_component(PreviewElement::PaneHighlight)));
    let r = [
        theme.get(ThemeComponentType::TextUnselected).background,
        theme.get(ThemeComponentType::RibbonSelected).background,
        theme.get(ThemeComponentType::FrameSelected).base,
        theme.get(ThemeComponentType::FrameHighlight).base,
    ];
    assert(r@ =~= swatch_colors(theme@));
    r
}

/// The loader entry for a saved theme name.
fn user_entry(name: String) -> (e: ThemeEntry)
    ensures
        e@ == (EntryView { builtin: false, name: name@ }),
{
    ThemeEntry::User(name)
}

/// A look at the update channel as a plain value.
pub enum UpdatePollView {
    Received(UpdateMsgView),
    Empty,
    Disconnected,
}

impl View for UpdatePoll {
    type V = UpdatePollView;

    open spec fn view(&self) -> UpdatePollView {
        match self {
            UpdatePoll::Received(m) => UpdatePollView::Received(m@),
            UpdatePoll::Empty => UpdatePollView::Empty,
            UpdatePoll::Disconnected => UpdatePollView::Disconnected,
        }
    }
}

/// The state after the update channel was looked at: a report ends the
/// background work and sets the update status; a closed channel is a
/// failure; an empty one changes nothing.
pub open spec fn poll_view(v: AppView, p: UpdatePollView) -> AppView {
    match p {
        UpdatePollView::Empty => v,
        UpdatePollView::Disconnected => AppView {
            update_rx: None,
            message: None,
            update_status: StatusView::Failed("update worker disconnected"@),
            ..v
        },
        UpdatePollView::Received(m) => {
            let v1 = AppView { update_rx: None, message: None, ..v };
            match m {
                UpdateMsgView::VersionChecked(Ok(Some(tag))) => AppView {
                    update_status: StatusView::Available(tag),
                    ..v1
                },
                UpdateMsgView::VersionChecked(Ok(None)) => AppView {
                    update_status: StatusView::UpToDate,
                    ..v1
                },
                UpdateMsgView::VersionChecked(Err(e)) => AppView {
                    update_status: StatusView::Failed(e),
                    ..v1
                },
                UpdateMsgView::UpdateComplete(Ok(())) => AppView {
                    update_status: StatusView::Done,
                    input_mode: InputMode::UpdateRestartConfirm,
                    ..v1
                },
                UpdateMsgView::UpdateComplete(Err(e)) => AppView {
                    update_status: StatusView::Failed(e),
                    ..v1
                },
            }
        },
    }
}

/// What pressing the update key does for each update status.
pub open spec fn self_update_view(v: AppView) -> (AppView, EffectView) {
    match v.update_status {
        StatusView::Available(tag) => (
            AppView { update_status: StatusView::Downloading, message: None, ..v },
            EffectView::Download(tag),
        ),
        StatusView::Checking => (
            AppView { message: Some("Still checking for updates"@), ..v },
            EffectView::Idle,
        ),
        StatusView::UpToDate | StatusView::Idle => (
            AppView { message: Some("No update available"@), ..v },
            EffectView::Idle,
        ),
        StatusView::Downloading => (
            AppView { message: Some("Update already in progress"@), ..v },
            EffectView::Idle,
        ),
        StatusView::Done => (
            AppView { message: Some("Update already installed; restart to apply"@), ..v },
            EffectView::Idle,
        ),
        StatusView::Failed(err) => (
            AppView { message: Some("✗ Update unavailable: "@ + err), ..v },
            EffectView::Idle,
        ),
    }
}

/// The name of the loader entry at `i`, or the empty name.
pub open spec fn entry_name_or_empty(s: Seq<EntryView>, i: usize) -> Seq<char> {
    if i < s.len() {
        s[i as int].name
    } else {
        Seq::empty()
    }
}

/// Index of the loader entry to select after moving up, wrapping around.
pub open spec fn index_up(i: usize, len: nat) -> usize {
    if len == 0 {
        0
    } else if i == 0 {
        (len - 1) as usize
    } else {
        (i - 1) as usize
    }
}

/// Index of the loader entry to select after moving down, wrapping around.
pub open spec fn index_down(i: usize, len: nat) -> usize {
    if len == 0 {
        0
    } else {
        ((i + 1) % (len as int)) as usize
    }
}

/// The view of a listing result.
pub open spec fn listing_view(r: Result<Vec<String>, String>) -> Result<Seq<Seq<char>>, Seq<char>> {
    match r {
        Ok(v) => Ok(texts(v@)),
        Err(e) => Err(e@),
    }
}

proof fn lemma_find_named(s: Seq<EntryView>, name: Seq<char>, i: int)
    requires
        0 <= i <= s.len(),
        forall|j: int| 0 <= j < i ==> #[trigger] s[j].name != name,
        i < s.len() ==> s[i].name == name,
    ensures
        find_named(s, name) == (if i < s.len() {
            Some(i as nat)
        } else {
            None::<nat>
        }),
    decreases s.len(),
{
    if s.len() > 0 && i > 0 {
        let t = s.drop_first();
        assert forall|j: int| 0 <= j < i - 1 implies #[trigger] t[j].name != name by {
            assert(t[j] == s[j + 1]);
        }
        lemma_find_named(t, name, i - 1);
    }
}

/// Copies of loader entries.
fn clone_entries(v: &Vec<ThemeEntry>) -> (r: Vec<ThemeEntry>)
    ensures
        entries_view(r@) == entries_view(v@),
{
    let mut r: Vec<ThemeEntry> = Vec::new();
    let mut i: usize = 0;
    while i < v.len()
        invariant
            i <= v@.len(),
            entries_view(r@) == entries_view(v@.take(i as int)),
        decreases v@.len() - i,
    {
        let e = v[i].clone();
        let ghost before = r@;
        r.push(e);
        assert(r@ == before.push(e));
        assert(entries_view(v@.take(i + 1)) =~= entries_view(v@.take(i as int)).push(v@[i as int]@));
        assert(entries_view(r@) =~= entries_view(before).push(e@));
        i = i + 1;
    }
    assert(v@.take(v@.len() as int) =~= v@);
    r
}

/// The entries of `all` that the loader lists for filter `filter` and
/// matched query `q`.
fn filtered_entries(all: &Vec<ThemeEntry>, filter: ThemeFilter, q: &Vec<char>) -> (l: Vec<ThemeEntry>)
    ensures
        entries_view(l@) == filter_entries(entries_view(all@), filter, q@),
{
    let mut l: Vec<ThemeEntry> = Vec::new();
    let mut i: usize = 0;
    while i < all.len()
        invariant
            i <= all@.len(),
            entries_view(l@) == filter_entries(entries_view(all@).take(i as int), filter, q@),
        decreases all@.len() - i,
    {
        let e = &all[i];
        let allowed = match filter {
            ThemeFilter::All => true,
            ThemeFilter::Builtin => e.is_builtin(),
            ThemeFilter::Saved => !e.is_builtin(),
        };
        let shown = allowed && (q.len() == 0 || subsequence_chars(
            &lower_chars(&chars_of(e.name())),
            q,
        ));
        assert(entries_view(all@).take(i + 1).drop_last() =~= entries_view(all@).take(i as int));
        assert(entries_view(all@).take(i + 1).last() == e@);
        if shown {
            l.push(e.clone());
            assert(entries_view(l@) =~= filter_entries(entries_view(all@).take(i + 1), filter, q@));
        }
        i = i + 1;
    }
    assert(entries_view(all@).take(all@.len() as int) =~= entries_view(all@));
    l
}

/// The loader query as matched: leading `/` removed, lowercased.
fn loader_query_chars(query: &String) -> (q: Vec<char>)
    ensures
        q@ == ascii_lower_seq(trim_leading(query@, '/')),
{
    let qc = chars_of(query.as_str());
    let n = qc.len();
    let mut a: usize = 0;
    assert(qc@.skip(0) =~= qc@);
    while a < n && qc[a] == '/'
        invariant
            n == qc@.len(),
            a <= n,
            trim_leading(qc@, '/') == trim_leading(qc@.skip(a as int), '/'),
        decreases n - a,
    {
        assert(qc@.skip(a as int).drop_first() =~= qc@.skip(a + 1));
        a = a + 1;
    }
    let mut rest: Vec<char> = Vec::new();
    let mut k: usize = a;
    while k < n
        invariant
            n == qc@.len(),
            a <= k <= n,
            rest@ == qc@.subrange(a as int, k as int),
        decreases n - k,
    {
        rest.push(qc[k]);
        k = k + 1;
        assert(rest@ =~= qc@.subrange(a as int, k as int));
    }
    assert(rest@ =~= qc@.skip(a as int));
    lower_chars(&rest)
}

impl App {
    /// Lists the entries that pass the filter and the search query, keeping
    /// the selection inside the list.
    pub fn apply_filter_to_list(&mut self)
        ensures
            final(self)@ == apply_filter_view(old(self)@),
            final(self).wf() == old(self).wf(),
    {
        let q = loader_query_chars(&self.theme_search_query);
        let l = filtered_entries(&self.all_themes, self.theme_filter, &q);
        let len = l.len();
        self.loadable_themes = l;
        if self.selected_theme_index >= len {
            self.selected_theme_index = if len == 0 {
                0
            } else {
                len - 1
            };
        }
    }

    /// Asks for the loader entry at the current index to be loaded for
    /// preview, when there is one.
    fn preview_selected_entry(&mut self) -> (e: Effect)
        ensures
            (final(self)@, e@) == preview_selected(old(self)@),
            final(self).wf() == old(self).wf(),
    {
        if self.selected_theme_index < self.loadable_themes.len() {
            let entry = self.loadable_themes[self.selected_theme_index].clone();
            self.pending = Pending::PreviewLoad;
            Effect::LoadTheme(entry)
        } else {
            Effect::Idle
        }
    }

    /// Switches the loader filter (the same filter again switches it off),
    /// selects the first entry and previews it.
    pub fn set_theme_filter(&mut self, filter: ThemeFilter) -> (e: Effect)
        ensures
            (final(self)@, e@) == set_filter_view(old(self)@, filter),
            final(self).wf() == old(self).wf(),
    {
        self.theme_filter = if self.theme_filter == filter {
            ThemeFilter::All
        } else {
            filter
        };
        self.apply_filter_to_list();
        self.selected_theme_index = 0;
        self.preview_selected_entry()
    }

    /// Selects the previous loader entry, wrapping around, and previews it.
    pub fn move_theme_selection_up(&mut self) -> (e: Effect)
        ensures
            (final(self)@, e@) == move_up_view(old(self)@),
            final(self).wf() == old(self).wf(),
    {
        if self.loadable_themes.len() == 0 {
            self.selected_theme_index = 0;
        } else if self.selected_theme_index == 0 {
            self.selected_theme_index = self.loadable_themes.len() - 1;
        } else {
            self.selected_theme_index = self.selected_theme_index - 1;
        }
        self.preview_selected_entry()
    }

    /// Selects the next loader entry, wrapping around, and previews it.
    pub fn move_theme_selection_down(&mut self) -> (e: Effect)
        requires
            old(self)@.loadable_themes.len() == 0 || old(self)@.selected_theme_index < usize::MAX,
        ensures
            (final(self)@, e@) == move_down_view(old(self)@),
            final(self).wf() == old(self).wf(),
    {
        if self.loadable_themes.len() == 0 {
            self.selected_theme_index = 0;
        } else {
            self.selected_theme_index = (self.selected_theme_index + 1) % self.loadable_themes.len();
        }
        self.preview_selected_entry()
    }

    /// Selects loader entry `index` and previews it.
    pub fn move_theme_selection_to(&mut self, index: usize) -> (e: Effect)
        ensures
            (final(self)@, e@) == move_to_view(old(self)@, index),
            final(self).wf() == old(self).wf(),
    {
        self.selected_theme_index = index;
        self.preview_selected_entry()
    }

    /// Asks for the theme list to be read again.
    pub fn refresh_theme_list(&mut self) -> (e: Effect)
        ensures
            final(self)@ == (AppView {
                pending: PendingView::Refresh { then: AfterRefresh::Stay },
                ..old(self)@
            }),
            e@ == EffectView::ListThemes,
            final(self).wf() == old(self).wf(),
    {
        self.pending = Pending::Refresh { then: AfterRefresh::Stay };
        Effect::ListThemes
    }

    /// Rebuilds the theme list from the saved names (or a listing error)
    /// and the built-in names.
    fn refresh_with(&mut self, saved: Result<Vec<String>, String>, builtin: &[&'static str])
        ensures
            final(self)@ == refreshed_view(old(self)@, listing_view(saved), builtin@),
            final(self).wf() == old(self).wf(),
    {
        let mut all: Vec<ThemeEntry> = Vec::new();
        match saved {
            Ok(names) => {
                let sorted = sort_strings(&names);
                let mut i: usize = 0;
                while i < sorted.len()
                    invariant
                        i <= sorted@.len(),
                        entries_view(all@) == user_entries(texts(sorted@).take(i as int)),
                    decreases sorted@.len() - i,
                {
                    let name = sorted[i].clone();
                    let e = user_entry(name);
                    let ghost before = all@;
                    all.push(e);
                    assert(all@ == before.push(e));
                    assert(entries_view(all@) =~= entries_view(before).push(e@));
                    assert(texts(sorted@).take(i + 1) =~= texts(sorted@).take(i as int).push(sorted@[i as int]@));
                    assert(user_entries(texts(sorted@).take(i + 1)) =~= user_entries(texts(sorted@).take(i as int)).push(e@));
                    i = i + 1;
                }
                assert(texts(sorted@).take(sorted@.len() as int) =~= texts(sorted@));
            },
            Err(e) => {
                let mut m = owned("✗ Error listing themes: ");
                push_str(&mut m, e.as_str());
                self.message = Some(m);
            },
        }
        let ghost user = entries_view(all@);
        let mut j: usize = 0;
        while j < builtin.len()
            invariant
                j <= builtin@.len(),
                entries_view(all@) == user + builtin_entries(builtin@.take(j as int)),
            decreases builtin@.len() - j,
        {
            let e = ThemeEntry::Builtin(builtin[j]);
            let ghost before = all@;
            all.push(e);
            assert(all@ == before.push(e));
            assert(entries_view(all@) =~= entries_view(before).push(e@));
            assert(builtin@.take(j + 1) =~= builtin@.take(j as int).push(builtin@[j as int]));
            assert(builtin_entries(builtin@.take(j + 1)) =~= builtin_entries(builtin@.take(j as int)).push(e@));
            j = j + 1;
        }
        assert(builtin@.take(builtin@.len() as int) =~= builtin@);
        self.all_themes = all;
        self.apply_filter_to_list();
    }

    /// Index of the first listed entry named like the theme, or `0`.
    fn position_of_theme(&self) -> (i: usize)
        ensures
            i == first_named(self@.loadable_themes, self@.theme.name),
    {
        let mut i: usize = 0;
        while i < self.loadable_themes.len()
            invariant
                i <= self.loadable_themes@.len(),
                forall|j: int| 0 <= j < i ==> #[trigger] self@.loadable_themes[j].name != self@.theme.name,
            decreases self.loadable_themes@.len() - i,
        {
            if same_text(self.loadable_themes[i].name(), self.theme.name.as_str()) {
                proof {
                    lemma_find_named(self@.loadable_themes, self@.theme.name, i as int);
                }
                return i;
            }
            i = i + 1;
        }
        proof {
            lemma_find_named(self@.loadable_themes, self@.theme.name, i as int);
        }
        0
    }

    /// Goes on with the waiting operation once the theme list was read:
    /// `saved` is the listing of saved theme names, `builtin` the names of
    /// the themes that ship with the program.
    #[verifier::spinoff_prover]
    #[verifier::rlimit(50)]
    pub fn resume_listed(&mut self, saved: Result<Vec<String>, String>, builtin: &[&'static str]) -> (e: Effect)
        ensures
            (final(self)@, e@) == resume_listed_view(old(self)@, listing_view(saved), builtin@),
            final(self).wf() == old(self).wf(),
    {
        let mut pending = Pending::Idle;
        core::mem::swap(&mut pending, &mut self.pending);
        match pending {
            Pending::Refresh { then } => {
                self.refresh_with(saved, builtin);
                match then {
                    AfterRefresh::Stay => Effect::Idle,
                    AfterRefresh::ToPreview => {
                        self.input_mode = InputMode::Preview;
                        Effect::Idle
                    },
                    AfterRefresh::ToLoad => {
                        self.input_mode = InputMode::ThemeLoad;
                        Effect::Idle
                    },
                    AfterRefresh::ToLoadClamped => {
                        let len = self.loadable_themes.len();
                        let last = if len == 0 {
                            0
                        } else {
                            len - 1
                        };
                        if self.selected_theme_index > last {
                            self.selected_theme_index = last;
                        }
                        self.input_mode = InputMode::ThemeLoad;
                        Effect::Idle
                    },
                    AfterRefresh::OpenDialog => {
                        self.selected_theme_index = self.position_of_theme();
                        self.pending = Pending::Swatches;
                        Effect::LoadThemes(clone_entries(&self.all_themes))
                    },
                }
            },
            other => {
                self.pending = other;
                Effect::Idle
            },
        }
    }

    /// Opens the theme loader: remembers the theme, clears the search, and
    /// asks for the theme list.
    pub fn open_theme_load_dialog(&mut self) -> (e: Effect)
        requires
            old(self).wf(),
        ensures
            final(self).wf(),
            final(self)@ == open_loader_view(old(self)@),
            e@ == EffectView::ListThemes,
    {
        self.theme_search_query = String::new();
        self.search_focused = false;
        self.theme_filter = ThemeFilter::All;
        self.original_theme = Some(self.theme.clone());
        self.pending = Pending::Refresh { then: AfterRefresh::OpenDialog };
        Effect::ListThemes
    }

    /// The last step of opening the loader.
    fn dialog_preview(&mut self) -> (e: Effect)
        ensures
            (final(self)@, e@) == dialog_preview_step(old(self)@),
            final(self).wf() == old(self).wf(),
    {
        if self.selected_theme_index < self.loadable_themes.len() {
            let entry = self.loadable_themes[self.selected_theme_index].clone();
            self.pending = Pending::DialogPreview;
            Effect::LoadTheme(entry)
        } else {
            self.input_mode = InputMode::ThemeLoad;
            self.message = Some(owned("Select a theme to load"));
            self.pending = Pending::Idle;
            Effect::Idle
        }
    }

    /// Goes on opening the loader once every listed theme was loaded for
    /// its swatch; `loaded` holds one result per entry of `all_themes`.
    pub fn resume_swatches(&mut self, loaded: Vec<Result<Theme, String>>) -> (e: Effect)
        requires
            old(self)@.pending is Swatches ==> loaded@.len() == old(self)@.all_themes.len(),
            forall|i: int|
                0 <= i < loaded@.len() ==> (#[trigger] loaded@[i] matches Ok(t) ==> theme_usable(t)),
        ensures
            (final(self)@, e@) == resume_swatches_view(old(self)@, loaded_view(loaded@)),
            old(self).wf() ==> final(self).wf(),
    {
        let mut pending = Pending::Idle;
        core::mem::swap(&mut pending, &mut self.pending);
        match pending {
            Pending::Swatches => {
                let ghost entries = old(self)@.all_themes;
                let ghost lv = loaded_view(loaded@);
                let mut sw: Vec<(String, [RgbColor; 4])> = Vec::new();
                let mut i: usize = 0;
                while i < self.all_themes.len()
                    invariant
                        entries == entries_view(self.all_themes@),
                        lv == loaded_view(loaded@),
                        loaded@.len() == entries.len(),
                        forall|k: int|
                            0 <= k < loaded@.len() ==> (#[trigger] loaded@[k] matches Ok(t) ==> theme_usable(t)),
                        i <= entries.len(),
                        sw@.map_values(|p: (String, [RgbColor; 4])| (p.0@, p.1@)) == swatch_table(
                            entries,
                            lv,
                            i as nat,
                        ),
                    decreases entries.len() - i,
                {
                    let name = owned(self.all_themes[i].name());
                    let colors = match &loaded[i] {
                        Ok(t) => theme_swatches(t),
                        Err(_) => {
                            let g = RgbColor::new(50, 50, 50);
                            let a = [g, g, g, g];
                            assert(a@ =~= grey_swatch());
                            a
                        },
                    };
                    let ghost table = sw@.map_values(|p: (String, [RgbColor; 4])| (p.0@, p.1@));
                    assert(colors@ == swatch_or_grey(lv[i as int]));
                    assert(name@ == entries[i as int].name);
                    let mut p = sw.len();
                    let mut found = false;
                    assert(table.take(p as int) =~= table);
                    assert(name_position(table.take(0), name@) is None) by {
                        assert(table.take(0).len() == 0);
                    }
                    while p > 0
                        invariant_except_break
                            !found,
                            name_position(table.take(0), name@) is None,
                            p <= sw@.len(),
                            table == sw@.map_values(|q: (String, [RgbColor; 4])| (q.0@, q.1@)),
                            name_position(table, name@) == name_position(table.take(p as int), name@),
                        ensures
                            p <= sw@.len(),
                            table == sw@.map_values(|q: (String, [RgbColor; 4])| (q.0@, q.1@)),
                            found ==> p > 0 && name_position(table, name@) == Some((p - 1) as int),
                            !found ==> name_position(table, name@) is None,
                        decreases p,
                    {
                        assert(table.take(p as int).drop_last() =~= table.take(p - 1));
                        if same_text(sw[p - 1].0.as_str(), name.as_str()) {
                            assert(table[p - 1].0 == name@);
                            assert(table.take(p as int).last() == table[p - 1]);
                            found = true;
                            break;
                        }
                        p = p - 1;
                    }
                    if found {
                        sw.set(p - 1, (name, colors));
                        assert(sw@.map_values(|q: (String, [RgbColor; 4])| (q.0@, q.1@)) =~= table.update(
                            (p - 1) as int,
                            (name@, colors@),
                        ));
                    } else {
                        sw.push((name, colors));
                        assert(sw@.map_values(|q: (String, [RgbColor; 4])| (q.0@, q.1@)) =~= table.push(
                            (name@, colors@),
                        ));
                    }
                    i = i + 1;
                }
                proof {
                    lemma_swatch_table_unique(entries, lv, entries.len());
                }
                self.theme_swatches = sw;
                self.dialog_preview()
            },
            other => {
                self.pending = other;
                Effect::Idle
            },
        }
    }

    /// Goes on with the waiting operation once a theme was loaded (or failed
    /// to load).
    pub fn resume_loaded(&mut self, result: Result<Theme, String>) -> (e: Effect)
        requires
            old(self).wf(),
            result matches Ok(t) ==> theme_usable(t),
        ensures
            final(self).wf(),
            (final(self)@, e@) == resume_loaded_view(old(self)@, load_result_view(result)),
    {
        let mut pending = Pending::Idle;
        core::mem::swap(&mut pending, &mut self.pending);
        match pending {
            Pending::PreviewLoad => {
                if let Ok(t) = result {
                    self.theme = t;
                }
                Effect::Idle
            },
            Pending::DialogPreview => {
                if let Ok(t) = result {
                    self.theme = t;
                }
                self.input_mode = InputMode::ThemeLoad;
                self.message = Some(owned("Select a theme to load"));
                Effect::Idle
            },
            Pending::LoadSelected { name } => {
                match result {
                    Ok(t) => {
                        self.theme = t;
                        self.sync_theme_name_input();
                        self.original_theme = None;
                        self.dirty = false;
                        let mut m = owned("✓ Loaded: ");
                        push_str(&mut m, name.as_str());
                        self.message = Some(m);
                        self.input_mode = InputMode::Preview;
                    },
                    Err(err) => {
                        let mut m = owned("✗ Error loading \"");
                        push_str(&mut m, name.as_str());
                        push_str(&mut m, "\": ");
                        push_str(&mut m, err.as_str());
                        self.message = Some(m);
                    },
                }
                Effect::Idle
            },
            other => {
                self.pending = other;
                Effect::Idle
            },
        }
    }

    /// Asks for the selected loader entry to be loaded into the editor.
    pub fn load_selected_theme(&mut self) -> (e: Effect)
        ensures
            (final(self)@, e@) == load_selected_view(old(self)@),
            final(self).wf() == old(self).wf(),
    {
        if self.selected_theme_index < self.loadable_themes.len() {
            let entry = self.loadable_themes[self.selected_theme_index].clone();
            let name = owned(entry.name());
            self.pending = Pending::LoadSelected { name };
            Effect::LoadTheme(entry)
        } else {
            Effect::Idle
        }
    }

    /// Keeps the previewed theme, closes the loader and asks for the theme
    /// to be written to the Zellij configuration.
    pub fn apply_selected_theme(&mut self) -> (e: Effect)
        requires
            old(self).wf(),
        ensures
            final(self).wf(),
            (final(self)@, e@) == apply_selected_view(old(self)@),
    {
        let name = if self.selected_theme_index < self.loadable_themes.len() {
            owned(self.loadable_themes[self.selected_theme_index].name())
        } else {
            String::new()
        };
        self.sync_theme_name_input();
        self.original_theme = None;
        self.dirty = false;
        self.input_mode = InputMode::Preview;
        self.pending = Pending::ApplySelected { name };
        Effect::ApplyTheme
    }

    /// Closes the loader, putting back the theme it was opened on.
    pub fn cancel_theme_load(&mut self)
        requires
            old(self).wf(),
        ensures
            final(self).wf(),
            final(self)@ == cancel_load_view(old(self)@),
    {
        if let Some(original) = self.original_theme.take() {
            self.theme = original;
        }
        self.sync_theme_name_input();
        self.theme_search_query = String::new();
        self.search_focused = false;
        self.input_mode = InputMode::Preview;
        self.message = None;
    }

    /// Asks for the theme to be written to the Zellij configuration.
    pub fn apply_theme_to_zellij(&mut self) -> (e: Effect)
        ensures
            final(self)@ == apply_view(old(self)@),
            e@ == EffectView::ApplyTheme,
            final(self).wf() == old(self).wf(),
    {
        self.pending = Pending::Apply { then_refresh: false };
        Effect::ApplyTheme
    }

    /// Asks for the theme to be saved.
    pub fn save_theme(&mut self) -> (e: Effect)
        ensures
            final(self)@ == (AppView {
                pending: PendingView::Save { then_refresh: false },
                ..old(self)@
            }),
            e@ == EffectView::SaveTheme,
            final(self).wf() == old(self).wf(),
    {
        self.pending = Pending::Save { then_refresh: false };
        Effect::SaveTheme
    }

    /// Names the theme after the typed name (see [`normalized_name`]) and
    /// asks for it to be saved; an unusable name is refused.
    pub fn save_theme_as_input_name(&mut self) -> (e: Effect)
        ensures
            (final(self)@, e@) == save_as_view(old(self)@),
            final(self).wf() == old(self).wf(),
    {
        let normalized = normalize_theme_name(self.theme_name_input.as_str());
        if normalized.unicode_len() == 0 {
            self.message = Some(owned("✗ Theme name must contain letters or numbers"));
            return Effect::Idle;
        }
        self.theme.name = normalized;
        assert(self.theme@.comps == old(self).theme@.comps);
        self.sync_theme_name_input();
        self.pending = Pending::Save { then_refresh: true };
        Effect::SaveTheme
    }

    /// Names the theme after the typed name (see [`normalized_name`]) and
    /// asks for it to be written to the Zellij configuration; an unusable
    /// name is refused.
    pub fn save_and_apply_theme_as_input_name(&mut self) -> (e: Effect)
        ensures
            (final(self)@, e@) == save_apply_as_view(old(self)@),
            final(self).wf() == old(self).wf(),
    {
        let normalized = normalize_theme_name(self.theme_name_input.as_str());
        if normalized.unicode_len() == 0 {
            self.message = Some(owned("✗ Theme name must contain letters or numbers"));
            return Effect::Idle;
        }
        self.theme.name = normalized;
        assert(self.theme@.comps == old(self).theme@.comps);
        self.sync_theme_name_input();
        self.pending = Pending::Apply { then_refresh: true };
        Effect::ApplyTheme
    }

    /// Goes on with the waiting operation once a save, an apply, a rename or
    /// a delete finished with `result`.
    pub fn resume_done(&mut self, result: Result<(), String>) -> (e: Effect)
        ensures
            (final(self)@, e@) == resume_done_view(old(self)@, done_view(result)),
            final(self).wf() == old(self).wf(),
    {
        let mut pending = Pending::Idle;
        core::mem::swap(&mut pending, &mut self.pending);
        match pending {
            Pending::Save { then_refresh } => {
                match result {
                    Ok(()) => {
                        let mut m = owned("✓ Saved: ");
                        push_str(&mut m, self.theme.name.as_str());
                        self.message = Some(m);
                        self.dirty = false;
                    },
                    Err(err) => {
                        let mut m = owned("✗ Error: ");
                        push_str(&mut m, err.as_str());
                        self.message = Some(m);
                    },
                }
                if then_refresh {
                    self.pending = Pending::Refresh { then: AfterRefresh::ToPreview };
                    Effect::ListThemes
                } else {
                    Effect::Idle
                }
            },
            Pending::Apply { then_refresh } => {
                match result {
                    Ok(()) => {
                        let mut m = owned("✓ Saved + applied \"");
                        push_str(&mut m, self.theme.name.as_str());
                        push_str(&mut m, "\" — restart Zellij to see changes");
                        self.message = Some(m);
                    },
                    Err(err) => {
                        let mut m = owned("✗ Error: ");
                        push_str(&mut m, err.as_str());
                        self.message = Some(m);
                    },
                }
                if then_refresh {
                    self.pending = Pending::Refresh { then: AfterRefresh::ToPreview };
                    Effect::ListThemes
                } else {
                    Effect::Idle
                }
            },
            Pending::ApplySelected { name } => {
                match result {
                    Ok(()) => {
                        let mut m = owned("✓ Applied \"");
                        push_str(&mut m, name.as_str());
                        push_str(&mut m, "\" — restart Zellij to see changes");
                        self.message = Some(m);
                    },
                    Err(err) => {
                        let mut m = owned("✗ Error: ");
                        push_str(&mut m, err.as_str());
                        self.message = Some(m);
                    },
                }
                Effect::Idle
            },
            Pending::Rename { new_name } => {
                match result {
                    Ok(()) => {
                        let mut m = owned("✓ Renamed to ");
                        push_str(&mut m, new_name.as_str());
                        self.message = Some(m);
                    },
                    Err(err) => {
                        let mut m = owned("✗ ");
                        push_str(&mut m, err.as_str());
                        self.message = Some(m);
                    },
                }
                self.pending = Pending::Refresh { then: AfterRefresh::ToLoad };
                Effect::ListThemes
            },
            Pending::Delete { name } => {
                match result {
                    Ok(()) => {
                        let mut m = owned("✓ Deleted \"");
                        push_str(&mut m, name.as_str());
                        push_str(&mut m, "\"");
                        self.message = Some(m);
                    },
                    Err(err) => {
                        let mut m = owned("✗ ");
                        push_str(&mut m, err.as_str());
                        self.message = Some(m);
                    },
                }
                self.pending = Pending::Refresh { then: AfterRefresh::ToLoadClamped };
                Effect::ListThemes
            },
            other => {
                self.pending = other;
                Effect::Idle
            },
        }
    }

    /// Starts renaming the selected saved theme; built-in themes cannot be
    /// renamed.
    pub fn begin_rename_selected_theme(&mut self)
        ensures
            final(self)@ == begin_rename_view(old(self)@),
            final(self).wf() == old(self).wf(),
    {
        let i = self.selected_theme_index;
        if i >= self.loadable_themes.len() || self.loadable_themes[i].is_builtin() {
            self.message = Some(owned("Cannot rename built-in themes"));
            return;
        }
        self.loader_action_index = i;
        self.theme_name_input = owned(self.loadable_themes[i].name());
        self.input_mode = InputMode::ThemeLoadRename;
    }

    /// Asks for the saved theme being renamed to take the typed name (see
    /// [`normalized_name`]); an unusable name is refused.
    pub fn commit_rename_theme(&mut self) -> (e: Effect)
        ensures
            (final(self)@, e@) == commit_rename_view(old(self)@),
            final(self).wf() == old(self).wf(),
    {
        let new_name = normalize_theme_name(self.theme_name_input.as_str());
        if new_name.unicode_len() == 0 {
            self.message = Some(owned("✗ Invalid name"));
            return Effect::Idle;
        }
        let old_name = if self.loader_action_index < self.loadable_themes.len() {
            owned(self.loadable_themes[self.loader_action_index].name())
        } else {
            String::new()
        };
        self.pending = Pending::Rename { new_name: new_name.clone() };
        Effect::RenameTheme(old_name, new_name)
    }

    /// Asks to confirm the deletion of the selected saved theme; built-in
    /// themes cannot be deleted.
    pub fn begin_delete_selected_theme(&mut self)
        ensures
            final(self)@ == begin_delete_view(old(self)@),
            final(self).wf() == old(self).wf(),
    {
        let i = self.selected_theme_index;
        if i >= self.loadable_themes.len() || self.loadable_themes[i].is_builtin() {
            self.message = Some(owned("Cannot delete built-in themes"));
            return;
        }
        self.loader_action_index = i;
        let mut m = owned("Delete \"");
        push_str(&mut m, self.loadable_themes[i].name());
        push_str(&mut m, "\"? y = confirm, n = cancel");
        self.message = Some(m);
        self.input_mode = InputMode::ThemeLoadDeleteConfirm;
    }

    /// Asks for the saved theme to be deleted.
    pub fn confirm_delete_theme(&mut self) -> (e: Effect)
        ensures
            (final(self)@, e@) == confirm_delete_view(old(self)@),
            final(self).wf() == old(self).wf(),
    {
        let name = if self.loader_action_index < self.loadable_themes.len() {
            owned(self.loadable_themes[self.loader_action_index].name())
        } else {
            String::new()
        };
        self.pending = Pending::Delete { name: name.clone() };
        Effect::DeleteTheme(name)
    }

    /// Marks the update check as running; `rx` is the channel the checking
    /// worker reports on.
    pub fn start_update_check(&mut self, rx: std::sync::mpsc::Receiver<UpdateMsg>)
        ensures
            final(self)@ == (AppView {
                update_status: StatusView::Checking,
                update_rx: Some(rx),
                ..old(self)@
            }),
            final(self).wf() == old(self).wf(),
    {
        self.update_status = UpdateStatus::Checking;
        self.update_rx = Some(rx);
    }

    /// Listens to the channel that the download worker reports on.
    pub fn attach_update_channel(&mut self, rx: std::sync::mpsc::Receiver<UpdateMsg>)
        ensures
            final(self)@ == (AppView { update_rx: Some(rx), ..old(self)@ }),
            final(self).wf() == old(self).wf(),
    {
        self.update_rx = Some(rx);
    }

    /// Starts installing an available update; otherwise says why not.
    pub fn start_self_update(&mut self) -> (e: Effect)
        ensures
            (final(self)@, e@) == self_update_view(old(self)@),
            final(self).wf() == old(self).wf(),
    {
        match &self.update_status {
            UpdateStatus::Available(tag) => {
                let tag = tag.clone();
                self.update_status = UpdateStatus::Downloading;
                self.message = None;
                Effect::Download(tag)
            },
            UpdateStatus::Checking => {
                self.message = Some(owned("Still checking for updates"));
                Effect::Idle
            },
            UpdateStatus::UpToDate | UpdateStatus::Idle => {
                self.message = Some(owned("No update available"));
                Effect::Idle
            },
            UpdateStatus::Downloading => {
                self.message = Some(owned("Update already in progress"));
                Effect::Idle
            },
            UpdateStatus::Done => {
                self.message = Some(owned("Update already installed; restart to apply"));
                Effect::Idle
            },
            UpdateStatus::Failed(err) => {
                let mut m = owned("✗ Update unavailable: ");
                push_str(&mut m, err.as_str());
                self.message = Some(m);
                Effect::Idle
            },
        }
    }

    /// Takes in what a look at the update channel found.
    pub fn handle_update_poll(&mut self, p: UpdatePoll)
        ensures
            final(self)@ == poll_view(old(self)@, p@),
            final(self).wf() == old(self).wf(),
    {
        match p {
            UpdatePoll::Received(msg) => {
                self.update_rx = None;
                self.message = None;
                match msg {
                    UpdateMsg::VersionChecked(Ok(Some(tag))) => {
                        self.update_status = UpdateStatus::Available(tag);
                    },
                    UpdateMsg::VersionChecked(Ok(None)) => {
                        self.update_status = UpdateStatus::UpToDate;
                    },
                    UpdateMsg::VersionChecked(Err(e)) => {
                        self.update_status = UpdateStatus::Failed(e);
                    },
                    UpdateMsg::UpdateComplete(Ok(())) => {
                        self.update_status = UpdateStatus::Done;
                        self.input_mode = InputMode::UpdateRestartConfirm;
                    },
                    UpdateMsg::UpdateComplete(Err(e)) => {
                        self.update_status = UpdateStatus::Failed(e);
                    },
                }
            },
            UpdatePoll::Disconnected => {
                self.update_rx = None;
                self.message = None;
                self.update_status = UpdateStatus::Failed(owned("update worker disconnected"));
            },
            UpdatePoll::Empty => {},
        }
    }

    /// Looks at the update channel, if a worker is running. What it finds
    /// depends on the worker; whatever it is, it is taken in as
    /// [`App::handle_update_poll`] states.
    pub fn poll_update_channel(&mut self)
        ensures
            old(self)@.update_rx is None ==> final(self)@ == old(self)@,
            exists|p: UpdatePollView| final(self)@ == poll_view(old(self)@, p),
            final(self).wf() == old(self).wf(),
    {
        let p = match &self.update_rx {
            None => {
                assert(old(self)@ == poll_view(old(self)@, UpdatePollView::Empty));
                return;
            },
            Some(rx) => try_recv_update(rx),
        };
        self.handle_update_poll(p);
    }

    /// Leaves the restart for later.
    pub fn defer_restart(&mut self)
        ensures
            final(self)@ == defer_restart_view(old(self)@),
            final(self).wf() == old(self).wf(),
    {
        self.input_mode = InputMode::Preview;
        self.update_status = UpdateStatus::Idle;
        self.message = None;
    }

    /// Asks for the program to start again once it exits.
    pub fn confirm_restart(&mut self)
        ensures
            final(self)@ == confirm_restart_view(old(self)@),
            final(self).wf() == old(self).wf(),
    {
        self.restart_after_exit = true;
        self.input_mode = InputMode::Preview;
    }
}


/// Where an element stands in its group's list of fields.
pub open spec fn group_position(e: PreviewElement) -> int {
    element_index(e) - match element_group(e) {
        PreviewGroup::TabBar => 0int,
        PreviewGroup::Panes => 2,
        PreviewGroup::Content => 7,
        PreviewGroup::Status => 12,
        PreviewGroup::Multiplayer => 14,
    }
}

/// An element's group is the group whose fields list it.
pub proof fn lemma_group_lists_element(e: PreviewElement, g: PreviewGroup)
    ensures
        element_group(e) == g <==> group_fields(g).contains(e),
{
    assert(group_fields(element_group(e))[group_position(e)] == e);
    if group_fields(g).contains(e) {
        let k = choose|k: int| 0 <= k < group_fields(g).len() && group_fields(g)[k] == e;
        assert(element_group(group_fields(g)[k]) == g);
    }
}

} // verus!
