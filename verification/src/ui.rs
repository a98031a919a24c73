//! The states of the client's screens, inputs and selections.
use vstd::prelude::*;

verus! {

/// A message shown on the entry screen.
#[derive(Debug)]
pub enum Notification {
    Success(String),
    Failure(String),
}

/// A notification as a value.
pub enum NotificationView {
    Success(Seq<char>),
    Failure(Seq<char>),
}

impl View for Notification {
    type V = NotificationView;

    open spec fn view(&self) -> NotificationView {
        match self {
            Notification::Success(m) => NotificationView::Success(m@),
            Notification::Failure(m) => NotificationView::Failure(m@),
        }
    }
}

/// Which list of contacts is shown: rooms or users.
#[derive(Debug, Clone, Copy, PartialEq, Eq, Structural)]
pub enum ChannelKind {
    Room,
    Direct,
}

/// The selected contact: a kind of list and, if any, the id of the room or
/// user selected in it.
#[derive(Debug, Clone, Copy, PartialEq, Eq, Structural)]
pub struct ActiveChannel {
    pub kind: ChannelKind,
    pub id: Option<u128>,
}

/// The screen shown.
#[derive(Debug, Clone, Copy, PartialEq, Eq, Structural)]
pub enum ActiveScreen {
    Main,
    Entry,
}

/// The input field of the entry screen that receives typing.
#[derive(Debug, Clone, Copy, PartialEq, Eq, Structural)]
pub enum ActiveEntryInput {
    Username,
    Password,
    RepeatPassword,
}

/// The form of the entry screen.
#[derive(Debug, Clone, Copy, PartialEq, Eq, Structural)]
pub enum ActiveEntryScreen {
    ASLogin,
    ASRegister,
}

/// A message to the application as a whole.
#[derive(Debug, Clone, Copy, PartialEq, Eq, Structural)]
pub enum AppMsg {
    Quit,
}

/// The half of the main screen that receives keys.
#[derive(Debug, Clone, Copy, PartialEq, Eq, Structural)]
pub enum Focus {
    Contacts,
    Messages,
}

/// The input field of the room form that receives typing.
#[derive(Debug, Clone, Copy, PartialEq, Eq, Structural)]
pub enum ActiveCreateRoomInput {
    Name,
    Password,
}

/// What the room form does on submit.
#[derive(Debug, Clone, Copy, PartialEq, Eq, Structural)]
pub enum RoomAction {
    Create,
    Join,
}

/// What the file selector does with a chosen file.
#[derive(Debug, Clone, Copy, PartialEq, Eq, Structural)]
pub enum FileAction {
    ASCII,
    File,
}

/// Whether an entry of the file selector is a folder or a file.
#[derive(Debug, Clone, Copy, PartialEq, Eq, Structural)]
pub enum SelectorEntryKind {
    Folder,
    File,
}

/// An entry of the file selector.
#[derive(Debug)]
pub struct SelectorEntry {
    pub name: String,
    pub kind: SelectorEntryKind,
    pub selected: bool,
}

/// An entry of the file selector as a value.
pub struct SelectorEntryView {
    pub name: Seq<char>,
    pub kind: SelectorEntryKind,
    pub selected: bool,
}

impl View for SelectorEntry {
    type V = SelectorEntryView;

    open spec fn view(&self) -> SelectorEntryView {
        SelectorEntryView { name: self.name@, kind: self.kind, selected: self.selected }
    }
}

/// A colour of the interface: one given by its red, green and blue parts, or
/// one of the terminal's named colours.
#[derive(Debug, Clone, Copy, PartialEq, Eq, Structural)]
pub enum Color {
    Rgb(u8, u8, u8),
    White,
    DarkGray,
}

/// The dark yellow of the theme.
pub open spec fn theme_yellow_dark() -> Color {
    Color::Rgb(219, 188, 127)
}

/// The light yellow of the theme.
pub open spec fn theme_yellow_light() -> Color {
    Color::Rgb(92, 107, 85)
}

/// The empty holder of process-wide state.
pub struct Global;

impl Global {

}

} // verus!
