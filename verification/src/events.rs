//! Keys pressed in the terminal, and what the client does with them on each
//! screen. The handlers change the client's state and return the one thing
//! left for the caller to do: pass the key to a text field, send a message,
//! list a folder, or read and send a file.
use vstd::prelude::*;
use crate::auth::{auth_msg_view, entry_submitted, AuthMsgView};
use crate::client::{
    focus_switched, kind_switched, message_sent, moved_down, moved_up, scrolled_down, scrolled_up,
    App, AppView,
};
use crate::file_selector::{
    fs_close_folder, fs_down, fs_open, fs_opens, fs_switched, fs_up, path_views, FileSelectorView,
};
use crate::room_creator::{submit_request, RoomCreatorView};
use crate::session::{entry_switched, input_down, input_up, logged_out};
use crate::types::{Channel, ClientServerAuthMsg, ClientServerMsg, TextMsgView, User, UserView};
use crate::ui::{
    ActiveCreateRoomInput, ActiveEntryInput, ActiveEntryScreen, ActiveScreen, ChannelKind, FileAction,
    Focus, RoomAction, SelectorEntryKind,
};

verus! {

/// A key, as far as the client tells keys apart.
#[derive(Debug, Clone, Copy, PartialEq, Eq, Structural)]
pub enum KeyCode {
    Char(char),
    Tab,
    Esc,
    Enter,
    Up,
    Down,
    Left,
    Right,
    Other,
}

/// A key event: the key, whether Control was held, and whether the key went
/// down (rather than up or repeating).
#[derive(Debug, Clone, Copy, PartialEq, Eq, Structural)]
pub struct KeyEvent {
    pub code: KeyCode,
    pub ctrl: bool,
    pub press: bool,
}

/// A terminal event: a key, or anything else.
#[derive(Debug, Clone, Copy, PartialEq, Eq, Structural)]
pub enum Event {
    Key(KeyEvent),
    Other,
}

/// The text fields of the client.
#[derive(Debug, Clone, Copy, PartialEq, Eq, Structural)]
pub enum InputField {
    UsernameLogin,
    PasswordLogin,
    UsernameRegister,
    PasswordRegister,
    RepeatPassword,
    MainText,
    RoomName,
    RoomPassword,
}

/// What is left to the caller after a key.
#[derive(Debug)]
pub enum Action {
    /// Nothing.
    Nothing,
    /// Pass the key to this text field.
    TypeInto(InputField),
    /// Send this message, which is sent before logging in.
    SendAuth(ClientServerAuthMsg),
    /// Send this message.
    Send(ClientServerMsg),
    /// List the folder of the file selector again.
    ListFolder,
    /// Return the file selector to the working folder and list it.
    ResetFileSelector,
    /// Send the file at `path` from `from` to `to`, then return the file
    /// selector to the working folder and list it.
    SendFile { path: Vec<String>, to: Channel, from: Channel },
    /// Draw the image at `path` in text and send it from `sender` to `to`.
    SendImage { path: Vec<String>, sender: User, to: Channel },
}

/// Whether `e` is a key going down.
pub open spec fn pressed(e: Event) -> bool {
    e matches Event::Key(k) && k.press
}

/// The key of a key event.
pub open spec fn key_of(e: Event) -> KeyEvent {
    match e {
        Event::Key(k) => k,
        Event::Other => KeyEvent { code: KeyCode::Other, ctrl: false, press: false },
    }
}

/// Whether `k` is Control with the character `c`.
pub open spec fn ctrl_char(k: KeyEvent, c: char) -> bool {
    k.code == KeyCode::Char(c) && k.ctrl
}

/// What a key does on the entry screen.
#[derive(Debug, Clone, Copy, PartialEq, Eq, Structural)]
pub enum EntryStep {
    Ignore,
    Exit,
    Switch,
    Submit,
    Up,
    Down,
    Type,
}

/// What `e` does on the entry screen: Control-C and Esc quit, Tab switches
/// form, Enter submits, the arrows move between fields, other keys type.
pub open spec fn entry_step(e: Event) -> EntryStep {
    let k = key_of(e);
    if !pressed(e) {
        EntryStep::Ignore
    } else if ctrl_char(k, 'c') {
        EntryStep::Exit
    } else if k.code == KeyCode::Tab {
        EntryStep::Switch
    } else if k.code == KeyCode::Esc {
        EntryStep::Exit
    } else if k.code == KeyCode::Enter {
        EntryStep::Submit
    } else if k.code == KeyCode::Up {
        EntryStep::Up
    } else if k.code == KeyCode::Down {
        EntryStep::Down
    } else {
        EntryStep::Type
    }
}

/// The text field of the entry screen that receives typing.
pub open spec fn entry_field(v: AppView) -> InputField {
    match (v.active_entry_screen, v.active_entry_input) {
        (ActiveEntryScreen::ASLogin, ActiveEntryInput::Password) => InputField::PasswordLogin,
        (ActiveEntryScreen::ASLogin, _) => InputField::UsernameLogin,
        (ActiveEntryScreen::ASRegister, ActiveEntryInput::Username) => InputField::UsernameRegister,
        (ActiveEntryScreen::ASRegister, ActiveEntryInput::Password) => InputField::PasswordRegister,
        (ActiveEntryScreen::ASRegister, ActiveEntryInput::RepeatPassword) => InputField::RepeatPassword,
    }
}

/// What a key does on the main screen.
#[derive(Debug, Clone, Copy, PartialEq, Eq, Structural)]
pub enum MainStep {
    Ignore,
    Exit,
    SwitchFocus,
    ShowFileSelector,
    Logout,
    ChannelUp,
    ChannelDown,
    SwitchKind,
    Send,
    ScrollUp,
    ScrollDown,
    Type,
}

/// What `e` does on the main screen. With the focus on the contacts the
/// arrows move the selection and switch between rooms and users; with the
/// focus on the messages they scroll. Control-C quits, Tab moves the focus,
/// Control-F opens the file selector, Esc logs out, Enter sends, and other
/// keys type into the message field.
pub open spec fn main_step(focus: Focus, e: Event) -> MainStep {
    let k = key_of(e);
    if !pressed(e) {
        MainStep::Ignore
    } else if ctrl_char(k, 'c') {
        MainStep::Exit
    } else if k.code == KeyCode::Tab {
        MainStep::SwitchFocus
    } else if ctrl_char(k, 'f') || ctrl_char(k, 'F') {
        MainStep::ShowFileSelector
    } else if k.code == KeyCode::Esc {
        MainStep::Logout
    } else if k.code == KeyCode::Enter {
        MainStep::Send
    } else {
        match focus {
            Focus::Contacts => if k.code == KeyCode::Up {
                MainStep::ChannelUp
            } else if k.code == KeyCode::Down {
                MainStep::ChannelDown
            } else if k.code == KeyCode::Left || k.code == KeyCode::Right {
                MainStep::SwitchKind
            } else {
                MainStep::Type
            },
            Focus::Messages => if k.code == KeyCode::Up {
                MainStep::ScrollUp
            } else if k.code == KeyCode::Down {
                MainStep::ScrollDown
            } else {
                MainStep::Type
            },
        }
    }
}

/// What a key does on the room form.
#[derive(Debug, Clone, Copy, PartialEq, Eq, Structural)]
pub enum RoomStep {
    Ignore,
    Exit,
    Close,
    ToFileSelector,
    Up,
    Down,
    Submit,
    SwitchAction,
    Type,
}

/// What `e` does on the room form: Control-C quits, Control-R and Esc close
/// the form, Control-F goes to the file selector, the arrows move between
/// fields, Enter submits, Tab switches between creating and joining, other
/// keys type.
pub open spec fn room_step(e: Event) -> RoomStep {
    let k = key_of(e);
    if !pressed(e) {
        RoomStep::Ignore
    } else if ctrl_char(k, 'c') {
        RoomStep::Exit
    } else if ctrl_char(k, 'r') || ctrl_char(k, 'R') {
        RoomStep::Close
    } else if ctrl_char(k, 'f') || ctrl_char(k, 'F') {
        RoomStep::ToFileSelector
    } else if k.code == KeyCode::Esc {
        RoomStep::Close
    } else if k.code == KeyCode::Up {
        RoomStep::Up
    } else if k.code == KeyCode::Down {
        RoomStep::Down
    } else if k.code == KeyCode::Enter {
        RoomStep::Submit
    } else if k.code == KeyCode::Tab {
        RoomStep::SwitchAction
    } else {
        RoomStep::Type
    }
}

/// What a key does in the file selector.
#[derive(Debug, Clone, Copy, PartialEq, Eq, Structural)]
pub enum FileStep {
    Ignore,
    Exit,
    Close,
    ToRoomCreator,
    SwitchAction,
    Up,
    Down,
    Left,
    Right,
    Enter,
    Type,
}

/// What `e` does in the file selector: Control-C quits, Control-F and Esc
/// close it, Control-R goes to the room form, Tab switches between sending
/// files and images, the arrows move the cursor and between folders, Enter
/// chooses the entry, and other keys go to the login name field.
pub open spec fn file_step(e: Event) -> FileStep {
    let k = key_of(e);
    if !pressed(e) {
        FileStep::Ignore
    } else if ctrl_char(k, 'c') {
        FileStep::Exit
    } else if ctrl_char(k, 'F') || ctrl_char(k, 'f') {
        FileStep::Close
    } else if ctrl_char(k, 'r') || ctrl_char(k, 'R') {
        FileStep::ToRoomCreator
    } else if k.code == KeyCode::Tab {
        FileStep::SwitchAction
    } else if k.code == KeyCode::Esc {
        FileStep::Close
    } else if k.code == KeyCode::Up {
        FileStep::Up
    } else if k.code == KeyCode::Down {
        FileStep::Down
    } else if k.code == KeyCode::Left {
        FileStep::Left
    } else if k.code == KeyCode::Right {
        FileStep::Right
    } else if k.code == KeyCode::Enter {
        FileStep::Enter
    } else {
        FileStep::Type
    }
}

/// The key's step on the entry screen, computed.
pub fn classify_entry(e: Event) -> (s: EntryStep)
    ensures
        s == entry_step(e),
{
    match e {
        Event::Other => EntryStep::Ignore,
        Event::Key(k) => if !k.press {
            EntryStep::Ignore
        } else if k.code == KeyCode::Char('c') && k.ctrl {
            EntryStep::Exit
        } else if k.code == KeyCode::Tab {
            EntryStep::Switch
        } else if k.code == KeyCode::Esc {
            EntryStep::Exit
        } else if k.code == KeyCode::Enter {
            EntryStep::Submit
        } else if k.code == KeyCode::Up {
            EntryStep::Up
        } else if k.code == KeyCode::Down {
            EntryStep::Down
        } else {
            EntryStep::Type
        },
    }
}

/// The key's step on the main screen, computed.
pub fn classify_main(focus: Focus, e: Event) -> (s: MainStep)
    ensures
        s == main_step(focus, e),
{
    match e {
        Event::Other => MainStep::Ignore,
        Event::Key(k) => if !k.press {
            MainStep::Ignore
        } else if k.code == KeyCode::Char('c') && k.ctrl {
            MainStep::Exit
        } else if k.code == KeyCode::Tab {
            MainStep::SwitchFocus
        } else if (k.code == KeyCode::Char('f') || k.code == KeyCode::Char('F')) && k.ctrl {
            MainStep::ShowFileSelector
        } else if k.code == KeyCode::Esc {
            MainStep::Logout
        } else if k.code == KeyCode::Enter {
            MainStep::Send
        } else {
            match focus {
                Focus::Contacts => if k.code == KeyCode::Up {
                    MainStep::ChannelUp
                } else if k.code == KeyCode::Down {
                    MainStep::ChannelDown
                } else if k.code == KeyCode::Left || k.code == KeyCode::Right {
                    MainStep::SwitchKind
                } else {
                    MainStep::Type
                },
                Focus::Messages => if k.code == KeyCode::Up {
                    MainStep::ScrollUp
                } else if k.code == KeyCode::Down {
                    MainStep::ScrollDown
                } else {
                    MainStep::Type
                },
            }
        },
    }
}

/// The key's step on the room form, computed.
pub fn classify_room(e: Event) -> (s: RoomStep)
    ensures
        s == room_step(e),
{
    match e {
        Event::Other => RoomStep::Ignore,
        Event::Key(k) => if !k.press {
            RoomStep::Ignore
        } else if k.code == KeyCode::Char('c') && k.ctrl {
            RoomStep::Exit
        } else if (k.code == KeyCode::Char('r') || k.code == KeyCode::Char('R')) && k.ctrl {
            RoomStep::Close
        } else if (k.code == KeyCode::Char('f') || k.code == KeyCode::Char('F')) && k.ctrl {
            RoomStep::ToFileSelector
        } else if k.code == KeyCode::Esc {
            RoomStep::Close
        } else if k.code == KeyCode::Up {
            RoomStep::Up
        } else if k.code == KeyCode::Down {
            RoomStep::Down
        } else if k.code == KeyCode::Enter {
            RoomStep::Submit
        } else if k.code == KeyCode::Tab {
            RoomStep::SwitchAction
        } else {
            RoomStep::Type
        },
    }
}

/// The key's step in the file selector, computed.
pub fn classify_file(e: Event) -> (s: FileStep)
    ensures
        s == file_step(e),
{
    match e {
        Event::Other => FileStep::Ignore,
        Event::Key(k) => if !k.press {
            FileStep::Ignore
        } else if k.code == KeyCode::Char('c') && k.ctrl {
            FileStep::Exit
        } else if (k.code == KeyCode::Char('F') || k.code == KeyCode::Char('f')) && k.ctrl {
            FileStep::Close
        } else if (k.code == KeyCode::Char('r') || k.code == KeyCode::Char('R')) && k.ctrl {
            FileStep::ToRoomCreator
        } else if k.code == KeyCode::Tab {
            FileStep::SwitchAction
        } else if k.code == KeyCode::Esc {
            FileStep::Close
        } else if k.code == KeyCode::Up {
            FileStep::Up
        } else if k.code == KeyCode::Down {
            FileStep::Down
        } else if k.code == KeyCode::Left {
            FileStep::Left
        } else if k.code == KeyCode::Right {
            FileStep::Right
        } else if k.code == KeyCode::Enter {
            FileStep::Enter
        } else {
            FileStep::Type
        },
    }
}

/// The room form with the other action.
pub open spec fn rc_switched(v: RoomCreatorView) -> RoomCreatorView {
    RoomCreatorView {
        active_action: match v.active_action {
            RoomAction::Create => RoomAction::Join,
            RoomAction::Join => RoomAction::Create,
        },
        ..v
    }
}

/// The channel that the selection `(kind, id)` addresses.
pub open spec fn channel_to(kind: ChannelKind, id: u128) -> Channel {
    match kind {
        ChannelKind::Direct => Channel::User(id),
        ChannelKind::Room => Channel::Room(id),
    }
}

/// Where a file sent to the selection `(kind, id)` says it comes from: the
/// user itself for a direct channel, the room for a room.
pub open spec fn channel_from(kind: ChannelKind, id: u128, me: u128) -> Channel {
    match kind {
        ChannelKind::Direct => Channel::User(me),
        ChannelKind::Room => Channel::Room(id),
    }
}

/// Handling a key on the entry screen; see `entry_step`.
pub open spec fn entry_event_done(v0: AppView, event: Event, v1: AppView, a: Action) -> bool {
    match entry_step(event) {
        EntryStep::Ignore => v1 == v0 && a is Nothing,
        EntryStep::Exit => v1 == (AppView { exit: true, ..v0 })
            && a is Nothing,
        EntryStep::Switch => v1 == entry_switched(v0) && a is Nothing,
        EntryStep::Submit => v1 == entry_submitted(v0).0 && match entry_submitted(
            v0,
        ).1 {
            None => a is Nothing,
            Some(m) => a matches Action::SendAuth(s) && auth_msg_view(Some(s)) == Some(m),
        },
        EntryStep::Up => v1 == input_up(v0) && a is Nothing,
        EntryStep::Down => v1 == input_down(v0) && a is Nothing,
        EntryStep::Type => v1 == v0 && a == Action::TypeInto(
            entry_field(v0),
        ),
    }
}

/// Handling a key on the main screen; see `main_step`.
pub open spec fn main_event_done(v0: AppView, event: Event, v1: AppView, a: Action) -> bool {
    match main_step(v0.focus, event) {
        MainStep::Ignore => v1 == v0 && a is Nothing,
        MainStep::Exit => v1 == (AppView { exit: true, ..v0 })
            && a is Nothing,
        MainStep::SwitchFocus => v1 == focus_switched(v0) && a is Nothing,
        MainStep::ShowFileSelector => v1 == (AppView {
            display_file_selector: true,
            ..v0
        }) && a is Nothing,
        MainStep::Logout => v1 == logged_out(v0) && a matches Action::Send(
            ClientServerMsg::Logout,
        ),
        MainStep::ChannelUp => v1 == moved_up(v0) && a is Nothing,
        MainStep::ChannelDown => v1 == moved_down(v0) && a is Nothing,
        MainStep::SwitchKind => v1 == kind_switched(v0) && a is Nothing,
        MainStep::Send => v1 == message_sent(v0).0 && match message_sent(
            v0,
        ).1 {
            None => a is Nothing,
            Some(m) => a matches Action::Send(ClientServerMsg::Text(t)) && t@ == m,
        },
        MainStep::ScrollUp => v1 == scrolled_up(v0) && a is Nothing,
        MainStep::ScrollDown => v1 == scrolled_down(v0) && a is Nothing,
        MainStep::Type => v1 == v0 && a == Action::TypeInto(
            InputField::MainText,
        ),
    }
}

/// Handling a key on the room form; see `room_step`.
pub open spec fn room_event_done(v0: AppView, event: Event, v1: AppView, a: Action) -> bool {
    match room_step(event) {
        RoomStep::Ignore => v1 == v0 && a is Nothing,
        RoomStep::Exit => v1 == (AppView { exit: true, ..v0 })
            && a is Nothing,
        RoomStep::Close => v1 == (AppView {
            display_room_creator: false,
            ..v0
        }) && a is Nothing,
        RoomStep::ToFileSelector => v1 == (AppView {
            display_room_creator: false,
            display_file_selector: true,
            ..v0
        }) && a is Nothing,
        RoomStep::Up => v1 == (AppView {
            room_creator: RoomCreatorView {
                active_input: ActiveCreateRoomInput::Name,
                ..v0.room_creator
            },
            ..v0
        }) && a is Nothing,
        RoomStep::Down => v1 == (AppView {
            room_creator: RoomCreatorView {
                active_input: ActiveCreateRoomInput::Password,
                ..v0.room_creator
            },
            ..v0
        }) && a is Nothing,
        RoomStep::Submit => v1 == v0 && (a matches Action::Send(m)
            && submit_request(
            v0.room_creator.room_name,
            v0.room_creator.room_password,
            v0.room_creator.active_action,
            m,
        )),
        RoomStep::SwitchAction => v1 == (AppView {
            room_creator: rc_switched(v0.room_creator),
            ..v0
        }) && a is Nothing,
        RoomStep::Type => v1 == v0 && a == Action::TypeInto(
            match v0.room_creator.active_input {
                ActiveCreateRoomInput::Name => InputField::RoomName,
                ActiveCreateRoomInput::Password => InputField::RoomPassword,
            },
        ),
    }
}

/// Choosing the entry under the cursor of the file selector.
pub open spec fn file_enter_done(v0: AppView, v1: AppView, a: Action) -> bool {
    ({
        let v = v0;
        let fs = v.file_selector;
        let e = fs.entries[fs.selected_index as int];
        let path = fs.current_location.push(e.name);
        match (e.kind, fs.active_action) {
            (SelectorEntryKind::Folder, _) => if e.name == seq!['.', '.', '/'] {
                v1 == (AppView { file_selector: fs_close_folder(fs), ..v })
                    && a is ListFolder
            } else {
                v1 == (AppView { file_selector: fs_open(fs), ..v })
                    && a is ListFolder
            },
            (SelectorEntryKind::File, FileAction::File) => {
                &&& v1 == (AppView {
                    file_selector: FileSelectorView { current_location: path, ..fs },
                    display_file_selector: false,
                    ..v
                })
                &&& match v.active_channel.id {
                    None => a is ResetFileSelector,
                    Some(id) => a matches Action::SendFile { path: p, to, from }
                        && path_views(p@) == path && to == channel_to(
                        v.active_channel.kind,
                        id,
                    ) && from == channel_from(v.active_channel.kind, id, v.id),
                }
            },
            (SelectorEntryKind::File, FileAction::ASCII) => {
                &&& v1 == v
                &&& match v.active_channel.id {
                    None => a is Nothing,
                    Some(id) => a matches Action::SendImage { path: p, sender: from, to }
                        && path_views(p@) == path && from@ == (UserView {
                        username: v.username,
                        id: v.id,
                    }) && to == channel_to(v.active_channel.kind, id),
                }
            },
        }
    })
}

/// Handling a key in the file selector; see `file_step`.
pub open spec fn file_event_done(v0: AppView, event: Event, v1: AppView, a: Action) -> bool {
    ({
        let v = v0;
        let fs = v.file_selector;
        match file_step(event) {
            FileStep::Ignore => v1 == v && a is Nothing,
            FileStep::Exit => v1 == (AppView { exit: true, ..v }) && a is Nothing,
            FileStep::Close => v1 == (AppView {
                display_file_selector: false,
                ..v
            }) && a is ResetFileSelector,
            FileStep::ToRoomCreator => v1 == (AppView {
                display_room_creator: true,
                display_file_selector: false,
                ..v
            }) && a is Nothing,
            FileStep::SwitchAction => v1 == (AppView {
                file_selector: fs_switched(fs),
                ..v
            }) && a is ListFolder,
            FileStep::Up => v1 == (AppView { file_selector: fs_up(fs), ..v })
                && a is ListFolder,
            FileStep::Down => v1 == (AppView { file_selector: fs_down(fs), ..v })
                && a is ListFolder,
            FileStep::Left => v1 == (AppView {
                file_selector: fs_close_folder(fs),
                ..v
            }) && a is ListFolder,
            FileStep::Right => v1 == (AppView {
                file_selector: fs_open(fs),
                ..v
            }) && (if fs_opens(fs) {
                a is ListFolder
            } else {
                a is Nothing
            }),
            FileStep::Enter => file_enter_done(v0, v1, a),
            FileStep::Type => v1 == v && a == Action::TypeInto(
                InputField::UsernameLogin,
            ),
        }
    })
}

impl App {
    /// The text field of the entry screen that receives typing.
    pub fn handle_input_event(&self) -> (f: InputField)
        requires
            self.entry_input_valid(),
        ensures
            f == entry_field(self@),
    {
        match (self.active_entry_screen, self.active_entry_input) {
            (ActiveEntryScreen::ASLogin, ActiveEntryInput::Password) => InputField::PasswordLogin,
            (ActiveEntryScreen::ASLogin, _) => InputField::UsernameLogin,
            (ActiveEntryScreen::ASRegister, ActiveEntryInput::Username) => InputField::UsernameRegister,
            (ActiveEntryScreen::ASRegister, ActiveEntryInput::Password) => InputField::PasswordRegister,
            (ActiveEntryScreen::ASRegister, ActiveEntryInput::RepeatPassword) => InputField::RepeatPassword,
        }
    }

    /// Handles a key on the entry screen; see `entry_step`.
    pub fn handle_entry_screen_event(&mut self, event: Event) -> (a: Action)
        requires
            (entry_step(event) == EntryStep::Up || entry_step(event) == EntryStep::Down
                || entry_step(event) == EntryStep::Type) ==> old(self).entry_input_valid(),
        ensures
            entry_event_done(old(self)@, event, final(self)@, a),

    {
        match classify_entry(event) {
            EntryStep::Ignore => Action::Nothing,
            EntryStep::Exit => {
                self.exit();
                Action::Nothing
            },
            EntryStep::Switch => {
                self.switch_entry_screen();
                Action::Nothing
            },
            EntryStep::Submit => match self.handle_entry_enter() {
                None => Action::Nothing,
                Some(m) => Action::SendAuth(m),
            },
            EntryStep::Up => {
                self.move_active_input_up();
                Action::Nothing
            },
            EntryStep::Down => {
                self.move_active_input_down();
                Action::Nothing
            },
            EntryStep::Type => Action::TypeInto(self.handle_input_event()),
        }
    }

    /// Handles a key on the main screen; see `main_step`.
    pub fn handle_main_screen_event(&mut self, event: Event) -> (a: Action)
        requires
            (main_step(old(self).focus, event) == MainStep::ChannelUp || main_step(
                old(self).focus,
                event,
            ) == MainStep::ChannelDown) ==> old(self).active_id_listed(),
            main_step(old(self).focus, event) == MainStep::ScrollUp ==> (old(self).main_scroll_offset
                == 0 || old(self).main_scroll_offset >= 3),
        ensures
            main_event_done(old(self)@, event, final(self)@, a),

    {
        match classify_main(self.focus, event) {
            MainStep::Ignore => Action::Nothing,
            MainStep::Exit => {
                self.exit();
                Action::Nothing
            },
            MainStep::SwitchFocus => {
                self.switch_focus();
                Action::Nothing
            },
            MainStep::ShowFileSelector => {
                self.display_file_selector = true;
                Action::Nothing
            },
            MainStep::Logout => Action::Send(self.logout()),
            MainStep::ChannelUp => {
                self.move_active_channel_up();
                Action::Nothing
            },
            MainStep::ChannelDown => {
                self.move_active_channel_down();
                Action::Nothing
            },
            MainStep::SwitchKind => {
                self.switch_channel_kind();
                Action::Nothing
            },
            MainStep::Send => match self.send_message() {
                None => Action::Nothing,
                Some(m) => Action::Send(m),
            },
            MainStep::ScrollUp => {
                self.move_scrollbar_up();
                Action::Nothing
            },
            MainStep::ScrollDown => {
                self.move_scrollbar_down();
                Action::Nothing
            },
            MainStep::Type => Action::TypeInto(InputField::MainText),
        }
    }

    /// The request that submitting the room form sends.
    pub fn handle_room_submit(&self) -> (msg: ClientServerMsg)
        ensures
            submit_request(
                self@.room_creator.room_name,
                self@.room_creator.room_password,
                self@.room_creator.active_action,
                msg,
            ),
    {
        self.room_creator.submit()
    }

    /// Handles a key on the room form; see `room_step`.
    pub fn handle_create_room_event(&mut self, event: Event) -> (a: Action)
        ensures
            room_event_done(old(self)@, event, final(self)@, a),

    {
        match classify_room(event) {
            RoomStep::Ignore => Action::Nothing,
            RoomStep::Exit => {
                self.exit();
                Action::Nothing
            },
            RoomStep::Close => {
                self.display_room_creator = false;
                Action::Nothing
            },
            RoomStep::ToFileSelector => {
                self.display_room_creator = false;
                self.display_file_selector = true;
                Action::Nothing
            },
            RoomStep::Up => {
                self.room_creator.move_active_input_up();
                Action::Nothing
            },
            RoomStep::Down => {
                self.room_creator.move_active_input_down();
                Action::Nothing
            },
            RoomStep::Submit => Action::Send(self.handle_room_submit()),
            RoomStep::SwitchAction => {
                self.room_creator.switch_action();
                Action::Nothing
            },
            RoomStep::Type => {
                if self.room_creator.active_input == ActiveCreateRoomInput::Name {
                    Action::TypeInto(InputField::RoomName)
                } else {
                    Action::TypeInto(InputField::RoomPassword)
                }
            },
        }
    }

    /// Closes the file selector; the caller returns it to the working folder.
    pub fn close_file_selector(&mut self) -> (a: Action)
        ensures
            final(self)@ == (AppView { display_file_selector: false, ..old(self)@ }),
            a is ResetFileSelector,
    {
        self.display_file_selector = false;
        Action::ResetFileSelector
    }

    /// Chooses the entry under the cursor of the file selector. A folder is
    /// entered, or left for the parent with the parent entry. A file is sent
    /// to the selected contact: as a file, which also closes the selector and
    /// returns it to the working folder, or as an image drawn in text. A file
    /// is not sent while no contact is selected; an image then does nothing.
    pub fn handle_file_selector_enter(&mut self) -> (a: Action)
        requires
            old(self).file_selector.selected_index < old(self).file_selector.entries@.len(),
        ensures
            file_enter_done(old(self)@, final(self)@, a),

    {
        let i = self.file_selector.selected_index;
        let kind = self.file_selector.entries[i].kind;
        let action = self.file_selector.active_action;
        match kind {
            SelectorEntryKind::Folder => {
                let name = self.file_selector.entries[i].name.clone();
                let v = crate::text::chars_of(name.as_str());
                let is_back = v.len() == 3 && v[0] == '.' && v[1] == '.' && v[2] == '/';
                proof {
                    let t = seq!['.', '.', '/'];
                    assert(t.len() == 3 && t[0] == '.' && t[1] == '.' && t[2] == '/');
                    if is_back {
                        assert(v@ =~= t);
                    }
                }
                let ghost fs0 = self.file_selector@;
                assert(fs0.entries[i as int].name == name@);
                if is_back {
                    self.file_selector.close_current_folder();
                    assert(self.file_selector@ == fs_close_folder(fs0));
                } else {
                    self.file_selector.open_folder();
                    assert(fs_opens(fs0));
                    assert(self.file_selector@.current_location =~= fs_open(fs0).current_location);
                    assert(self.file_selector@ == fs_open(fs0));
                }
                Action::ListFolder
            },
            SelectorEntryKind::File => {
                let name = self.file_selector.entries[i].name.clone();
                let mut path = copy_strings(&self.file_selector.current_location);
                let ghost before = path@;
                path.push(name);
                proof {
                    assert(path_views(path@) == path_views(before).push(name@));
                }
                match action {
                    FileAction::File => {
                        self.file_selector.current_location = copy_strings(&path);
                        self.display_file_selector = false;
                        match self.active_channel.id {
                            None => Action::ResetFileSelector,
                            Some(id) => {
                                let to = match self.active_channel.kind {
                                    ChannelKind::Direct => Channel::User(id),
                                    ChannelKind::Room => Channel::Room(id),
                                };
                                let from = match self.active_channel.kind {
                                    ChannelKind::Direct => Channel::User(self.id),
                                    ChannelKind::Room => Channel::Room(id),
                                };
                                Action::SendFile { path, to, from }
                            },
                        }
                    },
                    FileAction::ASCII => match self.active_channel.id {
                        None => Action::Nothing,
                        Some(id) => {
                            let to = match self.active_channel.kind {
                                ChannelKind::Direct => Channel::User(id),
                                ChannelKind::Room => Channel::Room(id),
                            };
                            let from = User { username: self.username.clone(), id: self.id };
                            Action::SendImage { path, sender: from, to }
                        },
                    },
                }
            },
        }
    }

    /// Handles a key in the file selector; see `file_step`. Moves of the
    /// cursor and between folders ask for the folder to be listed again.
    pub fn handle_file_selector_key_event(&mut self, event: Event) -> (a: Action)
        requires
            old(self).file_selector.wf(),
            file_step(event) == FileStep::Down ==> old(self).file_selector.selected_index
                < usize::MAX,
            (file_step(event) == FileStep::Right || file_step(event) == FileStep::Enter)
                ==> old(self).file_selector.selected_index < old(self).file_selector.entries@.len(),
        ensures
            file_event_done(old(self)@, event, final(self)@, a),

    {
        match classify_file(event) {
            FileStep::Ignore => Action::Nothing,
            FileStep::Exit => {
                self.exit();
                Action::Nothing
            },
            FileStep::Close => self.close_file_selector(),
            FileStep::ToRoomCreator => {
                self.display_room_creator = true;
                self.display_file_selector = false;
                Action::Nothing
            },
            FileStep::SwitchAction => {
                self.file_selector.switch_action();
                Action::ListFolder
            },
            FileStep::Up => {
                self.file_selector.move_up();
                Action::ListFolder
            },
            FileStep::Down => {
                self.file_selector.move_down();
                Action::ListFolder
            },
            FileStep::Left => {
                self.file_selector.close_current_folder();
                Action::ListFolder
            },
            FileStep::Right => {
                if self.file_selector.open_folder() {
                    Action::ListFolder
                } else {
                    Action::Nothing
                }
            },
            FileStep::Enter => self.handle_file_selector_enter(),
            FileStep::Type => Action::TypeInto(InputField::UsernameLogin),
        }
    }

    /// Handles a terminal event on the screen shown: the entry screen, or on
    /// the main screen the file selector, the room form, or the main view.
    pub fn handle_events(&mut self, event: Event) -> (a: Action)
        requires
            old(self).file_selector.wf(),
            old(self).active_screen == ActiveScreen::Entry ==> ((entry_step(event) == EntryStep::Up
                || entry_step(event) == EntryStep::Down || entry_step(event) == EntryStep::Type)
                ==> old(self).entry_input_valid()),
            old(self).active_screen == ActiveScreen::Main && !old(self).display_file_selector
                && !old(self).display_room_creator ==> {
                &&& (main_step(old(self).focus, event) == MainStep::ChannelUp || main_step(
                    old(self).focus,
                    event,
                ) == MainStep::ChannelDown) ==> old(self).active_id_listed()
                &&& main_step(old(self).focus, event) == MainStep::ScrollUp ==> (
                old(self).main_scroll_offset == 0 || old(self).main_scroll_offset >= 3)
            },
            old(self).active_screen == ActiveScreen::Main && old(self).display_file_selector ==> {
                &&& file_step(event) == FileStep::Down ==> old(self).file_selector.selected_index
                    < usize::MAX
                &&& (file_step(event) == FileStep::Right || file_step(event) == FileStep::Enter)
                    ==> old(self).file_selector.selected_index
                    < old(self).file_selector.entries@.len()
            },
        ensures
            old(self).wf() ==> final(self).wf(),
            match old(self)@.active_screen {
                ActiveScreen::Entry => entry_event_done(old(self)@, event, final(self)@, a),
                ActiveScreen::Main => if old(self)@.display_file_selector {
                    file_event_done(old(self)@, event, final(self)@, a)
                } else if old(self)@.display_room_creator {
                    room_event_done(old(self)@, event, final(self)@, a)
                } else {
                    main_event_done(old(self)@, event, final(self)@, a)
                },
            },
    {
        match self.active_screen {
            ActiveScreen::Entry => self.handle_entry_screen_event(event),
            ActiveScreen::Main => {
                if self.display_file_selector {
                    self.handle_file_selector_key_event(event)
                } else if self.display_room_creator {
                    self.handle_create_room_event(event)
                } else {
                    self.handle_main_screen_event(event)
                }
            },
        }
    }
}

/// A copy of a list of strings.
pub fn copy_strings(v: &Vec<String>) -> (out: Vec<String>)
    ensures
        path_views(out@) == path_views(v@),
{
    let mut out: Vec<String> = Vec::new();
    let mut i: usize = 0;
    while i < v.len()
        invariant
            i <= v.len(),
            path_views(out@) == path_views(v@.subrange(0, i as int)),
        decreases v.len() - i,
    {
        let ghost before = out@;
        out.push(v[i].clone());
        proof {
            assert(path_views(out@) == path_views(before).push(v@[i as int]@));
            assert(v@.subrange(0, i + 1) == v@.subrange(0, i as int).push(v@[i as int]));
            assert(path_views(v@.subrange(0, i + 1)) == path_views(v@.subrange(0, i as int)).push(
                v@[i as int]@,
            ));
        }
        i = i + 1;
    }
    assert(v@.subrange(0, v@.len() as int) == v@);
    out
}

} // verus!
