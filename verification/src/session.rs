//! Logging in and out, registering, and the entry screen's form.
use vstd::prelude::*;
use vstd::string::StringExecFns;
use crate::client::{App, AppView};
use crate::membership::tui_room;
use crate::room_creator::{empty_input, new_input, RoomCreatorView};
use crate::types::{ClientServerMsg, RoomData, RoomDataView, TuiRoomView, User, UserView, tui_room_of};
use crate::ui::{
    ActiveChannel, ActiveEntryInput, ActiveEntryScreen, ActiveScreen, ChannelKind, Notification,
    NotificationView,
};

verus! {

/// The notice shown when the account of `username` was created.
pub open spec fn account_created_text(username: Seq<char>) -> Seq<char> {
    "Account with username "@ + username + " was created."@
}

/// The state after logging out: the login form is shown, the rooms and
/// direct channels are forgotten, the message input is emptied and the
/// notification cleared.
pub open spec fn logged_out(v: AppView) -> AppView {
    AppView {
        active_screen: ActiveScreen::Entry,
        active_entry_screen: ActiveEntryScreen::ASLogin,
        directs: Seq::empty(),
        rooms: Seq::empty(),
        main_text: empty_input(),
        notification: None,
        ..v
    }
}

/// The state after switching between the login and the registration form;
/// leaving the registration form from its repeated-password field makes the
/// name field active.
pub open spec fn entry_switched(v: AppView) -> AppView {
    match v.active_entry_screen {
        ActiveEntryScreen::ASLogin => AppView { active_entry_screen: ActiveEntryScreen::ASRegister, ..v },
        ActiveEntryScreen::ASRegister => AppView {
            active_entry_screen: ActiveEntryScreen::ASLogin,
            active_entry_input: if v.active_entry_input == ActiveEntryInput::RepeatPassword {
                ActiveEntryInput::Username
            } else {
                v.active_entry_input
            },
            ..v
        },
    }
}

/// The state after making the field above the active one active.
pub open spec fn input_up(v: AppView) -> AppView {
    AppView {
        active_entry_input: match v.active_entry_input {
            ActiveEntryInput::RepeatPassword => ActiveEntryInput::Password,
            _ => ActiveEntryInput::Username,
        },
        ..v
    }
}

/// The state after making the field below the active one active; the login
/// form has two fields, the registration form three.
pub open spec fn input_down(v: AppView) -> AppView {
    AppView {
        active_entry_input: match (v.active_entry_screen, v.active_entry_input) {
            (ActiveEntryScreen::ASRegister, ActiveEntryInput::Password) => ActiveEntryInput::RepeatPassword,
            (ActiveEntryScreen::ASRegister, ActiveEntryInput::RepeatPassword) => ActiveEntryInput::RepeatPassword,
            _ => ActiveEntryInput::Password,
        },
        ..v
    }
}

/// The view of a server answer that carries a user or a refusal.
pub open spec fn user_result_view(r: Result<User, String>) -> Result<UserView, Seq<char>> {
    match r {
        Ok(u) => Ok(u@),
        Err(e) => Err(e@),
    }
}

/// The view of a server answer that carries a room or a refusal.
pub open spec fn room_result_view(r: Result<RoomData, String>) -> Result<RoomDataView, Seq<char>> {
    match r {
        Ok(room) => Ok(room@),
        Err(e) => Err(e@),
    }
}

/// The state after the answer to a request to create or join a room: a
/// refusal is shown on the room form; a room is added to the rooms without
/// messages, selected, and the room form closes.
pub open spec fn join_answered(v: AppView, res: Result<RoomDataView, Seq<char>>) -> AppView {
    match res {
        Err(msg) => AppView {
            room_creator: RoomCreatorView { notification: Some(msg), ..v.room_creator },
            ..v
        },
        Ok(room) => AppView {
            active_channel: ActiveChannel { id: Some(room.id), kind: ChannelKind::Room },
            rooms: v.rooms.push(tui_room_of(room)),
            display_room_creator: false,
            ..v
        },
    }
}

/// The state after the answer to a registration: a refusal is shown as a
/// failure; success is announced, the registration form is emptied and the
/// login form shown with the name field active.
pub open spec fn register_answered(v: AppView, res: Result<UserView, Seq<char>>) -> AppView {
    match res {
        Err(msg) => AppView { notification: Some(NotificationView::Failure(msg)), ..v },
        Ok(user) => AppView {
            notification: Some(NotificationView::Success(account_created_text(user.username))),
            password_register: empty_input(),
            username_register: empty_input(),
            repeat_password: empty_input(),
            active_entry_screen: ActiveEntryScreen::ASLogin,
            active_entry_input: ActiveEntryInput::Username,
            ..v
        },
    }
}

/// The state after the answer to a login: a refusal is shown as a failure;
/// on success the client takes on the user's name and id, shows the main
/// screen and empties the entry forms.
pub open spec fn auth_answered(v: AppView, res: Result<UserView, Seq<char>>) -> AppView {
    match res {
        Err(msg) => AppView { notification: Some(NotificationView::Failure(msg)), ..v },
        Ok(user) => AppView {
            username: user.username,
            id: user.id,
            active_screen: ActiveScreen::Main,
            username_login: empty_input(),
            password_login: empty_input(),
            password_register: empty_input(),
            username_register: empty_input(),
            repeat_password: empty_input(),
            ..v
        },
    }
}

impl App {
    /// Handles the answer to a request to create or join a room: a refusal
    /// is shown on the room form; a room is added to the rooms without
    /// messages, selected, and the room form closes.
    pub fn handle_join_room(&mut self, res: Result<RoomData, String>)
        ensures
            final(self)@ == join_answered(old(self)@, room_result_view(res)),
    {
        match res {
            Err(msg) => {
                self.room_creator.notification = Some(msg);
            },
            Ok(room) => {
                let id = room.id;
                self.active_channel = ActiveChannel { id: Some(id), kind: ChannelKind::Room };
                let ghost before = self.room_channels@;
                self.room_channels.push(tui_room(room));
                proof {
                    assert(crate::types::room_views(self.room_channels@) =~= crate::types::room_views(
                        before,
                    ).push(tui_room_of(room@)));
                }
                self.display_room_creator = false;
            },
        }
    }

    /// Handles the answer to a registration: a refusal is shown as a
    /// failure; success is announced, the registration form is emptied and
    /// the login form shown with the name field active.
    pub fn handle_register_response(&mut self, res: Result<User, String>)
        ensures
            final(self)@ == register_answered(old(self)@, user_result_view(res)),
    {
        match res {
            Err(msg) => {
                self.login_screen_notification = Some(Notification::Failure(msg));
            },
            Ok(user) => {
                let mut text = String::new();
                text.append("Account with username ");
                text.append(user.username.as_str());
                text.append(" was created.");
                self.login_screen_notification = Some(Notification::Success(text));
                self.password_register = new_input();
                self.username_register = new_input();
                self.repeat_password = new_input();
                self.active_entry_screen = ActiveEntryScreen::ASLogin;
                self.active_entry_input = ActiveEntryInput::Username;
            },
        }
    }

    /// Handles the answer to a login: a refusal is shown as a failure; on
    /// success the client takes on the user's name and id, shows the main
    /// screen and empties the entry forms.
    pub fn handle_auth_response(&mut self, res: Result<User, String>)
        ensures
            final(self)@ == auth_answered(old(self)@, user_result_view(res)),
    {
        match res {
            Err(msg) => {
                self.login_screen_notification = Some(Notification::Failure(msg));
            },
            Ok(user) => {
                self.username = user.username;
                self.id = user.id;
                self.active_screen = ActiveScreen::Main;
                self.username_login = new_input();
                self.password_login = new_input();
                self.password_register = new_input();
                self.username_register = new_input();
                self.repeat_password = new_input();
            },
        }
    }

    /// Logs out: returns the message that tells the server, shows the login
    /// form, forgets the rooms and direct channels, empties the message input
    /// and clears the notification.
    pub fn logout(&mut self) -> (msg: ClientServerMsg)
        ensures
            msg is Logout,
            final(self)@ == logged_out(old(self)@),
    {
        self.active_screen = ActiveScreen::Entry;
        self.active_entry_screen = ActiveEntryScreen::ASLogin;
        self.direct_channels = Vec::new();
        self.room_channels = Vec::new();
        self.main_text = new_input();
        self.login_screen_notification = None;
        proof {
            assert(crate::types::direct_views(self.direct_channels@) =~= Seq::empty());
            assert(crate::types::room_views(self.room_channels@) =~= Seq::<TuiRoomView>::empty());
        }
        ClientServerMsg::Logout
    }

    /// Switches between the login and the registration form; leaving the
    /// registration form from its repeated-password field makes the name
    /// field active.
    pub fn switch_entry_screen(&mut self)
        ensures
            final(self)@ == entry_switched(old(self)@),
    {
        self.active_entry_screen = match self.active_entry_screen {
            ActiveEntryScreen::ASLogin => ActiveEntryScreen::ASRegister,
            ActiveEntryScreen::ASRegister => {
                if self.active_entry_input == ActiveEntryInput::RepeatPassword {
                    self.active_entry_input = ActiveEntryInput::Username;
                }
                ActiveEntryScreen::ASLogin
            },
        };
    }

    /// Whether the entry screen is consistent: the login form has no
    /// repeated-password field.
    pub open spec fn entry_input_valid(&self) -> bool {
        !(self.active_entry_screen == ActiveEntryScreen::ASLogin && self.active_entry_input
            == ActiveEntryInput::RepeatPassword)
    }

    /// Makes the field above the active one active.
    pub fn move_active_input_up(&mut self)
        requires
            old(self).entry_input_valid(),
        ensures
            final(self)@ == input_up(old(self)@),
    {
        self.active_entry_input = match self.active_entry_input {
            ActiveEntryInput::Username => ActiveEntryInput::Username,
            ActiveEntryInput::Password => ActiveEntryInput::Username,
            ActiveEntryInput::RepeatPassword => ActiveEntryInput::Password,
        };
    }

    /// Makes the field below the active one active; the login form has two
    /// fields, the registration form three.
    pub fn move_active_input_down(&mut self)
        requires
            old(self).entry_input_valid(),
        ensures
            final(self)@ == input_down(old(self)@),
    {
        self.active_entry_input = match (self.active_entry_screen, self.active_entry_input) {
            (ActiveEntryScreen::ASRegister, ActiveEntryInput::Password) => ActiveEntryInput::RepeatPassword,
            (ActiveEntryScreen::ASRegister, ActiveEntryInput::RepeatPassword) => ActiveEntryInput::RepeatPassword,
            _ => ActiveEntryInput::Password,
        };
    }
}

} // verus!
