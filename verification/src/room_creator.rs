//! The form for creating or joining a room.
use vstd::prelude::*;
use crate::text::{chars_of, join, join_spec, string_from_chars, string_views, trim, trim_chars};
use crate::types::{ClientServerMsg, RoomUpdateTransit};
use crate::ui::{ActiveCreateRoomInput, RoomAction};

verus! {

/// The lines of an input field that holds no text.
pub open spec fn empty_input() -> Seq<Seq<char>> {
    seq![Seq::<char>::empty()]
}

/// An input field that holds no text: one empty line.
pub fn new_input() -> (lines: Vec<String>)
    ensures
        string_views(lines@) == empty_input(),
{
    let mut lines: Vec<String> = Vec::new();
    lines.push(String::new());
    proof {
        assert(string_views(lines@) =~= empty_input());
    }
    lines
}

/// The text of an input field: its lines joined with `sep`, without leading
/// and trailing whitespace.
pub fn trimmed_text(lines: &[String], sep: &str) -> (s: String)
    ensures
        s@ == trim(join_spec(string_views(lines@), sep@)),
{
    let joined = join(lines, sep);
    let chars = chars_of(joined.as_str());
    let t = trim_chars(chars.as_slice());
    string_from_chars(t.as_slice())
}

/// The room form: the lines of its two input fields, a notification, the
/// field that receives typing, and whether it creates or joins.
pub struct RoomCreator {
    pub room_name: Vec<String>,
    pub room_password: Vec<String>,
    pub notification: Option<String>,
    pub active_input: ActiveCreateRoomInput,
    pub active_action: RoomAction,
}

/// The room form as a value.
pub struct RoomCreatorView {
    pub room_name: Seq<Seq<char>>,
    pub room_password: Seq<Seq<char>>,
    pub notification: Option<Seq<char>>,
    pub active_input: ActiveCreateRoomInput,
    pub active_action: RoomAction,
}

/// The view of an optional string.
pub open spec fn opt_view(s: Option<String>) -> Option<Seq<char>> {
    match s {
        Some(t) => Some(t@),
        None => None,
    }
}

impl View for RoomCreator {
    type V = RoomCreatorView;

    open spec fn view(&self) -> RoomCreatorView {
        RoomCreatorView {
            room_name: string_views(self.room_name@),
            room_password: string_views(self.room_password@),
            notification: opt_view(self.notification),
            active_input: self.active_input,
            active_action: self.active_action,
        }
    }
}

/// What submitting the form sends: the trimmed room name, the trimmed
/// password or none when it is empty, as a request to create or to join.
pub open spec fn submit_request(
    name: Seq<Seq<char>>,
    password: Seq<Seq<char>>,
    action: RoomAction,
    sent: ClientServerMsg,
) -> bool {
    let n = trim(join_spec(name, Seq::empty()));
    let p = trim(join_spec(password, Seq::empty()));
    match (action, sent) {
        (RoomAction::Create, ClientServerMsg::CreateRoom(t)) => transit_holds(t, n, p),
        (RoomAction::Join, ClientServerMsg::JoinRoom(t)) => transit_holds(t, n, p),
        _ => false,
    }
}

/// Whether `t` names room `name` with password `password`, no password
/// standing for an empty one.
pub open spec fn transit_holds(t: RoomUpdateTransit, name: Seq<char>, password: Seq<char>) -> bool {
    &&& t.room_name@ == name
    &&& if password.len() == 0 {
        t.room_password is None
    } else {
        t.room_password matches Some(q) && q@ == password
    }
}

impl RoomCreator {
    /// An empty form that creates a room, with the name field active.
    pub fn new() -> (rc: RoomCreator)
        ensures
            string_views(rc.room_name@) == empty_input(),
            string_views(rc.room_password@) == empty_input(),
            rc.notification is None,
            rc.active_input == ActiveCreateRoomInput::Name,
            rc.active_action == RoomAction::Create,
    {
        RoomCreator {
            room_name: new_input(),
            room_password: new_input(),
            notification: None,
            active_input: ActiveCreateRoomInput::Name,
            active_action: RoomAction::Create,
        }
    }

    /// Makes the name field active.
    pub fn move_active_input_up(&mut self)
        ensures
            final(self).active_input == ActiveCreateRoomInput::Name,
            final(self).room_name@ == old(self).room_name@,
            final(self).room_password@ == old(self).room_password@,
            final(self).notification == old(self).notification,
            final(self).active_action == old(self).active_action,
    {
        self.active_input = ActiveCreateRoomInput::Name;
    }

    /// Makes the password field active.
    pub fn move_active_input_down(&mut self)
        ensures
            final(self).active_input == ActiveCreateRoomInput::Password,
            final(self).room_name@ == old(self).room_name@,
            final(self).room_password@ == old(self).room_password@,
            final(self).notification == old(self).notification,
            final(self).active_action == old(self).active_action,
    {
        self.active_input = ActiveCreateRoomInput::Password;
    }

    /// Switches between creating and joining.
    pub fn switch_action(&mut self)
        ensures
            final(self).active_action == (match old(self).active_action {
                RoomAction::Create => RoomAction::Join,
                RoomAction::Join => RoomAction::Create,
            }),
            final(self).room_name@ == old(self).room_name@,
            final(self).room_password@ == old(self).room_password@,
            final(self).notification == old(self).notification,
            final(self).active_input == old(self).active_input,
    {
        self.active_action = match self.active_action {
            RoomAction::Create => RoomAction::Join,
            RoomAction::Join => RoomAction::Create,
        };
    }

    /// The request that submitting the form sends.
    pub fn submit(&self) -> (msg: ClientServerMsg)
        ensures
            submit_request(
                string_views(self.room_name@),
                string_views(self.room_password@),
                self.active_action,
                msg,
            ),
    {
        proof {
            reveal_strlit("");
        }
        let room_name = trimmed_text(self.room_name.as_slice(), "");
        let password = trimmed_text(self.room_password.as_slice(), "");
        assert(""@ == Seq::<char>::empty());
        let room_password = if password.as_str().is_empty() {
            None
        } else {
            Some(password)
        };
        let transit = RoomUpdateTransit { room_name, room_password };
        match self.active_action {
            RoomAction::Create => ClientServerMsg::CreateRoom(transit),
            RoomAction::Join => ClientServerMsg::JoinRoom(transit),
        }
    }
}

} // verus!
