//! The client's state: who is logged in, the rooms and direct channels with
//! their messages, the selected contact, and the screens and forms. Each
//! handler takes one update from the server or one decision of the user and
//! says exactly what it changes.
use vstd::prelude::*;
use crate::file_selector::{FileSelector, FileSelectorView};
use crate::room_creator::{empty_input, new_input, RoomCreator, RoomCreatorView};
use crate::text::{join, join_spec, string_views};
use crate::types::{
    Channel, ClientServerMsg, ImgRender, ImgRenderView, TextMsg, TextMsgView, User, UserView, ChannelMsg, ChannelMsgView, DirectChannel, DirectChannelView, TuiRoom, TuiRoomView, direct_views,
    msg_views, room_views,
};
use crate::ui::{
    ActiveChannel, ActiveCreateRoomInput, ActiveEntryInput, ActiveEntryScreen, ActiveScreen,
    ChannelKind, Focus, Notification, NotificationView, RoomAction,
};

verus! {

/// The client's state.
pub struct App {
    pub username: String,
    pub id: u128,
    pub exit: bool,
    /// Lines of the input fields of the entry screen.
    pub username_login: Vec<String>,
    pub password_login: Vec<String>,
    pub username_register: Vec<String>,
    pub password_register: Vec<String>,
    pub repeat_password: Vec<String>,
    /// Lines of the message input field of the main screen.
    pub main_text: Vec<String>,
    pub room_channels: Vec<TuiRoom>,
    pub direct_channels: Vec<DirectChannel>,
    pub active_channel: ActiveChannel,
    pub active_screen: ActiveScreen,
    pub active_entry_input: ActiveEntryInput,
    pub active_entry_screen: ActiveEntryScreen,
    pub active_create_room_input: ActiveCreateRoomInput,
    pub display_file_selector: bool,
    pub display_room_creator: bool,
    pub file_selector: FileSelector,
    pub room_creator: RoomCreator,
    pub login_screen_notification: Option<Notification>,
    pub main_scroll_offset: usize,
    pub focus: Focus,
}

/// The client's state as a value.
pub struct AppView {
    pub username: Seq<char>,
    pub id: u128,
    pub exit: bool,
    pub username_login: Seq<Seq<char>>,
    pub password_login: Seq<Seq<char>>,
    pub username_register: Seq<Seq<char>>,
    pub password_register: Seq<Seq<char>>,
    pub repeat_password: Seq<Seq<char>>,
    pub main_text: Seq<Seq<char>>,
    pub rooms: Seq<TuiRoomView>,
    pub directs: Seq<DirectChannelView>,
    pub active_channel: ActiveChannel,
    pub active_screen: ActiveScreen,
    pub active_entry_input: ActiveEntryInput,
    pub active_entry_screen: ActiveEntryScreen,
    pub active_create_room_input: ActiveCreateRoomInput,
    pub display_file_selector: bool,
    pub display_room_creator: bool,
    pub file_selector: FileSelectorView,
    pub room_creator: RoomCreatorView,
    pub notification: Option<NotificationView>,
    pub main_scroll_offset: usize,
    pub focus: Focus,
}

/// The view of an optional notification.
pub open spec fn notification_view(n: Option<Notification>) -> Option<NotificationView> {
    match n {
        Some(m) => Some(m@),
        None => None,
    }
}

impl View for App {
    type V = AppView;

    open spec fn view(&self) -> AppView {
        AppView {
            username: self.username@,
            id: self.id,
            exit: self.exit,
            username_login: string_views(self.username_login@),
            password_login: string_views(self.password_login@),
            username_register: string_views(self.username_register@),
            password_register: string_views(self.password_register@),
            repeat_password: string_views(self.repeat_password@),
            main_text: string_views(self.main_text@),
            rooms: room_views(self.room_channels@),
            directs: direct_views(self.direct_channels@),
            active_channel: self.active_channel,
            active_screen: self.active_screen,
            active_entry_input: self.active_entry_input,
            active_entry_screen: self.active_entry_screen,
            active_create_room_input: self.active_create_room_input,
            display_file_selector: self.display_file_selector,
            display_room_creator: self.display_room_creator,
            file_selector: self.file_selector@,
            room_creator: self.room_creator@,
            notification: notification_view(self.login_screen_notification),
            main_scroll_offset: self.main_scroll_offset,
            focus: self.focus,
        }
    }
}

/// The ids of the rooms, in order.
pub open spec fn room_ids(rooms: Seq<TuiRoomView>) -> Seq<u128> {
    rooms.map_values(|r: TuiRoomView| r.id)
}

/// The ids of the users of the direct channels, in order.
pub open spec fn direct_ids(directs: Seq<DirectChannelView>) -> Seq<u128> {
    directs.map_values(|c: DirectChannelView| c.user.id)
}

/// The index of the first occurrence of `x` in `s`, or -1.
pub open spec fn first_pos(s: Seq<u128>, x: u128) -> int
    decreases s.len(),
{
    if s.len() == 0 {
        -1
    } else if s[0] == x {
        0
    } else {
        let r = first_pos(s.drop_first(), x);
        if r < 0 {
            -1
        } else {
            r + 1
        }
    }
}

/// `first_pos` finds the first occurrence.
pub proof fn lemma_first_pos(s: Seq<u128>, x: u128, i: int)
    requires
        0 <= i <= s.len(),
        forall|k: int| 0 <= k < i ==> s[k] != x,
        i < s.len() ==> s[i] == x,
    ensures
        first_pos(s, x) == (if i < s.len() {
            i
        } else {
            -1
        }),
    decreases i,
{
    if i > 0 {
        assert(s[0] != x);
        lemma_first_pos(s.drop_first(), x, i - 1);
    }
}

/// `first_pos` gives -1 or an index holding `x`.
pub proof fn lemma_first_pos_bounds(s: Seq<u128>, x: u128)
    ensures
        -1 <= first_pos(s, x) < s.len(),
        first_pos(s, x) >= 0 ==> s[first_pos(s, x)] == x,
        first_pos(s, x) < 0 ==> !s.contains(x),
    decreases s.len(),
{
    if s.len() > 0 && s[0] != x {
        lemma_first_pos_bounds(s.drop_first(), x);
        if first_pos(s, x) < 0 {
            assert forall|k: int| 0 <= k < s.len() implies s[k] != x by {
                if k > 0 {
                    assert(s[k] == s.drop_first()[k - 1]);
                }
            }
        }
    }
}

/// The rooms with `m` added in front of the messages of the first room with
/// id `id`, if there is one.
pub open spec fn prepend_room_msg(rooms: Seq<TuiRoomView>, id: u128, m: ChannelMsgView) -> Seq<
    TuiRoomView,
> {
    let i = first_pos(room_ids(rooms), id);
    if i < 0 {
        rooms
    } else {
        rooms.update(i, TuiRoomView { messages: seq![m] + rooms[i].messages, ..rooms[i] })
    }
}

/// The direct channels with `m` added in front of the messages of the first
/// channel with the user whose id is `id`, if there is one.
pub open spec fn prepend_direct_msg(
    directs: Seq<DirectChannelView>,
    id: u128,
    m: ChannelMsgView,
) -> Seq<DirectChannelView> {
    let i = first_pos(direct_ids(directs), id);
    if i < 0 {
        directs
    } else {
        directs.update(i, DirectChannelView { messages: seq![m] + directs[i].messages, ..directs[i] })
    }
}

/// The ids of the list that `kind` selects.
pub open spec fn kind_ids(v: AppView, kind: ChannelKind) -> Seq<u128> {
    match kind {
        ChannelKind::Room => room_ids(v.rooms),
        ChannelKind::Direct => direct_ids(v.directs),
    }
}

/// The selection after moving up in the list `ids`: the previous contact, the
/// first one when nothing is selected, or no change at the top.
pub open spec fn channel_up(ids: Seq<u128>, cur: Option<u128>) -> Option<u128> {
    match cur {
        Some(id) => {
            let i = first_pos(ids, id);
            if i == 0 {
                cur
            } else {
                Some(ids[i - 1])
            }
        },
        None => if ids.len() == 0 {
            None
        } else {
            Some(ids[0])
        },
    }
}

/// The selection after moving down in the list `ids`: the next contact, the
/// first one when nothing is selected, or no change at the bottom.
pub open spec fn channel_down(ids: Seq<u128>, cur: Option<u128>) -> Option<u128> {
    match cur {
        Some(id) => {
            let i = first_pos(ids, id);
            if i == ids.len() - 1 {
                cur
            } else {
                Some(ids[i + 1])
            }
        },
        None => if ids.len() == 0 {
            None
        } else {
            Some(ids[0])
        },
    }
}

/// The other kind of contact list.
pub open spec fn other_kind(k: ChannelKind) -> ChannelKind {
    match k {
        ChannelKind::Room => ChannelKind::Direct,
        ChannelKind::Direct => ChannelKind::Room,
    }
}

/// The first id of a list, if any.
pub open spec fn first_id(ids: Seq<u128>) -> Option<u128> {
    if ids.len() == 0 {
        None
    } else {
        Some(ids[0])
    }
}

/// The state after switching the focus.
pub open spec fn focus_switched(v: AppView) -> AppView {
    AppView {
        focus: match v.focus {
            Focus::Contacts => Focus::Messages,
            Focus::Messages => Focus::Contacts,
        },
        ..v
    }
}

/// The state after showing the other list of contacts: its first contact,
/// if any, is selected.
pub open spec fn kind_switched(v: AppView) -> AppView {
    let k = other_kind(v.active_channel.kind);
    AppView { active_channel: ActiveChannel { kind: k, id: first_id(kind_ids(v, k)) }, ..v }
}

/// The state after moving the selection up the contact list.
pub open spec fn moved_up(v: AppView) -> AppView {
    AppView {
        active_channel: ActiveChannel {
            id: channel_up(kind_ids(v, v.active_channel.kind), v.active_channel.id),
            ..v.active_channel
        },
        ..v
    }
}

/// The state after moving the selection down the contact list.
pub open spec fn moved_down(v: AppView) -> AppView {
    AppView {
        active_channel: ActiveChannel {
            id: channel_down(kind_ids(v, v.active_channel.kind), v.active_channel.id),
            ..v.active_channel
        },
        ..v
    }
}

/// The state after scrolling the messages up: three rows, unless at the top.
pub open spec fn scrolled_up(v: AppView) -> AppView {
    AppView {
        main_scroll_offset: if v.main_scroll_offset > 0 {
            (v.main_scroll_offset - 3) as usize
        } else {
            0
        },
        ..v
    }
}

/// The state after scrolling the messages down: three rows, unless scrolled
/// by 50 rows or more.
pub open spec fn scrolled_down(v: AppView) -> AppView {
    AppView {
        main_scroll_offset: if v.main_scroll_offset < 50 {
            (v.main_scroll_offset + 3) as usize
        } else {
            v.main_scroll_offset
        },
        ..v
    }
}

/// The state after a text message arrived: a message to a room goes in
/// front of that room's messages, a message to a user in front of the
/// messages of the direct channel with its sender; messages for unknown
/// rooms or senders change nothing.
pub open spec fn text_received(v: AppView, msg: TextMsgView) -> AppView {
    match msg.to {
        Channel::Room(id) => AppView {
            rooms: prepend_room_msg(v.rooms, id, ChannelMsgView::TextMsg(msg)),
            ..v
        },
        Channel::User(_) => AppView {
            directs: prepend_direct_msg(v.directs, msg.from.id, ChannelMsgView::TextMsg(msg)),
            ..v
        },
    }
}

/// Whether the room or direct channel that an image is addressed to is known.
pub open spec fn img_target_known(v: AppView, img: ImgRenderView) -> bool {
    match img.to {
        Channel::Room(id) => first_pos(room_ids(v.rooms), id) >= 0,
        Channel::User(id) => first_pos(direct_ids(v.directs), id) >= 0,
    }
}

/// The state after an image arrived for a known room or direct channel: it
/// goes in front of that conversation.
pub open spec fn img_received(v: AppView, img: ImgRenderView) -> AppView {
    match img.to {
        Channel::Room(id) => AppView {
            rooms: prepend_room_msg(v.rooms, id, ChannelMsgView::Img(img)),
            ..v
        },
        Channel::User(id) => AppView {
            directs: prepend_direct_msg(v.directs, id, ChannelMsgView::Img(img)),
            ..v
        },
    }
}

/// Sending the typed message: the state after it, and the message sent, if
/// any. Nothing happens when no contact is selected. Otherwise the message
/// holds the input lines joined by newlines, goes to the selected room or
/// user, is shown in front of the direct channel with the user whose id is
/// the selected id, if there is one, and the input field is emptied.
pub open spec fn message_sent(v: AppView) -> (AppView, Option<TextMsgView>) {
    match v.active_channel.id {
        None => (v, None),
        Some(id) => {
            let m = TextMsgView {
                text: join_spec(v.main_text, seq!['\n']),
                from: UserView { username: v.username, id: v.id },
                to: match v.active_channel.kind {
                    ChannelKind::Direct => Channel::User(id),
                    ChannelKind::Room => Channel::Room(id),
                },
            };
            (
                AppView {
                    directs: prepend_direct_msg(v.directs, id, ChannelMsgView::TextMsg(m)),
                    main_text: empty_input(),
                    ..v
                },
                Some(m),
            )
        },
    }
}

impl App {
    /// Whether the state is well formed: the message view is scrolled by a
    /// multiple of three rows, at most 51, and the file selector is well formed.
    pub open spec fn wf(&self) -> bool {
        &&& self.main_scroll_offset % 3 == 0
        &&& self.main_scroll_offset <= 51
        &&& self.file_selector.wf()
    }

    /// Whether the selected contact, if any, is in the list it belongs to.
    pub open spec fn active_id_listed(&self) -> bool {
        match self.active_channel.id {
            Some(id) => kind_ids(self@, self.active_channel.kind).contains(id),
            None => true,
        }
    }

    /// A client on the login form with nothing loaded; `location` is the
    /// folder that the file selector starts in.
    pub fn new(location: Vec<String>) -> (app: App)
        ensures
            app.wf(),
            app@.username == Seq::<char>::empty(),
            app@.id == 0,
            !app@.exit,
            app@.username_login == empty_input(),
            app@.password_login == empty_input(),
            app@.username_register == empty_input(),
            app@.password_register == empty_input(),
            app@.repeat_password == empty_input(),
            app@.main_text == empty_input(),
            app@.rooms.len() == 0,
            app@.directs.len() == 0,
            app@.active_channel == (ActiveChannel { kind: ChannelKind::Room, id: None }),
            app@.active_screen == ActiveScreen::Entry,
            app@.active_entry_screen == ActiveEntryScreen::ASLogin,
            app@.active_entry_input == ActiveEntryInput::Username,
            app@.active_create_room_input == ActiveCreateRoomInput::Name,
            !app@.display_file_selector,
            !app@.display_room_creator,
            app@.file_selector == (FileSelectorView {
                current_location: crate::file_selector::path_views(location@),
                selected_index: 0,
                entries: seq![crate::file_selector::back_entry()],
                scroll_offset: 0,
                active_action: crate::ui::FileAction::File,
            }),
            app@.room_creator == (RoomCreatorView {
                room_name: empty_input(),
                room_password: empty_input(),
                notification: None,
                active_input: ActiveCreateRoomInput::Name,
                active_action: RoomAction::Create,
            }),
            app@.notification is None,
            app@.main_scroll_offset == 0,
            app@.focus == Focus::Messages,
    {
        App {
            username: String::new(),
            id: 0,
            exit: false,
            username_login: new_input(),
            password_login: new_input(),
            username_register: new_input(),
            password_register: new_input(),
            repeat_password: new_input(),
            main_text: new_input(),
            room_channels: Vec::new(),
            direct_channels: Vec::new(),
            active_channel: ActiveChannel { kind: ChannelKind::Room, id: None },
            active_screen: ActiveScreen::Entry,
            active_entry_input: ActiveEntryInput::Username,
            active_entry_screen: ActiveEntryScreen::ASLogin,
            active_create_room_input: ActiveCreateRoomInput::Name,
            display_file_selector: false,
            display_room_creator: false,
            file_selector: FileSelector::new(location),
            room_creator: RoomCreator::new(),
            login_screen_notification: None,
            main_scroll_offset: 0,
            focus: Focus::Messages,
        }
    }

    /// Index of the first room with id `id`.
    pub fn find_room(&self, id: u128) -> (r: Option<usize>)
        ensures
            match r {
                Some(i) => i == first_pos(room_ids(self@.rooms), id),
                None => first_pos(room_ids(self@.rooms), id) == -1,
            },
    {
        let ghost ids = room_ids(self@.rooms);
        let mut i: usize = 0;
        while i < self.room_channels.len()
            invariant
                i <= self.room_channels.len(),
                ids == room_ids(self@.rooms),
                ids.len() == self.room_channels@.len(),
                forall|k: int| 0 <= k < i ==> ids[k] != id,
            decreases self.room_channels.len() - i,
        {
            assert(ids[i as int] == self.room_channels@[i as int].id);
            if self.room_channels[i].id == id {
                proof {
                    lemma_first_pos(ids, id, i as int);
                }
                return Some(i);
            }
            i = i + 1;
        }
        proof {
            lemma_first_pos(ids, id, i as int);
        }
        None
    }

    /// Index of the first direct channel with the user whose id is `id`.
    pub fn find_direct(&self, id: u128) -> (r: Option<usize>)
        ensures
            match r {
                Some(i) => i == first_pos(direct_ids(self@.directs), id),
                None => first_pos(direct_ids(self@.directs), id) == -1,
            },
    {
        let ghost ids = direct_ids(self@.directs);
        let mut i: usize = 0;
        while i < self.direct_channels.len()
            invariant
                i <= self.direct_channels.len(),
                ids == direct_ids(self@.directs),
                ids.len() == self.direct_channels@.len(),
                forall|k: int| 0 <= k < i ==> ids[k] != id,
            decreases self.direct_channels.len() - i,
        {
            assert(ids[i as int] == self.direct_channels@[i as int].user.id);
            if self.direct_channels[i].user.id == id {
                proof {
                    lemma_first_pos(ids, id, i as int);
                }
                return Some(i);
            }
            i = i + 1;
        }
        proof {
            lemma_first_pos(ids, id, i as int);
        }
        None
    }

    /// Adds `m` in front of the messages of the first room with id `id`.
    /// Returns whether there was such a room.
    pub fn push_room_msg(&mut self, id: u128, m: ChannelMsg) -> (found: bool)
        ensures
            found == (first_pos(room_ids(old(self)@.rooms), id) >= 0),
            final(self)@ == (AppView { rooms: prepend_room_msg(old(self)@.rooms, id, m@), ..old(self)@ }),
    {
        match self.find_room(id) {
            None => false,
            Some(i) => {
                proof {
                    lemma_first_pos_bounds(room_ids(self@.rooms), id);
                }
                let ghost before = self.room_channels@;
                self.room_channels[i].messages.push_front(m);
                proof {
                    assert(msg_views(self.room_channels@[i as int].messages@) =~= seq![m@]
                        + msg_views(before[i as int].messages@));
                    assert(room_views(self.room_channels@) =~= prepend_room_msg(
                        room_views(before),
                        id,
                        m@,
                    ));
                }
                true
            },
        }
    }

    /// Adds `m` in front of the messages of the first direct channel with the
    /// user whose id is `id`. Returns whether there was such a channel.
    pub fn push_direct_msg(&mut self, id: u128, m: ChannelMsg) -> (found: bool)
        ensures
            found == (first_pos(direct_ids(old(self)@.directs), id) >= 0),
            final(self)@ == (AppView {
                directs: prepend_direct_msg(old(self)@.directs, id, m@),
                ..old(self)@
            }),
    {
        match self.find_direct(id) {
            None => false,
            Some(i) => {
                proof {
                    lemma_first_pos_bounds(direct_ids(self@.directs), id);
                }
                let ghost before = self.direct_channels@;
                self.direct_channels[i].messages.push_front(m);
                proof {
                    assert(msg_views(self.direct_channels@[i as int].messages@) =~= seq![m@]
                        + msg_views(before[i as int].messages@));
                    assert(direct_views(self.direct_channels@) =~= prepend_direct_msg(
                        direct_views(before),
                        id,
                        m@,
                    ));
                }
                true
            },
        }
    }

    /// Shows a received text message: a message to a room goes in front of
    /// that room's messages, a message to a user in front of the messages of
    /// the direct channel with its sender. Messages for unknown rooms or
    /// senders are dropped.
    pub fn handle_text_message(&mut self, msg: TextMsg)
        ensures
            final(self)@ == text_received(old(self)@, msg@),
    {
        match msg.to {
            Channel::Room(id) => {
                self.push_room_msg(id, ChannelMsg::TextMsg(msg));
            },
            Channel::User(_) => {
                let from = msg.from.id;
                self.push_direct_msg(from, ChannelMsg::TextMsg(msg));
            },
        }
    }

    /// Shows a received image in front of the messages of the room or direct
    /// channel it is addressed to. When there is no such room or channel the
    /// image is handed back as the error.
    pub fn handle_img_render(&mut self, img: ImgRender) -> (res: Result<(), ImgRender>)
        ensures
            if img_target_known(old(self)@, img@) {
                &&& res is Ok
                &&& final(self)@ == img_received(old(self)@, img@)
            } else {
                &&& res matches Err(back) && back@ == img@
                &&& final(self)@ == old(self)@
            },
    {
        match img.to {
            Channel::Room(id) => match self.find_room(id) {
                None => Err(img),
                Some(_) => {
                    self.push_room_msg(id, ChannelMsg::Img(img));
                    Ok(())
                },
            },
            Channel::User(id) => match self.find_direct(id) {
                None => Err(img),
                Some(_) => {
                    self.push_direct_msg(id, ChannelMsg::Img(img));
                    Ok(())
                },
            },
        }
    }

    /// Sends the typed message to the selected contact. Nothing happens when
    /// no contact is selected. Otherwise the message, with the input lines
    /// joined by newlines, is returned to be sent; it is also shown in front
    /// of the direct channel with the user whose id is the selected id, if
    /// there is one; and the input field is emptied.
    pub fn send_message(&mut self) -> (sent: Option<ClientServerMsg>)
        ensures
            final(self)@ == message_sent(old(self)@).0,
            match message_sent(old(self)@).1 {
                None => sent is None,
                Some(m) => sent matches Some(ClientServerMsg::Text(t)) && t@ == m,
            },
    {
        let id = match self.active_channel.id {
            None => return None,
            Some(id) => id,
        };
        proof {
            reveal_strlit("\n");
            assert("\n"@ =~= seq!['\n']);
        }
        let text = join(self.main_text.as_slice(), "\n");
        let from = User { username: self.username.clone(), id: self.id };
        let to = match self.active_channel.kind {
            ChannelKind::Direct => Channel::User(id),
            ChannelKind::Room => Channel::Room(id),
        };
        let msg = TextMsg { text, from, to };
        self.push_direct_msg(id, ChannelMsg::TextMsg(msg.duplicate()));
        self.main_text = new_input();
        Some(ClientServerMsg::Text(msg))
    }

    /// Switches the focus between the contacts and the messages.
    pub fn switch_focus(&mut self)
        ensures
            final(self)@ == focus_switched(old(self)@),
    {
        self.focus = match self.focus {
            Focus::Contacts => Focus::Messages,
            Focus::Messages => Focus::Contacts,
        };
    }

    /// Asks the client to stop.
    pub fn exit(&mut self)
        ensures
            final(self)@ == (AppView { exit: true, ..old(self)@ }),
    {
        self.exit = true;
    }

    /// Takes on the name and id of `user`.
    pub fn init(&mut self, user: User)
        ensures
            final(self)@ == (AppView { username: user.username@, id: user.id, ..old(self)@ }),
    {
        self.username = user.username;
        self.id = user.id;
    }

    /// Shows the other list of contacts and selects its first contact, or
    /// nothing when it is empty.
    pub fn switch_channel_kind(&mut self)
        ensures
            final(self)@ == kind_switched(old(self)@),
    {
        let new_kind = match self.active_channel.kind {
            ChannelKind::Direct => ChannelKind::Room,
            ChannelKind::Room => ChannelKind::Direct,
        };
        let new_id = match new_kind {
            ChannelKind::Direct => {
                if self.direct_channels.len() == 0 {
                    None
                } else {
                    Some(self.direct_channels[0].user.id)
                }
            },
            ChannelKind::Room => {
                if self.room_channels.len() == 0 {
                    None
                } else {
                    Some(self.room_channels[0].id)
                }
            },
        };
        self.active_channel = ActiveChannel { kind: new_kind, id: new_id };
    }

    /// The position of `id` in the list of kind `kind`.
    fn position_in(&self, kind: ChannelKind, id: u128) -> (r: Option<usize>)
        ensures
            match r {
                Some(i) => i == first_pos(kind_ids(self@, kind), id),
                None => first_pos(kind_ids(self@, kind), id) == -1,
            },
    {
        match kind {
            ChannelKind::Room => self.find_room(id),
            ChannelKind::Direct => self.find_direct(id),
        }
    }

    /// The id at `i` in the list of kind `kind`.
    fn id_at(&self, kind: ChannelKind, i: usize) -> (id: u128)
        requires
            i < kind_ids(self@, kind).len(),
        ensures
            id == kind_ids(self@, kind)[i as int],
    {
        match kind {
            ChannelKind::Room => self.room_channels[i].id,
            ChannelKind::Direct => self.direct_channels[i].user.id,
        }
    }

    /// The number of contacts in the list of kind `kind`.
    fn count_of(&self, kind: ChannelKind) -> (n: usize)
        ensures
            n == kind_ids(self@, kind).len(),
    {
        match kind {
            ChannelKind::Room => self.room_channels.len(),
            ChannelKind::Direct => self.direct_channels.len(),
        }
    }

    /// Selects the contact above the selected one; see `channel_up`.
    pub fn move_active_channel_up(&mut self)
        requires
            old(self).active_id_listed(),
        ensures
            final(self)@ == moved_up(old(self)@),
    {
        let kind = self.active_channel.kind;
        proof {
            lemma_first_pos_bounds(kind_ids(self@, kind), self.active_channel.id->0);
        }
        match self.active_channel.id {
            Some(id) => {
                let i = match self.position_in(kind, id) {
                    Some(i) => i,
                    None => {
                        return;
                    },
                };
                if i == 0 {
                    return;
                }
                let prev = self.id_at(kind, i - 1);
                self.active_channel.id = Some(prev);
            },
            None => {
                if self.count_of(kind) == 0 {
                    return;
                }
                let first = self.id_at(kind, 0);
                self.active_channel.id = Some(first);
            },
        }
    }

    /// Selects the contact below the selected one; see `channel_down`.
    pub fn move_active_channel_down(&mut self)
        requires
            old(self).active_id_listed(),
        ensures
            final(self)@ == moved_down(old(self)@),
    {
        let kind = self.active_channel.kind;
        proof {
            lemma_first_pos_bounds(kind_ids(self@, kind), self.active_channel.id->0);
        }
        match self.active_channel.id {
            Some(id) => {
                let i = match self.position_in(kind, id) {
                    Some(i) => i,
                    None => {
                        return;
                    },
                };
                if i == self.count_of(kind) - 1 {
                    return;
                }
                let next = self.id_at(kind, i + 1);
                self.active_channel.id = Some(next);
            },
            None => {
                if self.count_of(kind) == 0 {
                    return;
                }
                let first = self.id_at(kind, 0);
                self.active_channel.id = Some(first);
            },
        }
    }

    /// Scrolls the messages three rows up, unless they are at the top.
    pub fn move_scrollbar_up(&mut self)
        requires
            old(self).main_scroll_offset == 0 || old(self).main_scroll_offset >= 3,
        ensures
            final(self)@ == scrolled_up(old(self)@),
    {
        if self.main_scroll_offset > 0 {
            self.main_scroll_offset = self.main_scroll_offset - 3;
        }
    }

    /// Scrolls the messages three rows down, unless they are scrolled by 50
    /// rows or more.
    pub fn move_scrollbar_down(&mut self)
        ensures
            final(self)@ == scrolled_down(old(self)@),
    {
        if self.main_scroll_offset < 50 {
            self.main_scroll_offset = self.main_scroll_offset + 3;
        }
    }
}

} // verus!
