//! Properties of the library as a whole: what one call undoes of another,
//! and what every call keeps.
use vstd::prelude::*;
use crate::auth::{login_check, register_check};
use crate::client::{
    direct_ids, first_pos, focus_switched, kind_ids, kind_switched, lemma_first_pos,
    lemma_first_pos_bounds, message_sent, moved_down, moved_up, prepend_room_msg, room_ids,
    scrolled_down, scrolled_up, AppView,
};
use crate::events::{
    file_enter_done, main_event_done, main_step, rc_switched, Action, Event, KeyCode, KeyEvent,
    MainStep,
};
use crate::file_selector::{fs_down, fs_switched, fs_up, FileSelectorView};
use crate::lines::text_msg_line;
use crate::manager::{name_online, online_members};
use crate::membership::{connect_room, disconnect_room, drop_id, user_joined, user_left};
use crate::pty::initial_dimensions;
use crate::render::{conversation_lines, selected_messages};
use crate::room_creator::RoomCreatorView;
use crate::room_updates::room_updated;
use crate::session::entry_switched;
use crate::text::{
    decimal_digits, is_digit, is_ws, lemma_decimal_digits_value, lemma_words_of_pair,
    parse_u16_spec,
};
use crate::types::{Channel, ChannelMsgView, TextMsgView, TuiRoomView, User, UserView, PUBLIC_ROOM_ID};
use crate::ui::{
    ActiveEntryInput, ActiveEntryScreen, ChannelKind, FileAction, Focus, SelectorEntryKind,
};

verus! {

/// Switching the focus twice changes nothing.
pub proof fn law_focus_switch_twice(v: AppView)
    ensures
        focus_switched(focus_switched(v)) == v,
{
}

/// Showing the other contact list twice shows the first list again.
pub proof fn law_kind_switch_twice(v: AppView)
    ensures
        kind_switched(kind_switched(v)).active_channel.kind == v.active_channel.kind,
{
}

/// Switching the room form's action twice changes nothing.
pub proof fn law_room_action_switch_twice(v: RoomCreatorView)
    ensures
        rc_switched(rc_switched(v)) == v,
{
}

/// Switching the file selector's action twice changes nothing.
pub proof fn law_file_action_switch_twice(v: FileSelectorView)
    ensures
        fs_switched(fs_switched(v)) == v,
{
}

/// Going from the login form to the registration form and back changes
/// nothing.
pub proof fn law_entry_switch_twice(v: AppView)
    requires
        v.active_entry_screen == ActiveEntryScreen::ASLogin,
    ensures
        entry_switched(entry_switched(v)) == v || v.active_entry_input
            == ActiveEntryInput::RepeatPassword,
{
}

/// Scrolling keeps the message view scrolled by a multiple of three rows,
/// at most 51.
pub proof fn law_scroll_stays_in_range(v: AppView)
    requires
        v.main_scroll_offset % 3 == 0,
        v.main_scroll_offset <= 51,
    ensures
        scrolled_up(v).main_scroll_offset % 3 == 0,
        scrolled_up(v).main_scroll_offset <= 51,
        scrolled_down(v).main_scroll_offset % 3 == 0,
        scrolled_down(v).main_scroll_offset <= 51,
{
}

/// A message received for a known room is the newest entry of that room.
pub proof fn law_received_message_first(rooms: Seq<TuiRoomView>, id: u128, m: ChannelMsgView)
    requires
        room_ids(rooms).contains(id),
    ensures
        ({
            let i = first_pos(room_ids(rooms), id);
            &&& 0 <= i < rooms.len()
            &&& prepend_room_msg(rooms, id, m)[i].messages[0] == m
            &&& prepend_room_msg(rooms, id, m)[i].messages.drop_first() == rooms[i].messages
        }),
{
    lemma_first_pos_bounds(room_ids(rooms), id);
    let i = first_pos(room_ids(rooms), id);
    assert((seq![m] + rooms[i].messages).drop_first() == rooms[i].messages);
}

/// No user with the dropped id is left.
pub proof fn law_drop_id_removes(s: Seq<UserView>, id: u128)
    ensures
        forall|k: int| 0 <= k < drop_id(s, id).len() ==> (#[trigger] drop_id(s, id)[k]).id != id,
        forall|u: UserView| #[trigger] drop_id(s, id).contains(u) ==> s.contains(u),
    decreases s.len(),
{
    if s.len() > 0 {
        law_drop_id_removes(s.drop_last(), id);
        let r = drop_id(s.drop_last(), id);
        assert forall|u: UserView| #[trigger] drop_id(s, id).contains(u) implies s.contains(u) by {
            let k = choose|k: int| 0 <= k < drop_id(s, id).len() && drop_id(s, id)[k] == u;
            if k < r.len() {
                assert(r.contains(u));
                let j = choose|j: int| 0 <= j < s.drop_last().len() && s.drop_last()[j] == u;
                assert(s[j] == u);
            } else {
                assert(s[s.len() - 1] == u);
            }
        }
    }
}

/// A user who went offline is shown online in none of the rooms it belongs to.
pub proof fn law_disconnected_not_online(r: TuiRoomView, u: UserView)
    requires
        r.users.contains(u),
    ensures
        forall|k: int|
            0 <= k < disconnect_room(r, u).users_online.len() ==> (#[trigger] disconnect_room(
                r,
                u,
            ).users_online[k]).id != u.id,
{
    law_drop_id_removes(r.users_online, u.id);
}

/// A member who comes online is shown online in the room, except the user of
/// this client in the public room.
pub proof fn law_connected_online(r: TuiRoomView, u: UserView, me: Seq<char>)
    requires
        r.users.contains(u),
        !(r.id == PUBLIC_ROOM_ID && u.username == me),
    ensures
        connect_room(r, u, me).users_online.contains(u),
{
    if !r.users_online.contains(u) {
        assert(connect_room(r, u, me).users_online.last() == u);
    }
}

/// Those shown online in a room are members of it and connected.
pub proof fn law_online_members(users: Seq<UserView>, connected: Map<u128, User>)
    ensures
        forall|u: UserView|
            #[trigger] online_members(users, connected).contains(u) ==> users.contains(u)
                && connected.contains_key(u.id),
    decreases users.len(),
{
    if users.len() > 0 {
        law_online_members(users.drop_last(), connected);
        let r = online_members(users.drop_last(), connected);
        assert forall|u: UserView| #[trigger] online_members(users, connected).contains(u) implies users.contains(u)
            && connected.contains_key(u.id) by {
            let k = choose|k: int|
                0 <= k < online_members(users, connected).len() && online_members(users, connected)[k]
                    == u;
            if k < r.len() {
                assert(r.contains(u));
                let j = choose|j: int| 0 <= j < users.drop_last().len() && users.drop_last()[j] == u;
                assert(users[j] == u);
            } else {
                assert(users[users.len() - 1] == u);
            }
        }
    }
}

/// A user who just connected is online under its name.
pub proof fn law_connected_is_online(connected: Map<u128, User>, user: User)
    ensures
        name_online(connected.insert(user.id, user), user.username@),
{
    assert(connected.insert(user.id, user).contains_key(user.id));
}

/// A name is no longer online once the only connected user with it has
/// disconnected.
pub proof fn law_dropped_not_online(connected: Map<u128, User>, id: u128)
    requires
        connected.contains_key(id),
        forall|k: u128|
            #[trigger] connected.contains_key(k) && k != id ==> connected[k].username@
                != connected[id].username@,
    ensures
        !name_online(connected.remove(id), connected[id].username@),
{
}

/// A number written in decimal reads back as that number.
pub proof fn law_decimal_roundtrip(n: u16)
    ensures
        parse_u16_spec(decimal_digits(n as nat)) == Some(n),
{
    lemma_decimal_digits_value(n as nat);
}

/// The opening message `"{x} {y}"` of a terminal session gives the size
/// `(x, y)`.
pub proof fn law_dimensions_roundtrip(x: u16, y: u16)
    ensures
        initial_dimensions(decimal_digits(x as nat) + seq![' '] + decimal_digits(y as nat)) == Some(
            (x, y),
        ),
{
    let a = decimal_digits(x as nat);
    let b = decimal_digits(y as nat);
    lemma_decimal_digits_value(x as nat);
    lemma_decimal_digits_value(y as nat);
    assert forall|i: int| 0 <= i < a.len() implies !is_ws(#[trigger] a[i]) by {
        assert(is_digit(a[i]));
    }
    assert forall|i: int| 0 <= i < b.len() implies !is_ws(#[trigger] b[i]) by {
        assert(is_digit(b[i]));
    }
    lemma_words_of_pair(a, b);
    law_decimal_roundtrip(x);
    law_decimal_roundtrip(y);
}

/// Whether the selection of `v`, if any, is in the list it belongs to.
pub open spec fn selection_listed(v: AppView) -> bool {
    match v.active_channel.id {
        Some(id) => kind_ids(v, v.active_channel.kind).contains(id),
        None => true,
    }
}

/// Moving the selection up or down, or showing the other list, keeps the
/// selected contact, if any, in the list shown.
pub proof fn law_selection_stays_listed(v: AppView)
    requires
        selection_listed(v),
    ensures
        selection_listed(moved_up(v)),
        selection_listed(moved_down(v)),
        selection_listed(kind_switched(v)),
{
    let ids = kind_ids(v, v.active_channel.kind);
    if let Some(id) = v.active_channel.id {
        lemma_first_pos_bounds(ids, id);
        let i = first_pos(ids, id);
        if i > 0 {
            assert(ids.contains(ids[i - 1]));
        }
        if i < ids.len() - 1 {
            assert(ids.contains(ids[i + 1]));
        }
    } else if ids.len() > 0 {
        assert(ids.contains(ids[0]));
    }
    let k = kind_switched(v).active_channel.kind;
    let ids2 = kind_ids(v, k);
    if ids2.len() > 0 {
        assert(ids2.contains(ids2[0]));
    }
}

/// The cursor of the file selector stays on an entry when it moves.
pub proof fn law_selector_cursor_in_range(v: FileSelectorView)
    requires
        v.selected_index < v.entries.len(),
    ensures
        fs_up(v).selected_index < fs_up(v).entries.len(),
        fs_down(v).selected_index < fs_down(v).entries.len(),
{
}

/// A message sent to a user with a direct channel is the newest entry of
/// that channel, and it is the message handed out to be sent.
pub proof fn law_sent_message_first(v: AppView)
    requires
        v.active_channel.kind == ChannelKind::Direct,
        v.active_channel.id matches Some(id) && direct_ids(v.directs).contains(id),
    ensures
        ({
            let id = v.active_channel.id->0;
            let i = first_pos(direct_ids(v.directs), id);
            let (after, sent) = message_sent(v);
            &&& sent is Some
            &&& 0 <= i < after.directs.len()
            &&& after.directs[i].messages[0] == crate::types::ChannelMsgView::TextMsg(sent->0)
            &&& after.directs[i].messages.drop_first() == v.directs[i].messages
        }),
{
    let id = v.active_channel.id->0;
    lemma_first_pos_bounds(direct_ids(v.directs), id);
    let i = first_pos(direct_ids(v.directs), id);
    let m = message_sent(v).1->0;
    let cm = crate::types::ChannelMsgView::TextMsg(m);
    assert((seq![cm] + v.directs[i].messages).drop_first() == v.directs[i].messages);
}

/// Data that passes the registration check passes the login check.
pub proof fn law_register_check_implies_login_check(
    username: Seq<char>,
    password: Seq<char>,
    repeat: Seq<char>,
)
    requires
        register_check(username, password, repeat) is Ok,
    ensures
        login_check(username, password) is Ok,
{
}

/// A new version of a room keeps the selected contact, if any, in the list
/// shown: the ids of the rooms stay the same, and a selected user whose
/// direct channel is gone is no longer selected.
pub proof fn law_room_update_keeps_selection_listed(v: AppView, room: TuiRoomView)
    requires
        selection_listed(v),
    ensures
        selection_listed(room_updated(v, room)),
{
    let i = first_pos(room_ids(v.rooms), room.id);
    lemma_first_pos_bounds(room_ids(v.rooms), room.id);
    let after = room_updated(v, room);
    assert(room_ids(after.rooms) =~= room_ids(v.rooms));
}

/// Moving the cursor of the file selector down and then up comes back to
/// the same entry, unless it was on the last entry.
pub proof fn law_selector_down_then_up(v: FileSelectorView)
    requires
        v.entries.len() <= usize::MAX,
        v.selected_index + 1 < v.entries.len(),
    ensures
        fs_up(fs_down(v)) == v,
{
}

/// In a list of contacts without repeated ids, moving the selection down
/// and then up comes back to the selected contact, unless it was the last.
pub proof fn law_channel_down_then_up(v: AppView)
    requires
        kind_ids(v, v.active_channel.kind).no_duplicates(),
        v.active_channel.id matches Some(id) && kind_ids(v, v.active_channel.kind).contains(id)
            && first_pos(kind_ids(v, v.active_channel.kind), id) + 1 < kind_ids(
            v,
            v.active_channel.kind,
        ).len(),
    ensures
        moved_up(moved_down(v)) == v,
{
    let ids = kind_ids(v, v.active_channel.kind);
    let id = v.active_channel.id->0;
    lemma_first_pos_bounds(ids, id);
    let i = first_pos(ids, id);
    let next = ids[i + 1];
    assert forall|k: int| 0 <= k < i + 1 implies ids[k] != next by {
        assert(k != i + 1);
    }
    lemma_first_pos(ids, next, i + 1);
    let w = moved_down(v);
    assert(kind_ids(w, w.active_channel.kind) == ids);
    assert(w.active_channel.id == Some(next));
    assert(moved_up(w).active_channel == v.active_channel);
}

/// A file chosen in the file selector goes to the selected contact, and it
/// is announced as coming from this client's own user when the contact is a
/// user, whoever that user is, and from the room when it is a room.
pub proof fn law_sent_file_origin(v0: AppView, v1: AppView, a: Action)
    requires
        file_enter_done(v0, v1, a),
        v0.file_selector.entries[v0.file_selector.selected_index as int].kind
            == SelectorEntryKind::File,
        v0.file_selector.active_action == FileAction::File,
        v0.active_channel.id is Some,
    ensures
        a is SendFile,
        v0.active_channel.kind == ChannelKind::Direct ==> a == (Action::SendFile {
            path: a->SendFile_path,
            to: Channel::User(v0.active_channel.id->0),
            from: Channel::User(v0.id),
        }),
        v0.active_channel.kind == ChannelKind::Room ==> a == (Action::SendFile {
            path: a->SendFile_path,
            to: Channel::Room(v0.active_channel.id->0),
            from: Channel::Room(v0.active_channel.id->0),
        }),
{
}

/// On the main screen with the focus on the contacts, a pressed Up moves the
/// selection to the previous contact and a pressed Down to the next one; the
/// two keys never do the same thing. With the focus on the messages they
/// scroll up and down.
pub proof fn law_arrows_on_main_screen(v0: AppView, v1: AppView, a: Action, ctrl: bool)
    ensures
        main_step(Focus::Contacts, Event::Key(KeyEvent { code: KeyCode::Up, ctrl, press: true }))
            == MainStep::ChannelUp,
        main_step(Focus::Contacts, Event::Key(KeyEvent { code: KeyCode::Down, ctrl, press: true }))
            == MainStep::ChannelDown,
        main_step(Focus::Messages, Event::Key(KeyEvent { code: KeyCode::Up, ctrl, press: true }))
            == MainStep::ScrollUp,
        main_step(Focus::Messages, Event::Key(KeyEvent { code: KeyCode::Down, ctrl, press: true }))
            == MainStep::ScrollDown,
        v0.focus == Focus::Contacts && main_event_done(
            v0,
            Event::Key(KeyEvent { code: KeyCode::Up, ctrl, press: true }),
            v1,
            a,
        ) ==> v1 == moved_up(v0) && a is Nothing,
        v0.focus == Focus::Contacts && main_event_done(
            v0,
            Event::Key(KeyEvent { code: KeyCode::Down, ctrl, press: true }),
            v1,
            a,
        ) ==> v1 == moved_down(v0) && a is Nothing,
{
}

/// A new version of a room never unselects a selected room that the client
/// knows: the ids of the known rooms stay the same.
pub proof fn law_room_update_keeps_known_room(v: AppView, room: TuiRoomView, j: int)
    requires
        v.active_channel.kind == ChannelKind::Room,
        0 <= j < v.rooms.len(),
        v.active_channel.id == Some(v.rooms[j].id),
    ensures
        room_updated(v, room).active_channel == v.active_channel,
{
    assert(room_ids(v.rooms)[j] == v.rooms[j].id);
}

/// A conversation shows a line for each of its text messages.
pub proof fn lemma_conversation_shows_text(ms: Seq<ChannelMsgView>, k: int, t: TextMsgView)
    requires
        0 <= k < ms.len(),
        ms[k] == ChannelMsgView::TextMsg(t),
    ensures
        conversation_lines(ms).contains(text_msg_line(t.from.username, t.text)),
    decreases ms.len(),
{
    let before = conversation_lines(ms.drop_last());
    assert(conversation_lines(ms) == before + crate::render::msg_lines(ms.last()));
    if k == ms.len() - 1 {
        assert(conversation_lines(ms)[before.len() as int] == text_msg_line(
            t.from.username,
            t.text,
        ));
    } else {
        assert(ms.drop_last()[k] == ms[k]);
        lemma_conversation_shows_text(ms.drop_last(), k, t);
        let i = choose|i: int|
            0 <= i < before.len() && before[i] == text_msg_line(t.from.username, t.text);
        assert(conversation_lines(ms)[i] == before[i]);
    }
}

/// With a known room selected, the message view shows that room's messages,
/// the first room with the id being the one chosen, and every text message
/// of it appears as a line.
pub proof fn law_selected_room_shows_its_messages(v: AppView, j: int, k: int, t: TextMsgView)
    requires
        v.active_channel.kind == ChannelKind::Room,
        0 <= j < v.rooms.len(),
        v.active_channel.id == Some(v.rooms[j].id),
        forall|i: int| 0 <= i < j ==> v.rooms[i].id != v.rooms[j].id,
    ensures
        selected_messages(v) == v.rooms[j].messages,
        0 <= k < v.rooms[j].messages.len() && v.rooms[j].messages[k] == ChannelMsgView::TextMsg(t)
            ==> conversation_lines(selected_messages(v)).contains(
            text_msg_line(t.from.username, t.text),
        ),
{
    lemma_first_pos(room_ids(v.rooms), v.rooms[j].id, j);
    if 0 <= k < v.rooms[j].messages.len() && v.rooms[j].messages[k] == ChannelMsgView::TextMsg(
        t,
    ) {
        lemma_conversation_shows_text(v.rooms[j].messages, k, t);
    }
}

/// A user joining a room is added, last, to the members of the first room
/// with that id, and nothing else changes; a join to an unknown room
/// changes nothing.
pub proof fn law_join_changes_only_that_room(v: AppView, room_id: u128, u: UserView, j: int)
    requires
        0 <= j < v.rooms.len() ==> v.rooms[j].id == room_id && forall|i: int|
            0 <= i < j ==> v.rooms[i].id != room_id,
        j == v.rooms.len() ==> forall|i: int| 0 <= i < v.rooms.len() ==> v.rooms[i].id != room_id,
        0 <= j <= v.rooms.len(),
    ensures
        user_joined(v, room_id, u).rooms.len() == v.rooms.len(),
        j < v.rooms.len() ==> user_joined(v, room_id, u).rooms[j] == (TuiRoomView {
            users: v.rooms[j].users.push(u),
            ..v.rooms[j]
        }),
        forall|i: int|
            0 <= i < v.rooms.len() && i != j ==> user_joined(v, room_id, u).rooms[i] == v.rooms[i],
        user_joined(v, room_id, u) == (AppView { rooms: user_joined(v, room_id, u).rooms, ..v }),
{
    lemma_first_pos(room_ids(v.rooms), room_id, j);
}

/// An image chosen in the file selector is sent by this client's own user,
/// to the selected user or room.
pub proof fn law_sent_image_origin(v0: AppView, v1: AppView, a: Action)
    requires
        file_enter_done(v0, v1, a),
        v0.file_selector.entries[v0.file_selector.selected_index as int].kind
            == SelectorEntryKind::File,
        v0.file_selector.active_action == FileAction::ASCII,
        v0.active_channel.id is Some,
    ensures
        v1 == v0,
        a matches Action::SendImage { sender, to, .. } && sender@.id == v0.id
            && sender@.username == v0.username && to == (match v0.active_channel.kind {
            ChannelKind::Direct => Channel::User(v0.active_channel.id->0),
            ChannelKind::Room => Channel::Room(v0.active_channel.id->0),
        }),
{
}

/// With a direct channel selected, the message view shows the messages of
/// the first channel with that user, and every text message of it appears
/// as a line.
pub proof fn law_selected_direct_shows_its_messages(v: AppView, j: int, k: int, t: TextMsgView)
    requires
        v.active_channel.kind == ChannelKind::Direct,
        0 <= j < v.directs.len(),
        v.active_channel.id == Some(v.directs[j].user.id),
        forall|i: int| 0 <= i < j ==> v.directs[i].user.id != v.directs[j].user.id,
    ensures
        selected_messages(v) == v.directs[j].messages,
        0 <= k < v.directs[j].messages.len() && v.directs[j].messages[k]
            == ChannelMsgView::TextMsg(t) ==> conversation_lines(selected_messages(v)).contains(
            text_msg_line(t.from.username, t.text),
        ),
{
    lemma_first_pos(direct_ids(v.directs), v.directs[j].user.id, j);
    if 0 <= k < v.directs[j].messages.len() && v.directs[j].messages[k]
        == ChannelMsgView::TextMsg(t) {
        lemma_conversation_shows_text(v.directs[j].messages, k, t);
    }
}

/// A user leaving a room is taken out of the members of the first room with
/// that id, and no other room changes; leaving a room other than the public
/// one keeps the direct channels and the selection.
pub proof fn law_leave_changes_only_that_room(v: AppView, room_id: u128, uid: u128, j: int)
    requires
        0 <= j < v.rooms.len(),
        v.rooms[j].id == room_id,
        forall|i: int| 0 <= i < j ==> v.rooms[i].id != room_id,
    ensures
        user_left(v, room_id, uid).rooms.len() == v.rooms.len(),
        user_left(v, room_id, uid).rooms[j] == (TuiRoomView {
            users: drop_id(v.rooms[j].users, uid),
            ..v.rooms[j]
        }),
        forall|i: int|
            0 <= i < v.rooms.len() && i != j ==> user_left(v, room_id, uid).rooms[i] == v.rooms[i],
        user_left(v, room_id, uid).active_channel == v.active_channel,
        room_id != PUBLIC_ROOM_ID ==> user_left(v, room_id, uid).directs == v.directs,
{
    lemma_first_pos(room_ids(v.rooms), room_id, j);
}

} // verus!
