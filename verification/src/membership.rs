//! Who belongs to which room and who is online, as the client follows it:
//! users connecting and disconnecting, joining and leaving rooms, and the
//! rooms that arrive at login or when a room is created or joined.
use vstd::prelude::*;
use crate::client::{first_pos, lemma_first_pos_bounds, room_ids, App, AppView};
use crate::types::{
    DirectChannel, DirectChannelView, LeaveRoomNotification, JoinRoomNotification, RoomData,
    RoomDataView, TuiRoom, TuiRoomView, User, UserInitData, UserView, PUBLIC_ROOM_ID,
    direct_views, empty_direct, room_views, tui_room_of, user_views,
};

verus! {

/// Whether `u` is in `users`.
pub fn users_contain(users: &Vec<User>, u: &User) -> (b: bool)
    ensures
        b == user_views(users@).contains(u@),
{
    let mut i: usize = 0;
    while i < users.len()
        invariant
            i <= users.len(),
            forall|k: int| 0 <= k < i ==> user_views(users@)[k] != u@,
        decreases users.len() - i,
    {
        if users[i].same_as(u) {
            assert(user_views(users@)[i as int] == u@);
            return true;
        }
        i = i + 1;
    }
    false
}

/// `s` without the users whose id is `id`, in order.
pub open spec fn drop_id(s: Seq<UserView>, id: u128) -> Seq<UserView>
    decreases s.len(),
{
    if s.len() == 0 {
        s
    } else {
        let r = drop_id(s.drop_last(), id);
        if s.last().id == id {
            r
        } else {
            r.push(s.last())
        }
    }
}

/// `s` without the direct channels with the user whose id is `id`, in order.
pub open spec fn drop_direct(s: Seq<DirectChannelView>, id: u128) -> Seq<DirectChannelView>
    decreases s.len(),
{
    if s.len() == 0 {
        s
    } else {
        let r = drop_direct(s.drop_last(), id);
        if s.last().user.id == id {
            r
        } else {
            r.push(s.last())
        }
    }
}

/// Dropping the same user twice drops nothing more.
pub proof fn lemma_drop_direct_idempotent(s: Seq<DirectChannelView>, id: u128)
    ensures
        drop_direct(drop_direct(s, id), id) == drop_direct(s, id),
    decreases s.len(),
{
    if s.len() > 0 {
        lemma_drop_direct_idempotent(s.drop_last(), id);
        let r = drop_direct(s.drop_last(), id);
        if s.last().user.id != id {
            assert(r.push(s.last()).drop_last() == r);
        }
    }
}

/// `users` without the users whose id is `id`.
pub fn without_user(users: Vec<User>, id: u128) -> (out: Vec<User>)
    ensures
        user_views(out@) == drop_id(user_views(users@), id),
{
    let mut out: Vec<User> = Vec::new();
    let mut rest = users;
    let ghost all = user_views(rest@);
    let n0 = rest.len();
    assert(all.len() == n0);
    let mut i: usize = 0;
    while rest.len() > 0
        invariant
            i + user_views(rest@).len() == all.len(),
            all.len() <= usize::MAX,
            user_views(rest@) == all.subrange(i as int, all.len() as int),
            user_views(out@) == drop_id(all.subrange(0, i as int), id),
        decreases rest.len(),
    {
        let ghost old_rest = rest@;
        let u = rest.remove(0);
        proof {
            assert(user_views(old_rest)[0] == u@);
            assert(all[i as int] == user_views(old_rest)[0]);
            assert(user_views(rest@) =~= user_views(old_rest).drop_first());
            let p = all.subrange(0, i + 1);
            assert(p.drop_last() == all.subrange(0, i as int));
            assert(p.last() == u@);
        }
        if u.id != id {
            let ghost before = out@;
            out.push(u);
            proof {
                assert(user_views(out@) == user_views(before).push(all[i as int]));
            }
        }
        i = i + 1;
    }
    proof {
        assert(all.subrange(0, i as int) == all);
    }
    out
}

/// `directs` without the channels with the user whose id is `id`.
pub fn without_direct(directs: Vec<DirectChannel>, id: u128) -> (out: Vec<DirectChannel>)
    ensures
        direct_views(out@) == drop_direct(direct_views(directs@), id),
{
    let mut out: Vec<DirectChannel> = Vec::new();
    let mut rest = directs;
    let ghost all = direct_views(rest@);
    let n0 = rest.len();
    assert(all.len() == n0);
    let mut i: usize = 0;
    while rest.len() > 0
        invariant
            i + direct_views(rest@).len() == all.len(),
            all.len() <= usize::MAX,
            direct_views(rest@) == all.subrange(i as int, all.len() as int),
            direct_views(out@) == drop_direct(all.subrange(0, i as int), id),
        decreases rest.len(),
    {
        let ghost old_rest = rest@;
        let c = rest.remove(0);
        proof {
            assert(direct_views(old_rest)[0] == c@);
            assert(all[i as int] == direct_views(old_rest)[0]);
            assert(direct_views(rest@) =~= direct_views(old_rest).drop_first());
            let p = all.subrange(0, i + 1);
            assert(p.drop_last() == all.subrange(0, i as int));
            assert(p.last() == c@);
        }
        if c.user.id != id {
            let ghost before = out@;
            out.push(c);
            proof {
                assert(direct_views(out@) == direct_views(before).push(all[i as int]));
            }
        }
        i = i + 1;
    }
    proof {
        assert(all.subrange(0, i as int) == all);
    }
    out
}


/// The rooms after `u` joined the first room with id `room_id`, if any.
pub open spec fn joined_rooms(rooms: Seq<TuiRoomView>, room_id: u128, u: UserView) -> Seq<TuiRoomView> {
    let i = first_pos(room_ids(rooms), room_id);
    if i < 0 {
        rooms
    } else {
        rooms.update(i, TuiRoomView { users: rooms[i].users.push(u), ..rooms[i] })
    }
}

/// Whether a user coming online is recorded in room `r`: the user is a
/// member not yet online, and is not, in the public room, the user of this
/// client.
pub open spec fn connect_applies(r: TuiRoomView, u: UserView, me: Seq<char>) -> bool {
    &&& r.users.contains(u)
    &&& !r.users_online.contains(u)
    &&& !(r.id == PUBLIC_ROOM_ID && u.username == me)
}

/// Room `r` after user `u` came online.
pub open spec fn connect_room(r: TuiRoomView, u: UserView, me: Seq<char>) -> TuiRoomView {
    if connect_applies(r, u, me) {
        TuiRoomView { users_online: r.users_online.push(u), ..r }
    } else {
        r
    }
}

/// The direct channels that user `u` coming online opens: one for each
/// public room in which the user is recorded online.
pub open spec fn connect_directs(rooms: Seq<TuiRoomView>, u: UserView, me: Seq<char>) -> Seq<
    DirectChannelView,
>
    decreases rooms.len(),
{
    if rooms.len() == 0 {
        Seq::empty()
    } else {
        let r = rooms.last();
        let rest = connect_directs(rooms.drop_last(), u, me);
        if connect_applies(r, u, me) && r.id == PUBLIC_ROOM_ID {
            rest.push(empty_direct(u))
        } else {
            rest
        }
    }
}

/// Room `r` after user `u` went offline.
pub open spec fn disconnect_room(r: TuiRoomView, u: UserView) -> TuiRoomView {
    if r.users.contains(u) {
        TuiRoomView { users_online: drop_id(r.users_online, u.id), ..r }
    } else {
        r
    }
}

/// Whether `u` going offline closes its direct channel: the user is a member
/// of the public room.
pub open spec fn disconnect_closes_direct(rooms: Seq<TuiRoomView>, u: UserView) -> bool {
    exists|k: int| 0 <= k < rooms.len() && rooms[k].users.contains(u) && rooms[k].id == PUBLIC_ROOM_ID
}

/// The direct channels opened for the users online in the public room, other
/// than the user of this client.
pub open spec fn online_directs(users: Seq<UserView>, me: Seq<char>) -> Seq<DirectChannelView>
    decreases users.len(),
{
    if users.len() == 0 {
        Seq::empty()
    } else {
        let rest = online_directs(users.drop_last(), me);
        if users.last().username == me {
            rest
        } else {
            rest.push(empty_direct(users.last()))
        }
    }
}

/// The direct channels that the rooms received at login open.
pub open spec fn init_directs(rooms: Seq<RoomDataView>, me: Seq<char>) -> Seq<DirectChannelView>
    decreases rooms.len(),
{
    if rooms.len() == 0 {
        Seq::empty()
    } else {
        let rest = init_directs(rooms.drop_last(), me);
        if rooms.last().id == PUBLIC_ROOM_ID {
            rest + online_directs(rooms.last().users_online, me)
        } else {
            rest
        }
    }
}

/// The state after `u` joined the room with id `room_id`.
pub open spec fn user_joined(v: AppView, room_id: u128, u: UserView) -> AppView {
    AppView { rooms: joined_rooms(v.rooms, room_id, u), ..v }
}

/// The state after the user with id `uid` left the room with id `room_id`:
/// the user is no longer a member of the first room with that id, and
/// leaving the public room closes the direct channels with the user.
pub open spec fn user_left(v: AppView, room_id: u128, uid: u128) -> AppView {
    let i = first_pos(room_ids(v.rooms), room_id);
    if i < 0 {
        v
    } else {
        let r = v.rooms[i];
        AppView {
            rooms: v.rooms.update(i, TuiRoomView { users: drop_id(r.users, uid), ..r }),
            directs: if r.id == PUBLIC_ROOM_ID {
                drop_direct(v.directs, uid)
            } else {
                v.directs
            },
            ..v
        }
    }
}

/// The state after `u` came online.
pub open spec fn user_connected(v: AppView, u: UserView) -> AppView {
    AppView {
        rooms: v.rooms.map_values(|r: TuiRoomView| connect_room(r, u, v.username)),
        directs: v.directs + connect_directs(v.rooms, u, v.username),
        ..v
    }
}

/// The state after `u` went offline.
pub open spec fn user_disconnected(v: AppView, u: UserView) -> AppView {
    AppView {
        active_channel: if v.active_channel.id == Some(u.id) {
            crate::ui::ActiveChannel { id: None, ..v.active_channel }
        } else {
            v.active_channel
        },
        rooms: v.rooms.map_values(|r: TuiRoomView| disconnect_room(r, u)),
        directs: if disconnect_closes_direct(v.rooms, u) {
            drop_direct(v.directs, u.id)
        } else {
            v.directs
        },
        ..v
    }
}

/// The state after the rooms received at login were loaded.
pub open spec fn init_loaded(v: AppView, rooms: Seq<RoomDataView>) -> AppView {
    AppView {
        rooms: v.rooms + rooms.map_values(|r: RoomDataView| tui_room_of(r)),
        directs: v.directs + init_directs(rooms, v.username),
        ..v
    }
}

/// The views of a list of rooms as the server describes them.
pub open spec fn room_data_views(v: Seq<RoomData>) -> Seq<RoomDataView> {
    v.map_values(|r: RoomData| r@)
}

/// The client's room for a room the server describes.
pub fn tui_room(r: RoomData) -> (t: TuiRoom)
    ensures
        t@ == tui_room_of(r@),
{
    let t = TuiRoom {
        id: r.id,
        name: r.name,
        messages: std::collections::VecDeque::new(),
        users: r.users,
        users_online: r.users_online,
    };
    assert(t@.messages =~= Seq::<crate::types::ChannelMsgView>::empty());
    t
}

/// A new, empty direct channel with `user`.
pub fn new_direct(user: User) -> (c: DirectChannel)
    ensures
        c@ == empty_direct(user@),
{
    let c = DirectChannel { user, messages: std::collections::VecDeque::new() };
    assert(c@.messages =~= Seq::<crate::types::ChannelMsgView>::empty());
    c
}

impl App {
    /// Records that `update.user` joined the room `update.room_id`.
    pub fn handle_user_joined_room(&mut self, update: JoinRoomNotification)
        ensures
            final(self)@ == user_joined(old(self)@, update.room_id, update.user@),
    {
        match self.find_room(update.room_id) {
            None => {},
            Some(i) => {
                proof {
                    lemma_first_pos_bounds(room_ids(self@.rooms), update.room_id);
                }
                let ghost before = self.room_channels@;
                self.room_channels[i].users.push(update.user);
                proof {
                    assert(user_views(self.room_channels@[i as int].users@) =~= user_views(
                        before[i as int].users@,
                    ).push(update.user@));
                    assert(room_views(self.room_channels@) =~= joined_rooms(
                        room_views(before),
                        update.room_id,
                        update.user@,
                    ));
                }
            },
        }
    }

    /// Records that `update.user` left the room `update.room_id`: the user is
    /// no longer a member of the first room with that id, and leaving the
    /// public room closes the direct channels with the user.
    pub fn handle_user_left_room(&mut self, update: LeaveRoomNotification)
        ensures
            final(self)@ == user_left(old(self)@, update.room_id, update.user.id),
    {
        match self.find_room(update.room_id) {
            None => {},
            Some(i) => {
                proof {
                    lemma_first_pos_bounds(room_ids(self@.rooms), update.room_id);
                }
                let uid = update.user.id;
                let ghost before = self.room_channels@;
                let mut users: Vec<User> = Vec::new();
                std::mem::swap(&mut users, &mut self.room_channels[i].users);
                self.room_channels[i].users = without_user(users, uid);
                proof {
                    assert(room_views(self.room_channels@) =~= room_views(before).update(
                        i as int,
                        TuiRoomView {
                            users: drop_id(user_views(before[i as int].users@), uid),
                            ..room_views(before)[i as int]
                        },
                    ));
                }
                if self.room_channels[i].id == PUBLIC_ROOM_ID {
                    let mut directs: Vec<DirectChannel> = Vec::new();
                    std::mem::swap(&mut directs, &mut self.direct_channels);
                    self.direct_channels = without_direct(directs, uid);
                }
            },
        }
    }

    /// Records that `user` came online: in each room where the user is a
    /// member not yet online the user is added to those online, and a direct
    /// channel with the user opens for each such public room; in the public
    /// room the user of this client is skipped.
    pub fn handle_user_connected(&mut self, user: User)
        ensures
            final(self)@ == user_connected(old(self)@, user@),
    {
        let ghost old_rooms = room_views(self.room_channels@);
        let ghost old_directs = direct_views(self.direct_channels@);
        let ghost me = self.username@;
        let ghost start = self@;
        let mut i: usize = 0;
        while i < self.room_channels.len()
            invariant
                i <= self.room_channels.len(),
                room_views(self.room_channels@).len() == old_rooms.len(),
                forall|k: int|
                    0 <= k < i ==> room_views(self.room_channels@)[k] == connect_room(
                        #[trigger] old_rooms[k],
                        user@,
                        me,
                    ),
                forall|k: int|
                    i <= k < old_rooms.len() ==> room_views(self.room_channels@)[k]
                        == #[trigger] old_rooms[k],
                direct_views(self.direct_channels@) == old_directs + connect_directs(
                    old_rooms.subrange(0, i as int),
                    user@,
                    me,
                ),
                me == self.username@,
                self@ == (AppView {
                    rooms: room_views(self.room_channels@),
                    directs: direct_views(self.direct_channels@),
                    ..start
                }),
            decreases self.room_channels.len() - i,
        {
            let ghost r = old_rooms[i as int];
            assert(room_views(self.room_channels@)[i as int] == r);
            let member = users_contain(&self.room_channels[i].users, &user);
            let online = users_contain(&self.room_channels[i].users_online, &user);
            let is_public = self.room_channels[i].id == PUBLIC_ROOM_ID;
            let is_me = user.username == self.username;
            let ghost before_rooms = self.room_channels@;
            let ghost before_directs = self.direct_channels@;
            proof {
                let p = old_rooms.subrange(0, i + 1);
                assert(p.drop_last() == old_rooms.subrange(0, i as int));
                assert(p.last() == r);
            }
            if member && !online && !(is_public && is_me) {
                if is_public {
                    self.direct_channels.push(new_direct(user.duplicate()));
                    proof {
                        assert(direct_views(self.direct_channels@) == direct_views(
                            before_directs,
                        ).push(empty_direct(user@)));
                    }
                }
                self.room_channels[i].users_online.push(user.duplicate());
                proof {
                    assert(user_views(self.room_channels@[i as int].users_online@) =~= user_views(
                        before_rooms[i as int].users_online@,
                    ).push(user@));
                    assert(room_views(self.room_channels@) =~= room_views(before_rooms).update(
                        i as int,
                        connect_room(r, user@, me),
                    ));
                }
            } else {
                assert(connect_room(r, user@, me) == r);
            }
            i = i + 1;
        }
        proof {
            assert(old_rooms.subrange(0, i as int) == old_rooms);
            assert(room_views(self.room_channels@) =~= old_rooms.map_values(
                |r: TuiRoomView| connect_room(r, user@, me),
            ));
        }
    }

    /// Records that `user` went offline: the user is no longer selected, is
    /// removed from those online in every room it belongs to, and, when it
    /// belongs to the public room, the direct channels with it close.
    pub fn handle_user_disconnected(&mut self, user: User)
        ensures
            final(self)@ == user_disconnected(old(self)@, user@),
    {
        if let Some(id) = self.active_channel.id {
            if user.id == id {
                self.active_channel.id = None;
            }
        }
        let ghost old_rooms = room_views(self.room_channels@);
        let ghost old_directs = direct_views(self.direct_channels@);
        let ghost start = self@;
        let mut i: usize = 0;
        while i < self.room_channels.len()
            invariant
                i <= self.room_channels.len(),
                room_views(self.room_channels@).len() == old_rooms.len(),
                forall|k: int|
                    0 <= k < i ==> room_views(self.room_channels@)[k] == disconnect_room(
                        #[trigger] old_rooms[k],
                        user@,
                    ),
                forall|k: int|
                    i <= k < old_rooms.len() ==> room_views(self.room_channels@)[k]
                        == #[trigger] old_rooms[k],
                direct_views(self.direct_channels@) == if disconnect_closes_direct(
                    old_rooms.subrange(0, i as int),
                    user@,
                ) {
                    drop_direct(old_directs, user.id)
                } else {
                    old_directs
                },
                self@ == (AppView {
                    rooms: room_views(self.room_channels@),
                    directs: direct_views(self.direct_channels@),
                    ..start
                }),
            decreases self.room_channels.len() - i,
        {
            let ghost r = old_rooms[i as int];
            assert(room_views(self.room_channels@)[i as int] == r);
            let ghost before_rooms = self.room_channels@;
            let member = users_contain(&self.room_channels[i].users, &user);
            proof {
                let p = old_rooms.subrange(0, i + 1);
                let q = old_rooms.subrange(0, i as int);
                if disconnect_closes_direct(q, user@) {
                    let k = choose|k: int|
                        0 <= k < q.len() && q[k].users.contains(user@) && q[k].id == PUBLIC_ROOM_ID;
                    assert(p[k] == q[k]);
                }
                if disconnect_closes_direct(p, user@) && !(member && r.id == PUBLIC_ROOM_ID) {
                    let k = choose|k: int|
                        0 <= k < p.len() && p[k].users.contains(user@) && p[k].id == PUBLIC_ROOM_ID;
                    assert(k < i);
                    assert(p[k] == q[k]);
                }
                if member && r.id == PUBLIC_ROOM_ID {
                    assert(p[i as int] == r);
                }
            }
            if member {
                if self.room_channels[i].id == PUBLIC_ROOM_ID {
                    let mut directs: Vec<DirectChannel> = Vec::new();
                    std::mem::swap(&mut directs, &mut self.direct_channels);
                    self.direct_channels = without_direct(directs, user.id);
                    proof {
                        lemma_drop_direct_idempotent(old_directs, user.id);
                    }
                }
                let mut online: Vec<User> = Vec::new();
                std::mem::swap(&mut online, &mut self.room_channels[i].users_online);
                self.room_channels[i].users_online = without_user(online, user.id);
                proof {
                    assert(room_views(self.room_channels@) =~= room_views(before_rooms).update(
                        i as int,
                        disconnect_room(r, user@),
                    ));
                }
            }
            i = i + 1;
        }
        proof {
            assert(old_rooms.subrange(0, i as int) == old_rooms);
            assert(room_views(self.room_channels@) =~= old_rooms.map_values(
                |r: TuiRoomView| disconnect_room(r, user@),
            ));
        }
    }

    /// Takes in the rooms received at login: each is added to the rooms,
    /// without messages, and the users online in the public room, other than
    /// this client's user, get direct channels.
    pub fn handle_init_data(&mut self, data: UserInitData)
        ensures
            final(self)@ == init_loaded(old(self)@, room_data_views(data.rooms@)),
    {
        let ghost start = self@;
        let ghost all = room_data_views(data.rooms@);
        let ghost me = self.username@;
        let mut rest = data.rooms;
        let n0 = rest.len();
        let mut i: usize = 0;
        while rest.len() > 0
            invariant
                i + room_data_views(rest@).len() == all.len(),
                all.len() == n0,
                room_data_views(rest@) == all.subrange(i as int, all.len() as int),
                me == self.username@,
                self@ == (AppView {
                    rooms: start.rooms + all.subrange(0, i as int).map_values(
                        |r: RoomDataView| tui_room_of(r),
                    ),
                    directs: start.directs + init_directs(all.subrange(0, i as int), me),
                    ..start
                }),
            decreases rest.len(),
        {
            let ghost old_rest = rest@;
            let room = rest.remove(0);
            proof {
                assert(room_data_views(old_rest)[0] == room@);
                assert(all[i as int] == room@);
                assert(room_data_views(rest@) =~= room_data_views(old_rest).drop_first());
                let p = all.subrange(0, i + 1);
                assert(p.drop_last() == all.subrange(0, i as int));
                assert(p.last() == room@);
                assert(p.map_values(|r: RoomDataView| tui_room_of(r)) =~= all.subrange(
                    0,
                    i as int,
                ).map_values(|r: RoomDataView| tui_room_of(r)).push(tui_room_of(room@)));
            }
            if room.id == PUBLIC_ROOM_ID {
                let ghost base = direct_views(self.direct_channels@);
                let ghost mid = self@;
                let mut j: usize = 0;
                while j < room.users_online.len()
                    invariant
                        j <= room.users_online.len(),
                        me == self.username@,
                        direct_views(self.direct_channels@) == base + online_directs(
                            user_views(room.users_online@).subrange(0, j as int),
                            me,
                        ),
                        self@ == (AppView { directs: direct_views(self.direct_channels@), ..mid }),
                    decreases room.users_online.len() - j,
                {
                    let ghost before = self.direct_channels@;
                    proof {
                        let us = user_views(room.users_online@);
                        let p = us.subrange(0, j + 1);
                        assert(p.drop_last() == us.subrange(0, j as int));
                        assert(p.last() == room.users_online@[j as int]@);
                    }
                    if room.users_online[j].username != self.username {
                        self.direct_channels.push(new_direct(room.users_online[j].duplicate()));
                        proof {
                            assert(direct_views(self.direct_channels@) =~= direct_views(before).push(
                                empty_direct(room.users_online@[j as int]@),
                            ));
                        }
                    }
                    j = j + 1;
                }
                proof {
                    assert(user_views(room.users_online@).subrange(
                        0,
                        room.users_online@.len() as int,
                    ) == user_views(room.users_online@));
                }
            }
            let ghost before_rooms = self.room_channels@;
            let ghost rv = room@;
            self.room_channels.push(tui_room(room));
            proof {
                assert(room_views(self.room_channels@) =~= room_views(before_rooms).push(
                    tui_room_of(all[i as int]),
                ));
                let p = all.subrange(0, i + 1);
                let q = all.subrange(0, i as int);
                if rv.id == PUBLIC_ROOM_ID {
                    assert(init_directs(p, me) == init_directs(q, me) + online_directs(
                        rv.users_online,
                        me,
                    ));
                    assert(start.directs + init_directs(p, me) =~= start.directs + init_directs(q, me)
                        + online_directs(rv.users_online, me));
                } else {
                    assert(init_directs(p, me) == init_directs(q, me));
                }
            }
            i = i + 1;
        }
        proof {
            assert(all.subrange(0, i as int) == all);
        }
    }
}

} // verus!
