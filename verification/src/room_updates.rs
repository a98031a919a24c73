//! Whole rooms sent by the server: an invitation adds a room, an update
//! replaces it. The public room also decides the direct channels: one per
//! other member, keeping the messages of channels that already exist.
use vstd::prelude::*;
use crate::client::{direct_ids, first_pos, lemma_first_pos, lemma_first_pos_bounds, room_ids, App, AppView};
use crate::types::{
    direct_views, empty_direct, room_views, user_views, DirectChannel, DirectChannelView, TuiRoom,
    TuiRoomView, UserView, PUBLIC_ROOM_ID,
};
use crate::membership::new_direct;
use crate::ui::{ActiveChannel, ChannelKind};

verus! {

/// The ids of a list of users, in order.
pub open spec fn user_ids(users: Seq<UserView>) -> Seq<u128> {
    users.map_values(|u: UserView| u.id)
}

/// The users without the first one whose id is `id`, if there is one.
pub open spec fn without_first_id(users: Seq<UserView>, id: u128) -> Seq<UserView> {
    let i = first_pos(user_ids(users), id);
    if i < 0 {
        users
    } else {
        users.remove(i)
    }
}

/// One direct channel per user, in order: the first existing channel with
/// that user, messages and all, or a new empty one.
pub open spec fn kept_directs(users: Seq<UserView>, directs: Seq<DirectChannelView>) -> Seq<
    DirectChannelView,
> {
    users.map_values(
        |u: UserView|
            {
                let i = first_pos(direct_ids(directs), u.id);
                if i >= 0 {
                    directs[i]
                } else {
                    empty_direct(u)
                }
            },
    )
}

/// The state after an invitation to `room`. For the public room the user of
/// this client is left out of its members and a new direct channel is added
/// for each other member; the room is added to the rooms.
pub open spec fn room_invited(v: AppView, room: TuiRoomView) -> AppView {
    if room.id == PUBLIC_ROOM_ID {
        let others = without_first_id(room.users, v.id);
        AppView {
            directs: v.directs + others.map_values(|u: UserView| empty_direct(u)),
            rooms: v.rooms.push(TuiRoomView { users: others, ..room }),
            ..v
        }
    } else {
        AppView { rooms: v.rooms.push(room), ..v }
    }
}

/// The selection after the direct channels became `directs`: a selected
/// user without a channel, or a selected room that is not known, is no
/// longer selected.
pub open spec fn checked_selection(
    a: ActiveChannel,
    directs: Seq<DirectChannelView>,
    rooms: Seq<TuiRoomView>,
) -> ActiveChannel {
    match a.id {
        None => a,
        Some(id) => match a.kind {
            ChannelKind::Direct => if direct_ids(directs).contains(id) {
                a
            } else {
                ActiveChannel { id: None, ..a }
            },
            ChannelKind::Room => if room_ids(rooms).contains(id) {
                a
            } else {
                ActiveChannel { id: None, ..a }
            },
        },
    }
}

/// The state after an update of `room`. For the public room the user of this
/// client is left out of its members, the direct channels become one per
/// other member (see `kept_directs`) and the selection is checked; then the
/// first room with the same id, if any, is replaced.
pub open spec fn room_updated(v: AppView, room: TuiRoomView) -> AppView {
    let i = first_pos(room_ids(v.rooms), room.id);
    if room.id == PUBLIC_ROOM_ID {
        let others = without_first_id(room.users, v.id);
        let directs = kept_directs(others, v.directs);
        let r = TuiRoomView { users: others, ..room };
        AppView {
            directs,
            active_channel: checked_selection(v.active_channel, directs, v.rooms),
            rooms: if i >= 0 {
                v.rooms.update(i, r)
            } else {
                v.rooms
            },
            ..v
        }
    } else {
        AppView {
            rooms: if i >= 0 {
                v.rooms.update(i, room)
            } else {
                v.rooms
            },
            ..v
        }
    }
}

/// Leaves out of `room`'s members the first one whose id is `id`.
fn drop_first_member(room: &mut TuiRoom, id: u128)
    ensures
        final(room)@ == (TuiRoomView { users: without_first_id(old(room)@.users, id), ..old(room)@ }),
{
    let ghost ids = user_ids(user_views(room.users@));
    let mut i: usize = 0;
    while i < room.users.len()
        invariant
            i <= room.users@.len(),
            room@ == old(room)@,
            ids == user_ids(user_views(room.users@)),
            ids.len() == room.users@.len(),
            forall|k: int| 0 <= k < i ==> ids[k] != id,
        decreases room.users@.len() - i,
    {
        assert(ids[i as int] == room.users@[i as int].id);
        if room.users[i].id == id {
            proof {
                lemma_first_pos(ids, id, i as int);
            }
            let ghost before = room.users@;
            room.users.remove(i);
            proof {
                assert(user_views(room.users@) =~= user_views(before).remove(i as int));
            }
            return;
        }
        i = i + 1;
    }
    proof {
        lemma_first_pos(ids, id, i as int);
    }
}

impl App {
    /// Whether a direct channel with the user whose id is `id` exists.
    fn has_direct(&self, id: u128) -> (b: bool)
        ensures
            b == direct_ids(self@.directs).contains(id),
    {
        let r = self.find_direct(id);
        proof {
            lemma_first_pos_bounds(direct_ids(self@.directs), id);
        }
        r.is_some()
    }

    /// Whether a room with id `id` is known.
    fn has_room(&self, id: u128) -> (b: bool)
        ensures
            b == room_ids(self@.rooms).contains(id),
    {
        let r = self.find_room(id);
        proof {
            lemma_first_pos_bounds(room_ids(self@.rooms), id);
        }
        r.is_some()
    }

    /// Takes in a room the user was invited to; see `room_invited`.
    pub fn handle_room_invitation(&mut self, room: TuiRoom)
        ensures
            final(self)@ == room_invited(old(self)@, room@),
    {
        let ghost r0 = room@;
        let ghost v0 = self@;
        let mut room = room;
        if room.id == PUBLIC_ROOM_ID {
            drop_first_member(&mut room, self.id);
            let ghost start = self.direct_channels@;
            let ghost r1 = room@;
            let mut i: usize = 0;
            while i < room.users.len()
                invariant
                    i <= room.users@.len(),
                    room@ == r1,
                    self@ == (AppView { directs: self@.directs, ..v0 }),
                    start == old(self).direct_channels@,
                    direct_views(self.direct_channels@) == direct_views(start) + user_views(
                        room.users@,
                    ).subrange(0, i as int).map_values(|u: UserView| empty_direct(u)),
                decreases room.users@.len() - i,
            {
                let ghost before = self.direct_channels@;
                let c = new_direct(room.users[i].duplicate());
                self.direct_channels.push(c);
                proof {
                    let us = user_views(room.users@);
                    assert(direct_views(self.direct_channels@) == direct_views(before).push(
                        empty_direct(us[i as int]),
                    ));
                    assert(us.subrange(0, i + 1) == us.subrange(0, i as int).push(us[i as int]));
                    assert(us.subrange(0, i + 1).map_values(|u: UserView| empty_direct(u))
                        == us.subrange(0, i as int).map_values(|u: UserView| empty_direct(u)).push(
                        empty_direct(us[i as int]),
                    ));
                }
                i = i + 1;
            }
            proof {
                let us = user_views(room.users@);
                assert(us.subrange(0, us.len() as int) == us);
            }
        }
        let ghost rooms_before = self.room_channels@;
        self.room_channels.push(room);
        proof {
            assert(room_views(self.room_channels@) == room_views(rooms_before).push(room@));
            let target = room_invited(v0, r0);
            if r0.id == PUBLIC_ROOM_ID {
                assert(self@.directs =~= target.directs);
            }
            assert(self@.rooms =~= target.rooms);
            assert(self@ == target);
        }
    }

    /// The direct channels for `users`, in order; see `kept_directs`.
    fn rebuilt_directs(&self, users: &Vec<crate::types::User>) -> (out: Vec<DirectChannel>)
        ensures
            direct_views(out@) == kept_directs(user_views(users@), self@.directs),
    {
        let ghost us = user_views(users@);
        let mut out: Vec<DirectChannel> = Vec::new();
        let mut i: usize = 0;
        while i < users.len()
            invariant
                i <= users@.len(),
                us == user_views(users@),
                direct_views(out@) == kept_directs(us.subrange(0, i as int), self@.directs),
            decreases users@.len() - i,
        {
            let ghost before = out@;
            let u = &users[i];
            let c = match self.find_direct(u.id) {
                Some(k) => {
                    proof {
                        lemma_first_pos_bounds(direct_ids(self@.directs), u.id);
                    }
                    self.direct_channels[k].duplicate()
                },
                None => new_direct(u.duplicate()),
            };
            out.push(c);
            proof {
                assert(direct_views(out@) == direct_views(before).push(c@));
                assert(us.subrange(0, i + 1) == us.subrange(0, i as int).push(us[i as int]));
                assert(kept_directs(us.subrange(0, i + 1), self@.directs) == kept_directs(
                    us.subrange(0, i as int),
                    self@.directs,
                ).push(c@));
            }
            i = i + 1;
        }
        assert(us.subrange(0, us.len() as int) == us);
        out
    }

    /// Takes in a new version of a room; see `room_updated`.
    pub fn handle_room_update(&mut self, room: TuiRoom)
        ensures
            final(self)@ == room_updated(old(self)@, room@),
    {
        let mut room = room;
        if room.id == PUBLIC_ROOM_ID {
            drop_first_member(&mut room, self.id);
            let directs = self.rebuilt_directs(&room.users);
            self.direct_channels = directs;
            match self.active_channel.id {
                None => {},
                Some(id) => match self.active_channel.kind {
                    ChannelKind::Direct => {
                        if !self.has_direct(id) {
                            self.active_channel.id = None;
                        }
                    },
                    ChannelKind::Room => {
                        if !self.has_room(id) {
                            self.active_channel.id = None;
                        }
                    },
                },
            }
        }
        match self.find_room(room.id) {
            None => {},
            Some(i) => {
                proof {
                    lemma_first_pos_bounds(room_ids(self@.rooms), room.id);
                }
                let ghost before = self.room_channels@;
                self.room_channels.set(i, room);
                proof {
                    assert(room_views(self.room_channels@) =~= room_views(before).update(
                        i as int,
                        room@,
                    ));
                }
            },
        }
    }
}

} // verus!
