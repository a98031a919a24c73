//! The server's record of who is connected, and what it answers from it:
//! whether a name is online, and which members of a room are online.
use vstd::prelude::*;
use std::collections::HashMap;
use vstd::std_specs::iter::IteratorSpec;
use crate::membership::users_contain;
use crate::types::{RoomData, RoomDataView, User, UserView, user_views};

verus! {

/// The members of `users` that are connected, in order.
pub open spec fn online_members(users: Seq<UserView>, connected: Map<u128, User>) -> Seq<UserView>
    decreases users.len(),
{
    if users.len() == 0 {
        users
    } else {
        let rest = online_members(users.drop_last(), connected);
        if connected.contains_key(users.last().id) {
            rest.push(users.last())
        } else {
            rest
        }
    }
}

/// Whether a connected user has the name `username`.
pub open spec fn name_online(connected: Map<u128, User>, username: Seq<char>) -> bool {
    exists|k: u128| #[trigger] connected.contains_key(k) && connected[k].username@ == username
}


/// A request to the server's record of connected users.
#[derive(Debug)]
pub enum ManagerEvent {
    /// A user connected.
    ClientConnected(User),
    /// The user with this id disconnected.
    ClientDropped(u128),
    /// A client wants to talk directly to the user with id `to`.
    GetDirectChannelTx { to: u128 },
    /// A client wants the broadcast channel of a room with these members.
    GetRoomChannelTx { room_id: u128, room_users: Vec<User> },
    /// A new account was registered.
    UserRegistered(User),
    /// Is a user with this name connected?
    IsOnline(String),
    /// Fill in who of the room's members is online.
    UpdateRoom(RoomData),
    /// Fill in who is online in each of the rooms.
    UpdateMultipleRooms(Vec<RoomData>),
}

/// What is left to do after a request: the one message to send.
#[derive(Debug)]
pub enum ManagerAction {
    /// Nothing.
    Nothing,
    /// Hand the direct-channel request to this connected user's task.
    ForwardDirectComm(u128),
    /// The addressed user is not connected; the request is dropped.
    ClientNotFound,
    /// Ask this connected member's task for the room's broadcast channel.
    AskRoomTransmitter { client: u128, room_id: u128 },
    /// No member is connected: answer with a new broadcast channel.
    NewRoomChannel,
    /// Announce the new user in the public room through this connected
    /// user's task.
    AnnounceRegistered { via: u128, user: User },
    /// Answer whether the name is online.
    ReplyOnline(bool),
    /// Answer with the room, its online members filled in.
    ReplyRoom(RoomData),
    /// Answer with the rooms, their online members filled in.
    ReplyRooms(Vec<RoomData>),
}

/// The users connected to the server, by id.
pub struct ManagerState {
    pub connected_users: HashMap<u128, User>,
}

impl ManagerState {
    /// Nobody connected.
    pub fn new() -> (m: ManagerState)
        ensures
            m.connected_users@ == Map::<u128, User>::empty(),
    {
        broadcast use vstd::std_specs::hash::group_hash_axioms;

        ManagerState { connected_users: HashMap::new() }
    }

    /// Records that `user` connected; an earlier record with the same id is
    /// replaced.
    pub fn handle_client_connected(&mut self, user: User)
        ensures
            final(self).connected_users@ == old(self).connected_users@.insert(user.id, user),
    {
        broadcast use vstd::std_specs::hash::group_hash_axioms;

        self.connected_users.insert(user.id, user);
    }

    /// Records that the user with id `id` disconnected.
    pub fn handle_client_dropped(&mut self, id: u128)
        ensures
            final(self).connected_users@ == old(self).connected_users@.remove(id),
    {
        broadcast use vstd::std_specs::hash::group_hash_axioms;

        self.connected_users.remove(&id);
    }

    /// Whether a connected user has the name `username`.
    pub fn handle_is_online(&self, username: &String) -> (online: bool)
        ensures
            online == name_online(self.connected_users@, username@),
    {
        broadcast use vstd::std_specs::hash::group_hash_axioms;

        let ghost v = vstd::std_specs::hash::spec_hash_map_iter(&self.connected_users).remaining();
        let mut found = false;
        for entry in it: self.connected_users.iter()
            invariant
                it.seq() == v,
                found == exists|j: int|
                    0 <= j < it.index() && (#[trigger] it.seq()[j]).1.username@ == username@,
        {
            let (_k, u) = entry;
            if u.username == *username {
                found = true;
            }
        }
        assert(found == exists|j: int| 0 <= j < v.len() && (#[trigger] v[j]).1.username@ == username@);
        proof {
            if found {
                let j = choose|j: int| 0 <= j < v.len() && (#[trigger] v[j]).1.username@ == username@;
                assert(self.connected_users@.contains_key(*v[j].0));
            }
            if name_online(self.connected_users@, username@) {
                let k = choose|k: u128|
                    #[trigger] self.connected_users@.contains_key(k)
                        && self.connected_users@[k].username@ == username@;
                assert(v.contains((&k, &self.connected_users@[k])));
            }
        }
        found
    }

    /// Sets who of the room's members is online: those connected, in the
    /// order of the members.
    pub fn update_room_online_users(&self, room: &mut RoomData)
        ensures
            final(room)@ == (RoomDataView {
                users_online: online_members(old(room)@.users, self.connected_users@),
                ..old(room)@
            }),
    {
        broadcast use vstd::std_specs::hash::group_hash_axioms;

        let mut online: Vec<User> = Vec::new();
        let mut i: usize = 0;
        while i < room.users.len()
            invariant
                i <= room.users.len(),
                room@ == old(room)@,
                user_views(online@) == online_members(
                    user_views(room.users@).subrange(0, i as int),
                    self.connected_users@,
                ),
            decreases room.users.len() - i,
        {
            let ghost before = online@;
            proof {
                let us = user_views(room.users@);
                let p = us.subrange(0, i + 1);
                assert(p.drop_last() == us.subrange(0, i as int));
                assert(p.last() == room.users@[i as int]@);
            }
            if self.connected_users.contains_key(&room.users[i].id) {
                online.push(room.users[i].duplicate());
                proof {
                    assert(user_views(online@) == user_views(before).push(room.users@[i as int]@));
                }
            }
            i = i + 1;
        }
        proof {
            assert(user_views(room.users@).subrange(0, room.users@.len() as int) == user_views(
                room.users@,
            ));
        }
        room.users_online = online;
    }

    /// Sets who is online in each of the rooms.
    pub fn handle_update_multiple_rooms(&self, rooms: &mut Vec<RoomData>)
        ensures
            final(rooms)@.len() == old(rooms)@.len(),
            forall|k: int|
                0 <= k < old(rooms)@.len() ==> (#[trigger] final(rooms)@[k])@ == (RoomDataView {
                    users_online: online_members(old(rooms)@[k]@.users, self.connected_users@),
                    ..old(rooms)@[k]@
                }),
    {
        let mut i: usize = 0;
        while i < rooms.len()
            invariant
                i <= rooms.len(),
                rooms@.len() == old(rooms)@.len(),
                forall|k: int|
                    0 <= k < i ==> (#[trigger] rooms@[k])@ == (RoomDataView {
                        users_online: online_members(old(rooms)@[k]@.users, self.connected_users@),
                        ..old(rooms)@[k]@
                    }),
                forall|k: int| i <= k < rooms@.len() ==> #[trigger] rooms@[k] == old(rooms)@[k],
            decreases rooms.len() - i,
        {
            self.update_room_online_users(&mut rooms[i]);
            i = i + 1;
        }
    }

    /// The first member of `users`, in order, that is connected.
    pub fn first_connected(&self, users: &Vec<User>) -> (r: Option<usize>)
        ensures
            match r {
                Some(i) => i < users@.len() && self.connected_users@.contains_key(users@[i as int].id)
                    && forall|k: int|
                    0 <= k < i ==> !self.connected_users@.contains_key(#[trigger] users@[k].id),
                None => forall|k: int|
                    0 <= k < users@.len() ==> !self.connected_users@.contains_key(
                        #[trigger] users@[k].id,
                    ),
            },
    {
        broadcast use vstd::std_specs::hash::group_hash_axioms;

        let mut i: usize = 0;
        while i < users.len()
            invariant
                i <= users.len(),
                forall|k: int|
                    0 <= k < i ==> !self.connected_users@.contains_key(#[trigger] users@[k].id),
            decreases users.len() - i,
        {
            if self.connected_users.contains_key(&users[i].id) {
                return Some(i);
            }
            i = i + 1;
        }
        None
    }

    /// The id of some connected user, or `None` when nobody is connected.
    /// Which one comes back depends on the order in which the map is walked.
    pub fn any_connected(&self) -> (r: Option<u128>)
        ensures
            match r {
                Some(id) => self.connected_users@.contains_key(id),
                None => self.connected_users@.dom().is_empty(),
            },
    {
        broadcast use vstd::std_specs::hash::group_hash_axioms;

        let ghost v = vstd::std_specs::hash::spec_hash_map_iter(&self.connected_users).remaining();
        let mut found: Option<u128> = None;
        for entry in it: self.connected_users.iter()
            invariant
                it.seq() == v,
                match found {
                    Some(id) => self.connected_users@.contains_key(id),
                    None => it.index() == 0,
                },
        {
            let (k, _u) = entry;
            if found.is_none() {
                proof {
                    assert(v.contains(entry));
                }
                found = Some(*k);
            }
        }
        proof {
            if found is None && !self.connected_users@.dom().is_empty() {
                let k = self.connected_users@.dom().choose();
                assert(self.connected_users@.contains_key(k));
                assert(v.contains((&k, &self.connected_users@[k])));
            }
        }
        found
    }

    /// Answers one request, and updates the record when a user connects or
    /// disconnects. The answer is the one message left to send.
    pub fn handle_event(&mut self, event: ManagerEvent) -> (a: ManagerAction)
        ensures
            match event {
                ManagerEvent::ClientConnected(u) => {
                    &&& final(self).connected_users@ == old(self).connected_users@.insert(u.id, u)
                    &&& a is Nothing
                },
                ManagerEvent::ClientDropped(id) => {
                    &&& final(self).connected_users@ == old(self).connected_users@.remove(id)
                    &&& a is Nothing
                },
                _ => final(self).connected_users@ == old(self).connected_users@,
            },
            match event {
                ManagerEvent::GetDirectChannelTx { to } => if old(self).connected_users@.contains_key(
                    to,
                ) {
                    a == ManagerAction::ForwardDirectComm(to)
                } else {
                    a is ClientNotFound
                },
                ManagerEvent::GetRoomChannelTx { room_id, room_users } => {
                    let c = old(self).connected_users@;
                    if exists|k: int|
                        0 <= k < room_users@.len() && c.contains_key(#[trigger] room_users@[k].id) {
                        exists|i: int|
                            0 <= i < room_users@.len() && c.contains_key(#[trigger] room_users@[i].id)
                                && (forall|k: int|
                                0 <= k < i ==> !c.contains_key(#[trigger] room_users@[k].id))
                                && a == (ManagerAction::AskRoomTransmitter {
                                client: room_users@[i].id,
                                room_id,
                            })
                    } else {
                        a is NewRoomChannel
                    }
                },
                ManagerEvent::UserRegistered(user) => if old(self).connected_users@.dom().is_empty() {
                    a is Nothing
                } else {
                    a matches ManagerAction::AnnounceRegistered { via, user: u }
                        && old(self).connected_users@.contains_key(via) && u@ == user@
                },
                ManagerEvent::IsOnline(name) => a == ManagerAction::ReplyOnline(
                    name_online(old(self).connected_users@, name@),
                ),
                ManagerEvent::UpdateRoom(room) => a matches ManagerAction::ReplyRoom(r) && r@ == (
                RoomDataView {
                    users_online: online_members(room@.users, old(self).connected_users@),
                    ..room@
                }),
                ManagerEvent::UpdateMultipleRooms(rooms) => a matches ManagerAction::ReplyRooms(rs)
                    && rs@.len() == rooms@.len() && forall|k: int|
                    0 <= k < rooms@.len() ==> (#[trigger] rs@[k])@ == (RoomDataView {
                        users_online: online_members(rooms@[k]@.users, old(self).connected_users@),
                        ..rooms@[k]@
                    }),
                _ => a is Nothing,
            },
    {
        match event {
            ManagerEvent::ClientConnected(u) => {
                self.handle_client_connected(u);
                ManagerAction::Nothing
            },
            ManagerEvent::ClientDropped(id) => {
                self.handle_client_dropped(id);
                ManagerAction::Nothing
            },
            ManagerEvent::GetDirectChannelTx { to } => {
                broadcast use vstd::std_specs::hash::group_hash_axioms;

                if self.connected_users.contains_key(&to) {
                    ManagerAction::ForwardDirectComm(to)
                } else {
                    ManagerAction::ClientNotFound
                }
            },
            ManagerEvent::GetRoomChannelTx { room_id, room_users } => {
                match self.first_connected(&room_users) {
                    Some(i) => ManagerAction::AskRoomTransmitter { client: room_users[i].id, room_id },
                    None => ManagerAction::NewRoomChannel,
                }
            },
            ManagerEvent::UserRegistered(user) => match self.any_connected() {
                None => ManagerAction::Nothing,
                Some(via) => ManagerAction::AnnounceRegistered { via, user },
            },
            ManagerEvent::IsOnline(name) => ManagerAction::ReplyOnline(self.handle_is_online(&name)),
            ManagerEvent::UpdateRoom(room) => {
                let mut room = room;
                self.update_room_online_users(&mut room);
                ManagerAction::ReplyRoom(room)
            },
            ManagerEvent::UpdateMultipleRooms(rooms) => {
                let mut rooms = rooms;
                self.handle_update_multiple_rooms(&mut rooms);
                ManagerAction::ReplyRooms(rooms)
            },
        }
    }
}

} // verus!
