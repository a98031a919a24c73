//! Messages from the server as the client takes them in: file transfers go
//! to the stream handler, everything else updates the interface state.
use vstd::prelude::*;
use crate::client::{img_received, img_target_known, text_received, App};
use crate::membership::{
    init_loaded, room_data_views, user_connected, user_disconnected, user_joined, user_left,
};
use crate::session::{auth_answered, join_answered, register_answered, room_result_view, user_result_view};
use crate::types::{
    Chunk, FileMetadata, ImgRender, JoinRoomNotification, LeaveRoomNotification, RoomData,
    ServerClientMsg, TextMsg, User, UserInitData,
};

verus! {

/// An update of the interface state.
#[derive(Debug)]
pub enum TuiUpdate {
    Img(ImgRender),
    Text(TextMsg),
    UserJoinedRoom(JoinRoomNotification),
    UserLeftRoom(LeaveRoomNotification),
    /// The answer to a request to create or to join a room.
    JoinRoom(Result<RoomData, String>),
    Auth(Result<User, String>),
    Init(UserInitData),
    UserDisconnected(User),
    UserConnected(User),
    RegisterResponse(Result<User, String>),
}

/// A part of a file transfer.
#[derive(Debug)]
pub enum StreamMsg {
    FileMetadata(FileMetadata),
    FileChunk(Chunk),
}

/// Where a message from the server goes.
#[derive(Debug)]
pub enum Routed {
    Tui(TuiUpdate),
    Stream(StreamMsg),
}

/// Sends a message from the server where it belongs: file transfers to the
/// stream handler, the answers to creating and to joining a room both as a
/// room answer, everything else as the matching interface update.
pub fn route_server_msg(msg: ServerClientMsg) -> (r: Routed)
    ensures
        match msg {
            ServerClientMsg::FileMetadata(m) => r == Routed::Stream(StreamMsg::FileMetadata(m)),
            ServerClientMsg::FileChunk(c) => r == Routed::Stream(StreamMsg::FileChunk(c)),
            ServerClientMsg::UserJoinedRoom(n) => r == Routed::Tui(TuiUpdate::UserJoinedRoom(n)),
            ServerClientMsg::Text(m) => r == Routed::Tui(TuiUpdate::Text(m)),
            ServerClientMsg::Init(d) => r == Routed::Tui(TuiUpdate::Init(d)),
            ServerClientMsg::UserLeftRoom(n) => r == Routed::Tui(TuiUpdate::UserLeftRoom(n)),
            ServerClientMsg::Auth(a) => r == Routed::Tui(TuiUpdate::Auth(a)),
            ServerClientMsg::Register(a) => r == Routed::Tui(TuiUpdate::RegisterResponse(a)),
            ServerClientMsg::UserConnected(u) => r == Routed::Tui(TuiUpdate::UserConnected(u)),
            ServerClientMsg::UserDisconnected(u) => r == Routed::Tui(TuiUpdate::UserDisconnected(u)),
            ServerClientMsg::CreateRoomResponse(a) => r == Routed::Tui(TuiUpdate::JoinRoom(a)),
            ServerClientMsg::JoinRoomResponse(a) => r == Routed::Tui(TuiUpdate::JoinRoom(a)),
            ServerClientMsg::ASCII(i) => r == Routed::Tui(TuiUpdate::Img(i)),
        },
{
    match msg {
        ServerClientMsg::FileMetadata(m) => Routed::Stream(StreamMsg::FileMetadata(m)),
        ServerClientMsg::FileChunk(c) => Routed::Stream(StreamMsg::FileChunk(c)),
        ServerClientMsg::UserJoinedRoom(n) => Routed::Tui(TuiUpdate::UserJoinedRoom(n)),
        ServerClientMsg::Text(m) => Routed::Tui(TuiUpdate::Text(m)),
        ServerClientMsg::Init(d) => Routed::Tui(TuiUpdate::Init(d)),
        ServerClientMsg::UserLeftRoom(n) => Routed::Tui(TuiUpdate::UserLeftRoom(n)),
        ServerClientMsg::Auth(a) => Routed::Tui(TuiUpdate::Auth(a)),
        ServerClientMsg::Register(a) => Routed::Tui(TuiUpdate::RegisterResponse(a)),
        ServerClientMsg::UserConnected(u) => Routed::Tui(TuiUpdate::UserConnected(u)),
        ServerClientMsg::UserDisconnected(u) => Routed::Tui(TuiUpdate::UserDisconnected(u)),
        ServerClientMsg::CreateRoomResponse(a) => Routed::Tui(TuiUpdate::JoinRoom(a)),
        ServerClientMsg::JoinRoomResponse(a) => Routed::Tui(TuiUpdate::JoinRoom(a)),
        ServerClientMsg::ASCII(i) => Routed::Tui(TuiUpdate::Img(i)),
    }
}

impl App {
    /// Applies one update from the server with the handler for its kind. An
    /// image for an unknown room or user is handed back as the error.
    pub fn handle_update(&mut self, update: TuiUpdate) -> (res: Result<(), ImgRender>)
        ensures
            old(self).wf() ==> final(self).wf(),
            match update {
                TuiUpdate::Img(img) => if img_target_known(old(self)@, img@) {
                    &&& res is Ok
                    &&& final(self)@ == img_received(old(self)@, img@)
                } else {
                    &&& res matches Err(back) && back@ == img@
                    &&& final(self)@ == old(self)@
                },
                TuiUpdate::Text(m) => res is Ok && final(self)@ == text_received(old(self)@, m@),
                TuiUpdate::UserJoinedRoom(n) => res is Ok && final(self)@ == user_joined(
                    old(self)@,
                    n.room_id,
                    n.user@,
                ),
                TuiUpdate::UserLeftRoom(n) => res is Ok && final(self)@ == user_left(
                    old(self)@,
                    n.room_id,
                    n.user.id,
                ),
                TuiUpdate::JoinRoom(a) => res is Ok && final(self)@ == join_answered(
                    old(self)@,
                    room_result_view(a),
                ),
                TuiUpdate::Auth(a) => res is Ok && final(self)@ == auth_answered(
                    old(self)@,
                    user_result_view(a),
                ),
                TuiUpdate::Init(d) => res is Ok && final(self)@ == init_loaded(
                    old(self)@,
                    room_data_views(d.rooms@),
                ),
                TuiUpdate::UserDisconnected(u) => res is Ok && final(self)@ == user_disconnected(
                    old(self)@,
                    u@,
                ),
                TuiUpdate::UserConnected(u) => res is Ok && final(self)@ == user_connected(
                    old(self)@,
                    u@,
                ),
                TuiUpdate::RegisterResponse(a) => res is Ok && final(self)@ == register_answered(
                    old(self)@,
                    user_result_view(a),
                ),
            },
    {
        match update {
            TuiUpdate::Img(img) => self.handle_img_render(img),
            TuiUpdate::Text(m) => {
                self.handle_text_message(m);
                Ok(())
            },
            TuiUpdate::UserJoinedRoom(n) => {
                self.handle_user_joined_room(n);
                Ok(())
            },
            TuiUpdate::UserLeftRoom(n) => {
                self.handle_user_left_room(n);
                Ok(())
            },
            TuiUpdate::JoinRoom(a) => {
                self.handle_join_room(a);
                Ok(())
            },
            TuiUpdate::Auth(a) => {
                self.handle_auth_response(a);
                Ok(())
            },
            TuiUpdate::Init(d) => {
                self.handle_init_data(d);
                Ok(())
            },
            TuiUpdate::UserDisconnected(u) => {
                self.handle_user_disconnected(u);
                Ok(())
            },
            TuiUpdate::UserConnected(u) => {
                self.handle_user_connected(u);
                Ok(())
            },
            TuiUpdate::RegisterResponse(a) => {
                self.handle_register_response(a);
                Ok(())
            },
        }
    }
}

} // verus!
