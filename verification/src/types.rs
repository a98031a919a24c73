//! The values that client and server exchange, and the client's record of
//! rooms and direct channels.
use vstd::prelude::*;

verus! {

/// The id of the public room that every user belongs to,
/// `7e40f106-3e7d-498a-94cc-5fa7f62cfce6` as a 128-bit number.
pub const PUBLIC_ROOM_ID: u128 = 0x7e40f1063e7d498a94cc5fa7f62cfce6u128;

/// The public room id in its hyphenated text form.
pub const PUBLIC_ROOM_ID_STR: &'static str = "7e40f106-3e7d-498a-94cc-5fa7f62cfce6";

/// Number of bytes of file data that one chunk carries.
pub const TCP_CHUNK_BUFFER_SIZE: usize = 8192;

/// A user: a name and an id.
#[derive(Debug)]
pub struct User {
    pub username: String,
    pub id: u128,
}

/// A user as a value.
pub struct UserView {
    pub username: Seq<char>,
    pub id: u128,
}

impl View for User {
    type V = UserView;

    open spec fn view(&self) -> UserView {
        UserView { username: self.username@, id: self.id }
    }
}

impl User {
    /// A copy of this user.
    pub fn duplicate(&self) -> (u: User)
        ensures
            u@ == self@,
    {
        User { username: self.username.clone(), id: self.id }
    }

    /// Whether two users are the same: the same name and the same id.
    pub fn same_as(&self, other: &User) -> (b: bool)
        ensures
            b == (self@ == other@),
    {
        self.id == other.id && self.username == other.username
    }
}

/// The views of a list of users.
pub open spec fn user_views(v: Seq<User>) -> Seq<UserView> {
    v.map_values(|u: User| u@)
}

/// A copy of a list of users.
pub fn copy_users(v: &Vec<User>) -> (out: Vec<User>)
    ensures
        user_views(out@) == user_views(v@),
{
    let mut out: Vec<User> = Vec::new();
    let mut i: usize = 0;
    while i < v.len()
        invariant
            i <= v.len(),
            user_views(out@) == user_views(v@.subrange(0, i as int)),
        decreases v.len() - i,
    {
        let ghost before = out@;
        out.push(v[i].duplicate());
        proof {
            assert(user_views(out@) == user_views(before).push(v@[i as int]@));
            assert(v@.subrange(0, i + 1) == v@.subrange(0, i as int).push(v@[i as int]));
            assert(user_views(v@.subrange(0, i + 1)) == user_views(v@.subrange(0, i as int)).push(
                v@[i as int]@,
            ));
        }
        i = i + 1;
    }
    assert(v@.subrange(0, v@.len() as int) == v@);
    out
}

/// Where a message goes: a room or a single user, by id.
#[derive(Debug, Clone, Copy, PartialEq, Eq, Structural)]
pub enum Channel {
    Room(u128),
    User(u128),
}

/// A text message.
#[derive(Debug)]
pub struct TextMsg {
    pub text: String,
    pub from: User,
    pub to: Channel,
}

/// A text message as a value.
pub struct TextMsgView {
    pub text: Seq<char>,
    pub from: UserView,
    pub to: Channel,
}

impl View for TextMsg {
    type V = TextMsgView;

    open spec fn view(&self) -> TextMsgView {
        TextMsgView { text: self.text@, from: self.from@, to: self.to }
    }
}

impl TextMsg {
    /// A copy of this message.
    pub fn duplicate(&self) -> (m: TextMsg)
        ensures
            m@ == self@,
    {
        TextMsg { text: self.text.clone(), from: self.from.duplicate(), to: self.to }
    }
}

/// An image drawn in text characters.
#[derive(Debug)]
pub struct ImgRender {
    pub cache: String,
    pub from: User,
    pub to: Channel,
}

/// An image drawn in text characters, as a value.
pub struct ImgRenderView {
    pub cache: Seq<char>,
    pub from: UserView,
    pub to: Channel,
}

impl View for ImgRender {
    type V = ImgRenderView;

    open spec fn view(&self) -> ImgRenderView {
        ImgRenderView { cache: self.cache@, from: self.from@, to: self.to }
    }
}

impl ImgRender {
    /// A copy of this image.
    pub fn duplicate(&self) -> (i: ImgRender)
        ensures
            i@ == self@,
    {
        ImgRender { cache: self.cache.clone(), from: self.from.duplicate(), to: self.to }
    }
}

/// One entry in the message list of a room or direct channel.
#[derive(Debug)]
pub enum ChannelMsg {
    TextMsg(TextMsg),
    JoinNotification(User),
    Img(ImgRender),
}

/// An entry of a message list, as a value.
pub enum ChannelMsgView {
    TextMsg(TextMsgView),
    JoinNotification(UserView),
    Img(ImgRenderView),
}

impl View for ChannelMsg {
    type V = ChannelMsgView;

    open spec fn view(&self) -> ChannelMsgView {
        match self {
            ChannelMsg::TextMsg(m) => ChannelMsgView::TextMsg(m@),
            ChannelMsg::JoinNotification(u) => ChannelMsgView::JoinNotification(u@),
            ChannelMsg::Img(i) => ChannelMsgView::Img(i@),
        }
    }
}

/// The views of a message list, newest first.
pub open spec fn msg_views(v: Seq<ChannelMsg>) -> Seq<ChannelMsgView> {
    v.map_values(|m: ChannelMsg| m@)
}

impl ChannelMsg {
    /// A copy of this entry.
    pub fn duplicate(&self) -> (m: ChannelMsg)
        ensures
            m@ == self@,
    {
        match self {
            ChannelMsg::TextMsg(t) => ChannelMsg::TextMsg(t.duplicate()),
            ChannelMsg::JoinNotification(u) => ChannelMsg::JoinNotification(u.duplicate()),
            ChannelMsg::Img(i) => ChannelMsg::Img(i.duplicate()),
        }
    }
}

/// A room as the client shows it: its members, who of them is online, and
/// its messages, newest first.
#[derive(Debug)]
pub struct TuiRoom {
    pub id: u128,
    pub name: String,
    pub messages: std::collections::VecDeque<ChannelMsg>,
    pub users: Vec<User>,
    pub users_online: Vec<User>,
}

/// A room as a value.
pub struct TuiRoomView {
    pub id: u128,
    pub name: Seq<char>,
    pub messages: Seq<ChannelMsgView>,
    pub users: Seq<UserView>,
    pub users_online: Seq<UserView>,
}

impl View for TuiRoom {
    type V = TuiRoomView;

    open spec fn view(&self) -> TuiRoomView {
        TuiRoomView {
            id: self.id,
            name: self.name@,
            messages: msg_views(self.messages@),
            users: user_views(self.users@),
            users_online: user_views(self.users_online@),
        }
    }
}

/// The views of a list of rooms.
pub open spec fn room_views(v: Seq<TuiRoom>) -> Seq<TuiRoomView> {
    v.map_values(|r: TuiRoom| r@)
}

/// A conversation with one user, messages newest first.
#[derive(Debug)]
pub struct DirectChannel {
    pub user: User,
    pub messages: std::collections::VecDeque<ChannelMsg>,
}

/// A direct channel as a value.
pub struct DirectChannelView {
    pub user: UserView,
    pub messages: Seq<ChannelMsgView>,
}

impl View for DirectChannel {
    type V = DirectChannelView;

    open spec fn view(&self) -> DirectChannelView {
        DirectChannelView { user: self.user@, messages: msg_views(self.messages@) }
    }
}

/// The views of a list of direct channels.
pub open spec fn direct_views(v: Seq<DirectChannel>) -> Seq<DirectChannelView> {
    v.map_values(|c: DirectChannel| c@)
}

impl DirectChannel {
    /// A copy of this channel with all its messages.
    pub fn duplicate(&self) -> (c: DirectChannel)
        ensures
            c@ == self@,
    {
        let mut messages: std::collections::VecDeque<ChannelMsg> = std::collections::VecDeque::new();
        let mut i: usize = 0;
        while i < self.messages.len()
            invariant
                i <= self.messages@.len(),
                msg_views(messages@) == msg_views(self.messages@.subrange(0, i as int)),
            decreases self.messages@.len() - i,
        {
            let ghost before = messages@;
            messages.push_back(self.messages[i].duplicate());
            proof {
                assert(msg_views(messages@) == msg_views(before).push(self.messages@[i as int]@));
                assert(self.messages@.subrange(0, i + 1) == self.messages@.subrange(0, i as int).push(
                    self.messages@[i as int],
                ));
                assert(msg_views(self.messages@.subrange(0, i + 1)) == msg_views(
                    self.messages@.subrange(0, i as int),
                ).push(self.messages@[i as int]@));
            }
            i = i + 1;
        }
        assert(self.messages@.subrange(0, self.messages@.len() as int) == self.messages@);
        DirectChannel { user: self.user.duplicate(), messages }
    }
}

/// A new, empty direct channel with `user`.
pub open spec fn empty_direct(user: UserView) -> DirectChannelView {
    DirectChannelView { user, messages: Seq::empty() }
}

/// A room as the server describes it.
#[derive(Debug)]
pub struct RoomData {
    pub id: u128,
    pub name: String,
    pub users: Vec<User>,
    pub users_online: Vec<User>,
}

/// A room as the server describes it, as a value.
pub struct RoomDataView {
    pub id: u128,
    pub name: Seq<char>,
    pub users: Seq<UserView>,
    pub users_online: Seq<UserView>,
}

impl View for RoomData {
    type V = RoomDataView;

    open spec fn view(&self) -> RoomDataView {
        RoomDataView {
            id: self.id,
            name: self.name@,
            users: user_views(self.users@),
            users_online: user_views(self.users_online@),
        }
    }
}

/// The room that the client shows for a room the server describes: the
/// same members, no messages yet.
pub open spec fn tui_room_of(r: RoomDataView) -> TuiRoomView {
    TuiRoomView {
        id: r.id,
        name: r.name,
        messages: Seq::empty(),
        users: r.users,
        users_online: r.users_online,
    }
}

/// The rooms a user belongs to, sent when the user logs in.
#[derive(Debug)]
pub struct UserInitData {
    pub rooms: Vec<RoomData>,
}

/// A user has joined a room.
#[derive(Debug)]
pub struct JoinRoomNotification {
    pub user: User,
    pub room_id: u128,
}

/// A user has left a room.
#[derive(Debug)]
pub struct LeaveRoomNotification {
    pub user: User,
    pub room_id: u128,
}

/// The announcement that opens a file transfer.
#[derive(Debug)]
pub struct FileMetadata {
    pub filename: String,
    pub stream_id: u128,
    pub to: Channel,
    pub from: Channel,
    pub size: u64,
}

/// One piece of a file transfer. The buffer is always full; only the first
/// bytes that the file still lacks are written.
#[derive(Debug)]
pub struct Chunk {
    pub from: User,
    pub data: Vec<u8>,
    pub to: Channel,
    pub stream_id: u128,
}

/// A request to create or join a room.
#[derive(Debug)]
pub struct RoomUpdateTransit {
    pub room_name: String,
    pub room_password: Option<String>,
}

/// Login credentials.
#[derive(Debug)]
pub struct AuthData {
    pub username: String,
    pub pwd: String,
}

/// The data of a new account.
#[derive(Debug)]
pub struct RegisterData {
    pub username: String,
    pub pwd: String,
}

/// What a client sends before it has logged in.
#[derive(Debug)]
pub enum ClientServerAuthMsg {
    Login(AuthData),
    Register(RegisterData),
}

/// What a logged-in client sends.
#[derive(Debug)]
pub enum ClientServerMsg {
    Text(TextMsg),
    ASCII(ImgRender),
    FileChunk(Chunk),
    FileMetadata(FileMetadata),
    Logout,
    CreateRoom(RoomUpdateTransit),
    JoinRoom(RoomUpdateTransit),
}

/// What the server sends to a client.
#[derive(Debug)]
pub enum ServerClientMsg {
    Text(TextMsg),
    ASCII(ImgRender),
    FileChunk(Chunk),
    FileMetadata(FileMetadata),
    UserJoinedRoom(JoinRoomNotification),
    UserLeftRoom(LeaveRoomNotification),
    Auth(Result<User, String>),
    Register(Result<User, String>),
    Init(UserInitData),
    UserConnected(User),
    UserDisconnected(User),
    CreateRoomResponse(Result<RoomData, String>),
    JoinRoomResponse(Result<RoomData, String>),
}

} // verus!
