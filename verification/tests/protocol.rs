use chat_app::client::App;
use chat_app::connection::{
    connection_step, ConnectionAction, ConnectionEvent, ReadError, SessionEnd,
};
use chat_app::console::{read_command, try_read_command, StdinCommand};
use chat_app::file_selector::{DirItem, FileSelector};
use chat_app::manager::{ManagerAction, ManagerEvent, ManagerState};
use chat_app::membership::tui_room;
use chat_app::routing::{route_server_msg, Routed, StreamMsg, TuiUpdate};
use chat_app::streams::{announce_file, outgoing_chunk, outgoing_metadata};
use chat_app::threads::thread_report;
use chat_app::types::{
    AuthData, Channel, Chunk, ClientServerAuthMsg, ImgRender, RegisterData, RoomData,
    ServerClientMsg, TextMsg, User, PUBLIC_ROOM_ID_STR,
};
use chat_app::ui::{
    ActiveCreateRoomInput, ActiveScreen, Color, FileAction, RoomAction, SelectorEntryKind,
};

fn user(name: &str, id: u128) -> User {
    User { username: name.to_string(), id }
}

fn room(id: u128, users: Vec<User>) -> RoomData {
    RoomData { id, name: format!("room{}", id), users, users_online: vec![] }
}

fn line_text(l: &chat_app::lines::Line) -> String {
    l.spans.iter().map(|s| s.content.clone()).collect()
}

#[test]
fn manager_connects_and_drops() {
    let mut m = ManagerState::new();
    assert!(matches!(m.handle_event(ManagerEvent::ClientConnected(user("bob", 2))), ManagerAction::Nothing));
    assert!(matches!(
        m.handle_event(ManagerEvent::IsOnline("bob".to_string())),
        ManagerAction::ReplyOnline(true)
    ));
    m.handle_event(ManagerEvent::ClientDropped(2));
    assert!(matches!(
        m.handle_event(ManagerEvent::IsOnline("bob".to_string())),
        ManagerAction::ReplyOnline(false)
    ));
}

#[test]
fn manager_routes_direct_requests() {
    let mut m = ManagerState::new();
    m.handle_event(ManagerEvent::ClientConnected(user("bob", 2)));
    assert!(matches!(
        m.handle_event(ManagerEvent::GetDirectChannelTx { to: 2 }),
        ManagerAction::ForwardDirectComm(2)
    ));
    assert!(matches!(
        m.handle_event(ManagerEvent::GetDirectChannelTx { to: 3 }),
        ManagerAction::ClientNotFound
    ));
}

#[test]
fn manager_asks_first_connected_member_for_room_channel() {
    let mut m = ManagerState::new();
    m.handle_event(ManagerEvent::ClientConnected(user("carol", 3)));
    m.handle_event(ManagerEvent::ClientConnected(user("dave", 4)));
    let members = vec![user("bob", 2), user("dave", 4), user("carol", 3)];
    match m.handle_event(ManagerEvent::GetRoomChannelTx { room_id: 9, room_users: members }) {
        ManagerAction::AskRoomTransmitter { client, room_id } => {
            assert_eq!(client, 4);
            assert_eq!(room_id, 9);
        }
        other => panic!("unexpected {:?}", other),
    }
    assert!(matches!(
        m.handle_event(ManagerEvent::GetRoomChannelTx { room_id: 9, room_users: vec![user("bob", 2)] }),
        ManagerAction::NewRoomChannel
    ));
}

#[test]
fn manager_announces_registration_through_a_connected_client() {
    let mut m = ManagerState::new();
    assert!(matches!(m.handle_event(ManagerEvent::UserRegistered(user("erin", 5))), ManagerAction::Nothing));
    m.handle_event(ManagerEvent::ClientConnected(user("carol", 3)));
    match m.handle_event(ManagerEvent::UserRegistered(user("erin", 5))) {
        ManagerAction::AnnounceRegistered { via, user } => {
            assert_eq!(via, 3);
            assert_eq!(user.username, "erin");
        }
        other => panic!("unexpected {:?}", other),
    }
}

#[test]
fn manager_fills_rooms() {
    let mut m = ManagerState::new();
    m.handle_event(ManagerEvent::ClientConnected(user("carol", 3)));
    match m.handle_event(ManagerEvent::UpdateRoom(room(1, vec![user("bob", 2), user("carol", 3)]))) {
        ManagerAction::ReplyRoom(r) => {
            assert_eq!(r.users_online.len(), 1);
            assert_eq!(r.users_online[0].id, 3);
            assert_eq!(r.users.len(), 2);
        }
        other => panic!("unexpected {:?}", other),
    }
    match m.handle_event(ManagerEvent::UpdateMultipleRooms(vec![
        room(1, vec![user("carol", 3)]),
        room(2, vec![user("bob", 2)]),
    ])) {
        ManagerAction::ReplyRooms(rs) => {
            assert_eq!(rs.len(), 2);
            assert_eq!(rs[0].users_online.len(), 1);
            assert!(rs[1].users_online.is_empty());
        }
        other => panic!("unexpected {:?}", other),
    }
}

#[test]
fn connection_protocol_steps() {
    assert!(matches!(
        connection_step(ConnectionEvent::Read(Err(ReadError::ConnectionClosed))),
        ConnectionAction::Finish
    ));
    assert!(matches!(
        connection_step(ConnectionEvent::Read(Err(ReadError::Invalid))),
        ConnectionAction::Fail
    ));
    let login = ClientServerAuthMsg::Login(AuthData { username: "a".to_string(), pwd: "b".to_string() });
    match connection_step(ConnectionEvent::Read(Ok(login))) {
        ConnectionAction::Authenticate(d) => assert_eq!(d.username, "a"),
        other => panic!("unexpected {:?}", other),
    }
    let reg = ClientServerAuthMsg::Register(RegisterData { username: "n".to_string(), pwd: "p".to_string() });
    assert!(matches!(connection_step(ConnectionEvent::Read(Ok(reg))), ConnectionAction::Register(_)));
    match connection_step(ConnectionEvent::Registered(Err("taken".to_string()))) {
        ConnectionAction::Reply(ServerClientMsg::Register(Err(e))) => assert_eq!(e, "taken"),
        other => panic!("unexpected {:?}", other),
    }
    match connection_step(ConnectionEvent::LoggedIn(Err("wrong".to_string()))) {
        ConnectionAction::Reply(ServerClientMsg::Auth(Err(e))) => assert_eq!(e, "wrong"),
        other => panic!("unexpected {:?}", other),
    }
    match connection_step(ConnectionEvent::LoggedIn(Ok(user("alice", 1)))) {
        ConnectionAction::StartSession { reply: ServerClientMsg::Auth(Ok(r)), user } => {
            assert_eq!(r.username, "alice");
            assert_eq!(user.id, 1);
        }
        other => panic!("unexpected {:?}", other),
    }
    assert!(matches!(
        connection_step(ConnectionEvent::SessionEnded(SessionEnd::Logout)),
        ConnectionAction::ReadNext
    ));
    assert!(matches!(
        connection_step(ConnectionEvent::SessionEnded(SessionEnd::Close)),
        ConnectionAction::Finish
    ));
}

#[test]
fn server_messages_are_routed() {
    let chunk = Chunk { from: user("bob", 2), data: vec![1], to: Channel::Room(1), stream_id: 7 };
    assert!(matches!(
        route_server_msg(ServerClientMsg::FileChunk(chunk)),
        Routed::Stream(StreamMsg::FileChunk(_))
    ));
    assert!(matches!(
        route_server_msg(ServerClientMsg::CreateRoomResponse(Err("x".to_string()))),
        Routed::Tui(TuiUpdate::JoinRoom(Err(_)))
    ));
    assert!(matches!(
        route_server_msg(ServerClientMsg::Register(Ok(user("a", 1)))),
        Routed::Tui(TuiUpdate::RegisterResponse(Ok(_)))
    ));
    assert!(matches!(
        route_server_msg(ServerClientMsg::UserConnected(user("a", 1))),
        Routed::Tui(TuiUpdate::UserConnected(_))
    ));
}

#[test]
fn updates_apply_their_handler() {
    let mut app = App::new(vec![]);
    assert!(app.handle_update(TuiUpdate::Auth(Ok(user("alice", 1)))).is_ok());
    assert_eq!(app.active_screen, ActiveScreen::Main);
    app.handle_update(TuiUpdate::JoinRoom(Ok(room(3, vec![user("alice", 1)])))).unwrap();
    assert_eq!(app.room_channels.len(), 1);
    app.handle_update(TuiUpdate::Text(TextMsg {
        text: "hey".to_string(),
        from: user("bob", 2),
        to: Channel::Room(3),
    }))
    .unwrap();
    assert_eq!(app.room_channels[0].messages.len(), 1);
    let img = ImgRender { cache: "#".to_string(), from: user("bob", 2), to: Channel::User(2) };
    assert!(app.handle_update(TuiUpdate::Img(img)).is_err());
    app.room_channels.push(tui_room(room(4, vec![])));
    assert_eq!(app.room_channels.len(), 2);
}

#[test]
fn thread_reports() {
    let ok = thread_report("reader", None, false);
    assert_eq!(ok.lines, vec!["Thread reader returned successfully".to_string()]);
    assert!(!ok.restore_terminal);
    assert!(!ok.stop);
    let err = thread_report("writer", Some(("broken pipe".to_string(), "trace".to_string())), true);
    assert_eq!(
        err.lines,
        vec!["Error from thread writer: broken pipe".to_string(), "err: trace".to_string()]
    );
    assert!(err.restore_terminal);
    assert!(err.stop);
}

#[test]
fn stdin_commands() {
    assert_eq!(read_command(".quit\n"), StdinCommand::Quit);
    assert_eq!(read_command("hello\n"), StdinCommand::Room("hello\n".to_string()));
    assert_eq!(read_command("\n"), StdinCommand::Room("\n".to_string()));
    assert_eq!(read_command(".file a.txt\n"), StdinCommand::SendFile("a.txt".to_string()));
    assert_eq!(read_command(".file a.txt b.txt\n"), StdinCommand::TooManyArguments);
    let line = format!("hi {}\n", PUBLIC_ROOM_ID_STR);
    assert_eq!(
        read_command(&line),
        StdinCommand::Direct { text: line.clone(), to: 0x7e40f1063e7d498a94cc5fa7f62cfce6 }
    );
    assert_eq!(try_read_command("hi there\n"), None);
    assert_eq!(try_read_command(".quit"), Some(StdinCommand::Quit));
    assert_eq!(
        try_read_command(".quit now"),
        None
    );
}

#[test]
fn outgoing_file_messages() {
    let path = vec!["home".to_string(), "docs".to_string(), "a.txt".to_string()];
    let m = outgoing_metadata(&path, 11, Channel::Room(1), Channel::Room(1), 9000);
    assert_eq!(m.filename, "a.txt");
    assert_eq!(m.size, 9000);
    assert_eq!(m.stream_id, 11);
    let buffer = [7u8; 16];
    let c = outgoing_chunk(&buffer, &user("bob", 2), Channel::User(3), 11);
    assert_eq!(c.data, buffer.to_vec());
    assert_eq!(c.from.username, "bob");
    assert_eq!(c.to, Channel::User(3));
}

#[test]
fn selector_entry_lines() {
    let mut fs = FileSelector::new(vec![]);
    fs.update_entries(vec![
        DirItem { name: "docs".to_string(), is_dir: true },
        DirItem { name: "a.txt".to_string(), is_dir: false },
    ]);
    let lines = fs.entry_lines(20);
    assert_eq!(lines.len(), 3);
    assert_eq!(lines[0].line.spans[0].content, " \u{ea83}");
    assert_eq!(lines[2].line.spans[0].content, " \u{ea7b}");
    assert_eq!(lines[1].line.spans[1].content, "  docs");
    assert_eq!(lines[1].line.width(), 20);
    assert!(line_text(&lines[2].line).starts_with(" \u{ea7b}  a.txt"));
}

#[test]
fn selector_entry_colours() {
    let yellow_dark = Color::Rgb(219, 188, 127);
    let yellow_light = Color::Rgb(92, 107, 85);
    let mut fs = FileSelector::new(vec![]);
    fs.update_entries(vec![
        DirItem { name: "docs".to_string(), is_dir: true },
        DirItem { name: "a.txt".to_string(), is_dir: false },
    ]);
    let lines = fs.entry_lines(20);
    // the selected back entry, a folder
    assert_eq!(lines[0].icon_fg, yellow_dark);
    assert_eq!(lines[0].name_fg, Color::DarkGray);
    assert_eq!(lines[0].highlight, Some((yellow_dark, yellow_light)));
    // an unselected folder
    assert_eq!(lines[1].icon_fg, yellow_light);
    assert_eq!(lines[1].name_fg, Color::Rgb(180, 180, 180));
    assert_eq!(lines[1].highlight, None);
    // an unselected file
    assert_eq!(lines[2].icon_fg, yellow_dark);
    assert_eq!(lines[2].name_fg, Color::White);
    assert_eq!(lines[2].highlight, None);
    // a selected file
    fs.move_down();
    fs.move_down();
    fs.update_entries(vec![
        DirItem { name: "docs".to_string(), is_dir: true },
        DirItem { name: "a.txt".to_string(), is_dir: false },
    ]);
    let lines = fs.entry_lines(20);
    assert_eq!(lines[2].icon_fg, yellow_dark);
    assert_eq!(lines[2].name_fg, yellow_dark);
    assert_eq!(lines[2].highlight, Some((yellow_dark, yellow_light)));
    assert_eq!(lines[0].highlight, None);
}

#[test]
fn new_app_starts_with_empty_forms() {
    let app = App::new(vec!["home".to_string()]);
    assert_eq!(app.file_selector.entries.len(), 1);
    assert_eq!(app.file_selector.entries[0].name, "../");
    assert_eq!(app.file_selector.entries[0].kind, SelectorEntryKind::Folder);
    assert_eq!(app.file_selector.scroll_offset, 0);
    assert_eq!(app.file_selector.current_location, vec!["home".to_string()]);
    assert_eq!(app.file_selector.active_action, FileAction::File);
    assert_eq!(app.room_creator.room_name, vec![String::new()]);
    assert_eq!(app.room_creator.room_password, vec![String::new()]);
    assert_eq!(app.room_creator.notification, None);
    assert_eq!(app.room_creator.active_input, ActiveCreateRoomInput::Name);
    assert_eq!(app.room_creator.active_action, RoomAction::Create);
}

#[test]
fn announced_files_name_the_last_component() {
    let path = vec!["tmp".to_string(), "b.png".to_string()];
    let a = announce_file(&path, Channel::User(4), Channel::User(1), 12);
    let b = announce_file(&path, Channel::User(4), Channel::User(1), 12);
    assert_eq!(a.filename, "b.png");
    assert_eq!(a.to, Channel::User(4));
    assert_eq!(a.from, Channel::User(1));
    assert_eq!(a.size, 12);
    assert_ne!(a.stream_id, b.stream_id);
}
