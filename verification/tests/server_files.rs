use std::collections::HashMap;

use chat_app::client::App;
use chat_app::console::handle_file_chunk as count_whole_chunk;
use chat_app::lines::{pad_line_to_width, try_pad_line_to_width, Line, LineWrapper, Span, TextWrapper};
use chat_app::manager::ManagerState;
use chat_app::membership::{new_direct, tui_room};
use chat_app::render::{channel_msg_lines, conversation};
use chat_app::streams::{
    file_path, handle_file_chunk, handle_file_metadata, ActiveStream, ChunkOutcome, FILES_DIR,
};
use chat_app::types::{
    Channel, ChannelMsg, Chunk, FileMetadata, ImgRender, RoomData, TextMsg, User,
};
use chat_app::ui::{ActiveChannel, ActiveEntryScreen, ChannelKind};

fn user(name: &str, id: u128) -> User {
    User { username: name.to_string(), id }
}

fn meta(name: &str, id: u128, size: u64) -> FileMetadata {
    FileMetadata {
        filename: name.to_string(),
        stream_id: id,
        to: Channel::Room(1),
        from: Channel::Room(1),
        size,
    }
}

fn chunk(id: u128, n: usize) -> Chunk {
    Chunk { from: user("bob", 2), data: vec![0u8; n], to: Channel::Room(1), stream_id: id }
}

fn line_text(l: &Line) -> String {
    l.spans.iter().map(|s| s.content.clone()).collect()
}

fn line(parts: &[(&str, bool)]) -> Line {
    Line { spans: parts.iter().map(|(t, b)| Span { content: t.to_string(), bold: *b }).collect() }
}

#[test]
fn line_client_counts_whole_chunks() {
    let mut streams: HashMap<u128, ActiveStream> = HashMap::new();
    handle_file_metadata(meta("a.txt", 5, 10), &mut streams);
    assert_eq!(count_whole_chunk(&chunk(5, 4), &mut streams), 4);
    assert_eq!(streams[&5].written, 4);
    assert_eq!(count_whole_chunk(&chunk(5, 6), &mut streams), 6);
    assert!(streams.is_empty());
    handle_file_metadata(meta("b.txt", 6, 10), &mut streams);
    assert_eq!(count_whole_chunk(&chunk(6, 8192), &mut streams), 10);
    assert_eq!(streams[&6].written, 8192);
    assert_eq!(streams[&6].size, 10);
}

#[test]
fn file_path_is_under_files_dir() {
    assert_eq!(FILES_DIR, "./files/");
    assert_eq!(file_path("a.txt"), "./files/a.txt");
}

#[test]
fn stream_counts_chunks_until_complete() {
    let mut streams: HashMap<u128, ActiveStream> = HashMap::new();
    handle_file_metadata(meta("notes.txt", 7, 10), &mut streams);
    assert_eq!(streams[&7].written, 0);
    assert_eq!(handle_file_chunk(&chunk(7, 4), &mut streams), ChunkOutcome::Partial { write: 4 });
    assert_eq!(streams[&7].written, 4);
    assert_eq!(
        handle_file_chunk(&chunk(7, 8), &mut streams),
        ChunkOutcome::Complete { write: 6, image: false }
    );
    assert!(streams.is_empty());
    assert_eq!(handle_file_chunk(&chunk(7, 1), &mut streams), ChunkOutcome::Unknown);
}

#[test]
fn completed_images_are_drawn() {
    let mut streams: HashMap<u128, ActiveStream> = HashMap::new();
    handle_file_metadata(meta("cat.png", 1, 3), &mut streams);
    handle_file_metadata(meta("dog.jpg", 2, 3), &mut streams);
    handle_file_metadata(meta("pic.jpeg", 3, 3), &mut streams);
    assert_eq!(
        handle_file_chunk(&chunk(1, 3), &mut streams),
        ChunkOutcome::Complete { write: 3, image: true }
    );
    assert_eq!(
        handle_file_chunk(&chunk(2, 5), &mut streams),
        ChunkOutcome::Complete { write: 3, image: true }
    );
    assert_eq!(
        handle_file_chunk(&chunk(3, 3), &mut streams),
        ChunkOutcome::Complete { write: 3, image: false }
    );
}

#[test]
fn empty_file_completes_on_first_chunk() {
    let mut streams: HashMap<u128, ActiveStream> = HashMap::new();
    handle_file_metadata(meta("empty.txt", 5, 0), &mut streams);
    assert_eq!(
        handle_file_chunk(&chunk(5, 4), &mut streams),
        ChunkOutcome::Complete { write: 0, image: false }
    );
}

#[test]
fn metadata_restarts_a_stream() {
    let mut streams: HashMap<u128, ActiveStream> = HashMap::new();
    handle_file_metadata(meta("a.txt", 5, 10), &mut streams);
    handle_file_chunk(&chunk(5, 4), &mut streams);
    handle_file_metadata(meta("b.txt", 5, 2), &mut streams);
    assert_eq!(streams.len(), 1);
    assert_eq!(streams[&5].written, 0);
    assert_eq!(streams[&5].file_name, "b.txt");
}

#[test]
fn manager_tracks_who_is_online() {
    let mut m = ManagerState::new();
    assert!(!m.handle_is_online(&"bob".to_string()));
    m.handle_client_connected(user("bob", 2));
    m.handle_client_connected(user("carol", 3));
    assert!(m.handle_is_online(&"bob".to_string()));
    assert!(!m.handle_is_online(&"dave".to_string()));
    m.handle_client_dropped(2);
    assert!(!m.handle_is_online(&"bob".to_string()));
    assert!(m.handle_is_online(&"carol".to_string()));
}

#[test]
fn manager_fills_online_members() {
    let mut m = ManagerState::new();
    m.handle_client_connected(user("carol", 3));
    m.handle_client_connected(user("erin", 5));
    let mut room = RoomData {
        id: 1,
        name: "r".to_string(),
        users: vec![user("bob", 2), user("carol", 3), user("dave", 4), user("erin", 5)],
        users_online: vec![user("bob", 2)],
    };
    m.update_room_online_users(&mut room);
    let online: Vec<u128> = room.users_online.iter().map(|u| u.id).collect();
    assert_eq!(online, vec![3, 5]);
    let mut rooms = vec![
        RoomData { id: 2, name: "a".to_string(), users: vec![user("erin", 5)], users_online: vec![] },
        RoomData { id: 3, name: "b".to_string(), users: vec![user("bob", 2)], users_online: vec![] },
    ];
    m.handle_update_multiple_rooms(&mut rooms);
    assert_eq!(rooms[0].users_online.len(), 1);
    assert!(rooms[1].users_online.is_empty());
    assert_eq!(m.first_connected(&room.users), Some(1));
    assert_eq!(m.first_connected(&vec![user("bob", 2)]), None);
}

#[test]
fn line_width_and_padding() {
    let l = line(&[("ab", true), ("cde", false)]);
    assert_eq!(l.width(), 5);
    let padded = pad_line_to_width(l, 8);
    assert_eq!(padded.width(), 8);
    assert_eq!(padded.spans.len(), 3);
    assert_eq!(padded.spans[2].content, "   ");
    assert!(!padded.spans[2].bold);
    let wide = pad_line_to_width(line(&[("abcdef", false)]), 4);
    assert_eq!(wide.spans.len(), 1);
    assert_eq!(wide.width(), 6);
    let ok = try_pad_line_to_width(line(&[("x", false)]), 3).ok().unwrap();
    assert_eq!(line_text(&ok), "x  ");
}

#[test]
fn padding_twice_pads_once() {
    let once = pad_line_to_width(line(&[("ab", true), ("c", false)]), 7);
    let twice = pad_line_to_width(pad_line_to_width(line(&[("ab", true), ("c", false)]), 7), 7);
    assert_eq!(twice.spans.len(), once.spans.len());
    assert_eq!(line_text(&twice), line_text(&once));
    assert_eq!(twice.width(), 7);
    let wide = pad_line_to_width(pad_line_to_width(line(&[("abcdef", false)]), 3), 3);
    assert_eq!(wide.spans.len(), 1);
    assert_eq!(line_text(&wide), "abcdef");
}

#[test]
fn wide_characters_count_two_columns() {
    let l = line(&[("日本", false)]);
    assert_eq!(l.width(), 4);
    assert_eq!(l.checked_width(), Some(4));
    let p = pad_line_to_width(l, 6);
    assert_eq!(p.width(), 6);
}

#[test]
fn message_lines_show_sender_in_bold() {
    let msg = TextMsg { text: "hello".to_string(), from: user("bob", 2), to: Channel::Room(1) };
    let w = LineWrapper::from_text_msg(&msg);
    assert_eq!(w.0.spans[0].content, "bob: ");
    assert!(w.0.spans[0].bold);
    assert_eq!(w.0.spans[1].content, "hello");
    let j = LineWrapper::from_user(&user("carol", 3));
    assert_eq!(line_text(&j.0), "carol: joined the room");
    let img = ImgRender { cache: "a\nb".to_string(), from: user("bob", 2), to: Channel::Room(1) };
    let t = TextWrapper::from_img(&img);
    assert_eq!(t.0.len(), 1);
    assert_eq!(line_text(&t.0[0]), "a\nb");
}

#[test]
fn images_are_shown_line_by_line() {
    let img = ImgRender { cache: "@@\n##\r\n..".to_string(), from: user("bob", 2), to: Channel::Room(1) };
    let lines = channel_msg_lines(&ChannelMsg::Img(img));
    let texts: Vec<String> = lines.iter().map(line_text).collect();
    assert_eq!(texts, vec!["@@".to_string(), "##".to_string(), "..".to_string()]);
}

#[test]
fn conversation_keeps_entry_order() {
    let mut ms = std::collections::VecDeque::new();
    ms.push_front(ChannelMsg::JoinNotification(user("carol", 3)));
    ms.push_front(ChannelMsg::TextMsg(TextMsg {
        text: "hi".to_string(),
        from: user("bob", 2),
        to: Channel::Room(1),
    }));
    let lines = conversation(&ms);
    let texts: Vec<String> = lines.iter().map(line_text).collect();
    assert_eq!(texts, vec!["bob: hi".to_string(), "carol: joined the room".to_string()]);
}

#[test]
fn titles_and_contact_list() {
    let mut app = App::new(vec![]);
    assert_eq!(app.messages_title_text(), "");
    assert_eq!(app.contacts_title_text(), " Rooms ");
    assert_eq!(app.entry_headline(), "Login");
    app.active_entry_screen = ActiveEntryScreen::ASRegister;
    assert_eq!(app.entry_headline(), "Register");
    app.room_channels.push(tui_room(RoomData {
        id: 4,
        name: "four".to_string(),
        users: vec![],
        users_online: vec![],
    }));
    app.room_channels.push(tui_room(RoomData {
        id: 5,
        name: "five".to_string(),
        users: vec![],
        users_online: vec![],
    }));
    app.active_channel = ActiveChannel { kind: ChannelKind::Room, id: Some(5) };
    assert_eq!(app.messages_title_text(), " five ");
    let contacts = app.contact_lines(10);
    assert_eq!(contacts.len(), 2);
    assert_eq!(line_text(&contacts[0].line), "four      ");
    assert_eq!(contacts[0].line.width(), 10);
    assert!(!contacts[0].active);
    assert!(contacts[1].active);
    app.direct_channels.push(new_direct(user("bob", 2)));
    app.active_channel = ActiveChannel { kind: ChannelKind::Direct, id: Some(2) };
    assert_eq!(app.contacts_title_text(), " Users ");
    assert_eq!(app.messages_title_text(), " bob ");
    app.handle_text_message(TextMsg {
        text: "yo".to_string(),
        from: user("bob", 2),
        to: Channel::User(1),
    });
    let ml = app.message_lines();
    assert_eq!(ml.len(), 1);
    assert_eq!(line_text(&ml[0]), "bob: yo");
}

#[test]
fn contact_names_split_into_lines() {
    let mut app = App::new(vec![]);
    app.room_channels.push(tui_room(RoomData {
        id: 1,
        name: "two\nlines".to_string(),
        users: vec![],
        users_online: vec![],
    }));
    app.room_channels.push(tui_room(RoomData {
        id: 2,
        name: String::new(),
        users: vec![],
        users_online: vec![],
    }));
    let contacts = app.contact_lines(0);
    assert_eq!(contacts[0].line.spans.len(), 2);
    assert_eq!(contacts[0].line.spans[1].content, "lines");
    assert!(contacts[1].line.spans.is_empty());
    let padded = app.contact_lines(3);
    assert_eq!(padded[1].line.spans.len(), 1);
    assert_eq!(padded[1].line.spans[0].content, "   ");
}
