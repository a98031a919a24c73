use chat_app::client::App;
use chat_app::membership::{new_direct, tui_room, users_contain, without_user};
use chat_app::types::{
    Channel, ChannelMsg, ClientServerMsg, ImgRender, JoinRoomNotification, LeaveRoomNotification,
    RoomData, TextMsg, User, UserInitData, PUBLIC_ROOM_ID,
};
use chat_app::ui::{
    ActiveChannel, ActiveEntryInput, ActiveEntryScreen, ActiveScreen, ChannelKind, Focus,
    Notification,
};

fn user(name: &str, id: u128) -> User {
    User { username: name.to_string(), id }
}

fn room(id: u128, name: &str, users: Vec<User>, online: Vec<User>) -> RoomData {
    RoomData { id, name: name.to_string(), users, users_online: online }
}

fn text(from: &User, to: Channel, t: &str) -> TextMsg {
    TextMsg { text: t.to_string(), from: from.duplicate(), to }
}

fn logged_in(name: &str, id: u128) -> App {
    let mut app = App::new(vec!["home".to_string()]);
    app.init(user(name, id));
    app
}

fn message_text(m: &ChannelMsg) -> String {
    match m {
        ChannelMsg::TextMsg(t) => t.text.clone(),
        ChannelMsg::JoinNotification(u) => format!("joined:{}", u.username),
        ChannelMsg::Img(i) => format!("img:{}", i.cache),
    }
}

#[test]
fn new_app_starts_on_login_form() {
    let app = App::new(vec!["home".to_string(), "me".to_string()]);
    assert_eq!(app.active_screen, ActiveScreen::Entry);
    assert_eq!(app.active_entry_screen, ActiveEntryScreen::ASLogin);
    assert_eq!(app.active_entry_input, ActiveEntryInput::Username);
    assert_eq!(app.active_channel, ActiveChannel { kind: ChannelKind::Room, id: None });
    assert_eq!(app.focus, Focus::Messages);
    assert_eq!(app.main_text, vec![String::new()]);
    assert!(app.room_channels.is_empty());
    assert_eq!(app.file_selector.current_location, vec!["home".to_string(), "me".to_string()]);
    assert_eq!(app.file_selector.entries.len(), 1);
    assert_eq!(app.file_selector.entries[0].name, "../");
    assert!(!app.exit);
}

#[test]
fn text_message_goes_to_front_of_its_room() {
    let mut app = logged_in("alice", 1);
    app.room_channels.push(tui_room(room(10, "ten", vec![], vec![])));
    app.room_channels.push(tui_room(room(20, "twenty", vec![], vec![])));
    let bob = user("bob", 2);
    app.handle_text_message(text(&bob, Channel::Room(20), "first"));
    app.handle_text_message(text(&bob, Channel::Room(20), "second"));
    app.handle_text_message(text(&bob, Channel::Room(99), "lost"));
    assert!(app.room_channels[0].messages.is_empty());
    let texts: Vec<String> = app.room_channels[1].messages.iter().map(message_text).collect();
    assert_eq!(texts, vec!["second".to_string(), "first".to_string()]);
}

#[test]
fn direct_message_goes_to_channel_of_sender() {
    let mut app = logged_in("alice", 1);
    app.direct_channels.push(new_direct(user("bob", 2)));
    app.direct_channels.push(new_direct(user("carol", 3)));
    let carol = user("carol", 3);
    app.handle_text_message(text(&carol, Channel::User(1), "hi alice"));
    assert!(app.direct_channels[0].messages.is_empty());
    assert_eq!(message_text(&app.direct_channels[1].messages[0]), "hi alice");
}

#[test]
fn image_for_unknown_channel_is_handed_back() {
    let mut app = logged_in("alice", 1);
    app.room_channels.push(tui_room(room(10, "ten", vec![], vec![])));
    let img = ImgRender { cache: "@@".to_string(), from: user("bob", 2), to: Channel::Room(11) };
    let back = app.handle_img_render(img).unwrap_err();
    assert_eq!(back.cache, "@@");
    assert!(app.room_channels[0].messages.is_empty());
    let img = ImgRender { cache: "##".to_string(), from: user("bob", 2), to: Channel::Room(10) };
    assert!(app.handle_img_render(img).is_ok());
    assert_eq!(message_text(&app.room_channels[0].messages[0]), "img:##");
}

#[test]
fn send_message_needs_a_selected_contact() {
    let mut app = logged_in("alice", 1);
    app.main_text = vec!["hello".to_string()];
    assert!(app.send_message().is_none());
    assert_eq!(app.main_text, vec!["hello".to_string()]);
}

#[test]
fn send_message_joins_lines_and_clears_input() {
    let mut app = logged_in("alice", 1);
    app.direct_channels.push(new_direct(user("bob", 2)));
    app.active_channel = ActiveChannel { kind: ChannelKind::Direct, id: Some(2) };
    app.main_text = vec!["line one".to_string(), "line two".to_string()];
    match app.send_message() {
        Some(ClientServerMsg::Text(m)) => {
            assert_eq!(m.text, "line one\nline two");
            assert_eq!(m.from.username, "alice");
            assert_eq!(m.from.id, 1);
            assert_eq!(m.to, Channel::User(2));
        }
        other => panic!("unexpected {:?}", other),
    }
    assert_eq!(app.main_text, vec![String::new()]);
    assert_eq!(message_text(&app.direct_channels[0].messages[0]), "line one\nline two");
}

#[test]
fn send_message_to_room_is_not_shown_locally() {
    let mut app = logged_in("alice", 1);
    app.room_channels.push(tui_room(room(10, "ten", vec![], vec![])));
    app.active_channel = ActiveChannel { kind: ChannelKind::Room, id: Some(10) };
    app.main_text = vec!["hey".to_string()];
    match app.send_message() {
        Some(ClientServerMsg::Text(m)) => assert_eq!(m.to, Channel::Room(10)),
        other => panic!("unexpected {:?}", other),
    }
    assert!(app.room_channels[0].messages.is_empty());
}

#[test]
fn channel_moves_stop_at_the_ends() {
    let mut app = logged_in("alice", 1);
    for id in [10u128, 20, 30] {
        app.room_channels.push(tui_room(room(id, "r", vec![], vec![])));
    }
    app.move_active_channel_down();
    assert_eq!(app.active_channel.id, Some(10));
    app.move_active_channel_down();
    app.move_active_channel_down();
    assert_eq!(app.active_channel.id, Some(30));
    app.move_active_channel_down();
    assert_eq!(app.active_channel.id, Some(30));
    app.move_active_channel_up();
    assert_eq!(app.active_channel.id, Some(20));
    app.move_active_channel_up();
    app.move_active_channel_up();
    assert_eq!(app.active_channel.id, Some(10));
}

#[test]
fn switching_kind_selects_first_contact() {
    let mut app = logged_in("alice", 1);
    app.room_channels.push(tui_room(room(10, "r", vec![], vec![])));
    app.switch_channel_kind();
    assert_eq!(app.active_channel, ActiveChannel { kind: ChannelKind::Direct, id: None });
    app.direct_channels.push(new_direct(user("bob", 2)));
    app.switch_channel_kind();
    assert_eq!(app.active_channel, ActiveChannel { kind: ChannelKind::Room, id: Some(10) });
    app.switch_channel_kind();
    assert_eq!(app.active_channel, ActiveChannel { kind: ChannelKind::Direct, id: Some(2) });
}

#[test]
fn focus_switch_twice_is_no_change() {
    let mut app = logged_in("alice", 1);
    app.switch_focus();
    assert_eq!(app.focus, Focus::Contacts);
    app.switch_focus();
    assert_eq!(app.focus, Focus::Messages);
}

#[test]
fn scrolling_moves_three_rows_and_stops() {
    let mut app = logged_in("alice", 1);
    app.move_scrollbar_up();
    assert_eq!(app.main_scroll_offset, 0);
    for _ in 0..30 {
        app.move_scrollbar_down();
        assert_eq!(app.main_scroll_offset % 3, 0);
        assert!(app.main_scroll_offset <= 51);
    }
    assert_eq!(app.main_scroll_offset, 51);
    app.move_scrollbar_up();
    assert_eq!(app.main_scroll_offset, 48);
}

#[test]
fn exit_sets_the_flag() {
    let mut app = logged_in("alice", 1);
    app.exit();
    assert!(app.exit);
}

#[test]
fn init_data_opens_directs_for_others_online_in_public_room() {
    let mut app = logged_in("alice", 1);
    let alice = user("alice", 1);
    let bob = user("bob", 2);
    let carol = user("carol", 3);
    let data = UserInitData {
        rooms: vec![
            room(
                PUBLIC_ROOM_ID,
                "public",
                vec![alice.duplicate(), bob.duplicate(), carol.duplicate()],
                vec![alice.duplicate(), bob.duplicate()],
            ),
            room(5, "five", vec![alice.duplicate(), carol.duplicate()], vec![carol.duplicate()]),
        ],
    };
    app.handle_init_data(data);
    assert_eq!(app.room_channels.len(), 2);
    assert_eq!(app.room_channels[0].id, PUBLIC_ROOM_ID);
    assert_eq!(app.room_channels[1].name, "five");
    assert_eq!(app.direct_channels.len(), 1);
    assert_eq!(app.direct_channels[0].user.username, "bob");
}

#[test]
fn connected_member_is_online_and_gets_a_direct() {
    let mut app = logged_in("alice", 1);
    let bob = user("bob", 2);
    app.room_channels.push(tui_room(room(
        PUBLIC_ROOM_ID,
        "public",
        vec![user("alice", 1), bob.duplicate()],
        vec![user("alice", 1)],
    )));
    app.room_channels.push(tui_room(room(7, "seven", vec![bob.duplicate()], vec![])));
    app.room_channels.push(tui_room(room(8, "eight", vec![], vec![])));
    app.handle_user_connected(bob.duplicate());
    assert!(users_contain(&app.room_channels[0].users_online, &bob));
    assert!(users_contain(&app.room_channels[1].users_online, &bob));
    assert!(!users_contain(&app.room_channels[2].users_online, &bob));
    assert_eq!(app.direct_channels.len(), 1);
    assert_eq!(app.direct_channels[0].user.id, 2);
    // A second notice changes nothing.
    app.handle_user_connected(bob.duplicate());
    assert_eq!(app.room_channels[0].users_online.len(), 2);
    assert_eq!(app.direct_channels.len(), 1);
}

#[test]
fn own_connection_is_not_recorded_in_public_room() {
    let mut app = logged_in("alice", 1);
    app.room_channels.push(tui_room(room(PUBLIC_ROOM_ID, "public", vec![user("alice", 1)], vec![])));
    app.handle_user_connected(user("alice", 1));
    assert!(app.room_channels[0].users_online.is_empty());
    assert!(app.direct_channels.is_empty());
}

#[test]
fn disconnected_user_is_offline_everywhere() {
    let mut app = logged_in("alice", 1);
    let bob = user("bob", 2);
    app.room_channels.push(tui_room(room(
        PUBLIC_ROOM_ID,
        "public",
        vec![user("alice", 1), bob.duplicate()],
        vec![user("alice", 1), bob.duplicate()],
    )));
    app.room_channels.push(tui_room(room(7, "seven", vec![bob.duplicate()], vec![bob.duplicate()])));
    app.direct_channels.push(new_direct(bob.duplicate()));
    app.active_channel = ActiveChannel { kind: ChannelKind::Direct, id: Some(2) };
    app.handle_user_disconnected(bob.duplicate());
    assert_eq!(app.active_channel, ActiveChannel { kind: ChannelKind::Direct, id: None });
    assert_eq!(app.room_channels[0].users_online.len(), 1);
    assert!(app.room_channels[1].users_online.is_empty());
    assert!(app.direct_channels.is_empty());
    assert_eq!(app.room_channels[1].users.len(), 1);
}

#[test]
fn joined_user_is_a_member() {
    let mut app = logged_in("alice", 1);
    app.room_channels.push(tui_room(room(7, "seven", vec![], vec![])));
    app.handle_user_joined_room(JoinRoomNotification { user: user("bob", 2), room_id: 7 });
    app.handle_user_joined_room(JoinRoomNotification { user: user("carol", 3), room_id: 8 });
    assert_eq!(app.room_channels[0].users.len(), 1);
    assert_eq!(app.room_channels[0].users[0].username, "bob");
}

#[test]
fn leaving_public_room_closes_direct() {
    let mut app = logged_in("alice", 1);
    let bob = user("bob", 2);
    app.room_channels.push(tui_room(room(PUBLIC_ROOM_ID, "public", vec![bob.duplicate()], vec![])));
    app.room_channels.push(tui_room(room(7, "seven", vec![bob.duplicate()], vec![])));
    app.direct_channels.push(new_direct(bob.duplicate()));
    app.handle_user_left_room(LeaveRoomNotification { user: bob.duplicate(), room_id: 7 });
    assert!(app.room_channels[1].users.is_empty());
    assert_eq!(app.direct_channels.len(), 1);
    app.handle_user_left_room(LeaveRoomNotification { user: bob.duplicate(), room_id: PUBLIC_ROOM_ID });
    assert!(app.room_channels[0].users.is_empty());
    assert!(app.direct_channels.is_empty());
}

#[test]
fn without_user_drops_every_match() {
    let users = vec![user("a", 1), user("b", 2), user("a", 1), user("c", 3)];
    let left = without_user(users, 1);
    let names: Vec<String> = left.iter().map(|u| u.username.clone()).collect();
    assert_eq!(names, vec!["b".to_string(), "c".to_string()]);
}

#[test]
fn join_room_answer_adds_and_selects_room() {
    let mut app = logged_in("alice", 1);
    app.display_room_creator = true;
    app.handle_join_room(Err("Wrong password".to_string()));
    assert_eq!(app.room_creator.notification, Some("Wrong password".to_string()));
    assert!(app.display_room_creator);
    app.handle_join_room(Ok(room(9, "nine", vec![user("alice", 1)], vec![])));
    assert_eq!(app.room_channels.len(), 1);
    assert_eq!(app.room_channels[0].name, "nine");
    assert_eq!(app.active_channel, ActiveChannel { kind: ChannelKind::Room, id: Some(9) });
    assert!(!app.display_room_creator);
}

#[test]
fn register_answer_announces_account() {
    let mut app = App::new(vec![]);
    app.active_entry_screen = ActiveEntryScreen::ASRegister;
    app.active_entry_input = ActiveEntryInput::RepeatPassword;
    app.username_register = vec!["bobby_one".to_string()];
    app.handle_register_response(Ok(user("bobby_one", 4)));
    match &app.login_screen_notification {
        Some(Notification::Success(m)) => {
            assert_eq!(m, "Account with username bobby_one was created.")
        }
        other => panic!("unexpected {:?}", other),
    }
    assert_eq!(app.active_entry_screen, ActiveEntryScreen::ASLogin);
    assert_eq!(app.active_entry_input, ActiveEntryInput::Username);
    assert_eq!(app.username_register, vec![String::new()]);
    app.handle_register_response(Err("taken".to_string()));
    match &app.login_screen_notification {
        Some(Notification::Failure(m)) => assert_eq!(m, "taken"),
        other => panic!("unexpected {:?}", other),
    }
}

#[test]
fn auth_answer_opens_main_screen() {
    let mut app = App::new(vec![]);
    app.username_login = vec!["alice_a".to_string()];
    app.handle_auth_response(Err("Invalid credentials".to_string()));
    assert_eq!(app.active_screen, ActiveScreen::Entry);
    app.handle_auth_response(Ok(user("alice_a", 5)));
    assert_eq!(app.active_screen, ActiveScreen::Main);
    assert_eq!(app.username, "alice_a");
    assert_eq!(app.id, 5);
    assert_eq!(app.username_login, vec![String::new()]);
}

#[test]
fn logout_forgets_rooms() {
    let mut app = logged_in("alice", 1);
    app.active_screen = ActiveScreen::Main;
    app.room_channels.push(tui_room(room(9, "nine", vec![], vec![])));
    app.direct_channels.push(new_direct(user("bob", 2)));
    app.main_text = vec!["draft".to_string()];
    assert!(matches!(app.logout(), ClientServerMsg::Logout));
    assert_eq!(app.active_screen, ActiveScreen::Entry);
    assert!(app.room_channels.is_empty());
    assert!(app.direct_channels.is_empty());
    assert_eq!(app.main_text, vec![String::new()]);
    assert_eq!(app.username, "alice");
}

#[test]
fn entry_form_switch_and_field_moves() {
    let mut app = App::new(vec![]);
    app.switch_entry_screen();
    assert_eq!(app.active_entry_screen, ActiveEntryScreen::ASRegister);
    app.move_active_input_down();
    app.move_active_input_down();
    assert_eq!(app.active_entry_input, ActiveEntryInput::RepeatPassword);
    app.move_active_input_down();
    assert_eq!(app.active_entry_input, ActiveEntryInput::RepeatPassword);
    app.switch_entry_screen();
    assert_eq!(app.active_entry_screen, ActiveEntryScreen::ASLogin);
    assert_eq!(app.active_entry_input, ActiveEntryInput::Username);
    app.move_active_input_down();
    app.move_active_input_down();
    assert_eq!(app.active_entry_input, ActiveEntryInput::Password);
    app.move_active_input_up();
    assert_eq!(app.active_entry_input, ActiveEntryInput::Username);
}

#[test]
fn channel_down_then_up_returns() {
    let mut app = logged_in("alice", 1);
    for id in [10u128, 20, 30] {
        app.room_channels.push(tui_room(room(id, "r", vec![], vec![])));
    }
    app.active_channel = ActiveChannel { kind: ChannelKind::Room, id: Some(20) };
    app.move_active_channel_down();
    assert_eq!(app.active_channel.id, Some(30));
    app.move_active_channel_up();
    assert_eq!(app.active_channel.id, Some(20));
}
