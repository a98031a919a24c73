use chat_app::auth::{
    validate_login, validate_register, PASSWORD_ERROR_MSG, REPEAT_PASSWORD_ERROR_MSG,
    USERNAME_ERROR_MSG,
};
use chat_app::client::App;
use chat_app::events::{Action, Event, InputField, KeyCode, KeyEvent};
use chat_app::file_selector::{suffix, DirItem, FileSelector};
use chat_app::membership::{new_direct, tui_room};
use chat_app::room_creator::{trimmed_text, RoomCreator};
use chat_app::types::{Channel, ClientServerAuthMsg, ClientServerMsg, RoomData, User};
use chat_app::ui::{
    ActiveChannel, ActiveCreateRoomInput, ActiveEntryInput, ActiveEntryScreen, ActiveScreen,
    ChannelKind, FileAction, Focus, Notification, RoomAction, SelectorEntryKind,
};

fn key(code: KeyCode) -> Event {
    Event::Key(KeyEvent { code, ctrl: false, press: true })
}

fn ctrl(c: char) -> Event {
    Event::Key(KeyEvent { code: KeyCode::Char(c), ctrl: true, press: true })
}

fn dir(name: &str) -> DirItem {
    DirItem { name: name.to_string(), is_dir: true }
}

fn file(name: &str) -> DirItem {
    DirItem { name: name.to_string(), is_dir: false }
}

fn names(fs: &FileSelector) -> Vec<String> {
    fs.entries.iter().map(|e| e.name.clone()).collect()
}

fn main_app() -> App {
    let mut app = App::new(vec!["home".to_string()]);
    app.init(User { username: "alice".to_string(), id: 1 });
    app.active_screen = ActiveScreen::Main;
    app
}

#[test]
fn login_check_accepts_good_credentials() {
    assert_eq!(validate_login("alice_smith", "Passw0rd"), Ok(()));
    assert_eq!(validate_login("Bob1234", "aB3defgh!"), Ok(()));
}

#[test]
fn login_check_refuses_bad_user_names() {
    let err = Err(USERNAME_ERROR_MSG.to_string());
    assert_eq!(validate_login("bob", "Passw0rd"), err);
    assert_eq!(validate_login("1alice_smith", "Passw0rd"), err);
    assert_eq!(validate_login("alice-smith", "Passw0rd"), err);
    assert_eq!(validate_login("a23456789012345678901234567890", "Passw0rd"), err);
}

#[test]
fn login_check_refuses_bad_passwords() {
    let err = Err(PASSWORD_ERROR_MSG.to_string());
    assert_eq!(validate_login("alice_smith", "short1A"), err);
    assert_eq!(validate_login("alice_smith", "alllower1"), err);
    assert_eq!(validate_login("alice_smith", "ALLUPPER1"), err);
    assert_eq!(validate_login("alice_smith", "NoDigitsHere"), err);
    assert_eq!(validate_login("alice_smith", "Bad pass1"), err);
}

#[test]
fn register_check_wants_matching_passwords() {
    assert_eq!(validate_register("alice_smith", "Passw0rd", "Passw0rd"), Ok(()));
    assert_eq!(
        validate_register("alice_smith", "Passw0rd", "Passw0rx"),
        Err(REPEAT_PASSWORD_ERROR_MSG.to_string())
    );
    assert_eq!(
        validate_register("al", "Passw0rd", "other"),
        Err(USERNAME_ERROR_MSG.to_string())
    );
}

#[test]
fn entry_enter_sends_trimmed_login() {
    let mut app = App::new(vec![]);
    app.username_login = vec!["  alice_smith ".to_string()];
    app.password_login = vec!["Passw0rd".to_string()];
    match app.handle_events(key(KeyCode::Enter)) {
        Action::SendAuth(ClientServerAuthMsg::Login(d)) => {
            assert_eq!(d.username, "alice_smith");
            assert_eq!(d.pwd, "Passw0rd");
        }
        other => panic!("unexpected {:?}", other),
    }
    assert!(app.login_screen_notification.is_none());
}

#[test]
fn entry_enter_shows_refusal() {
    let mut app = App::new(vec![]);
    app.username_login = vec!["al".to_string()];
    app.password_login = vec!["Passw0rd".to_string()];
    assert!(matches!(app.handle_events(key(KeyCode::Enter)), Action::Nothing));
    match &app.login_screen_notification {
        Some(Notification::Failure(m)) => assert_eq!(m, USERNAME_ERROR_MSG),
        other => panic!("unexpected {:?}", other),
    }
}

#[test]
fn entry_enter_sends_registration() {
    let mut app = App::new(vec![]);
    app.active_entry_screen = ActiveEntryScreen::ASRegister;
    app.username_register = vec!["new_user1".to_string()];
    app.password_register = vec!["Secr3tPw".to_string()];
    app.repeat_password = vec!["Secr3tPw".to_string()];
    match app.handle_events(key(KeyCode::Enter)) {
        Action::SendAuth(ClientServerAuthMsg::Register(d)) => {
            assert_eq!(d.username, "new_user1");
            assert_eq!(d.pwd, "Secr3tPw");
        }
        other => panic!("unexpected {:?}", other),
    }
}

#[test]
fn entry_keys() {
    let mut app = App::new(vec![]);
    assert!(matches!(
        app.handle_events(key(KeyCode::Char('x'))),
        Action::TypeInto(InputField::UsernameLogin)
    ));
    app.handle_events(key(KeyCode::Down));
    assert_eq!(app.active_entry_input, ActiveEntryInput::Password);
    assert!(matches!(
        app.handle_events(key(KeyCode::Char('x'))),
        Action::TypeInto(InputField::PasswordLogin)
    ));
    app.handle_events(key(KeyCode::Tab));
    assert_eq!(app.active_entry_screen, ActiveEntryScreen::ASRegister);
    assert!(matches!(
        app.handle_events(key(KeyCode::Char('x'))),
        Action::TypeInto(InputField::PasswordRegister)
    ));
    let release = Event::Key(KeyEvent { code: KeyCode::Esc, ctrl: false, press: false });
    app.handle_events(release);
    assert!(!app.exit);
    app.handle_events(ctrl('c'));
    assert!(app.exit);
}

#[test]
fn main_screen_keys() {
    let mut app = main_app();
    app.room_channels.push(tui_room(RoomData {
        id: 4,
        name: "four".to_string(),
        users: vec![],
        users_online: vec![],
    }));
    app.direct_channels.push(new_direct(User { username: "bob".to_string(), id: 2 }));
    app.handle_events(key(KeyCode::Down));
    assert_eq!(app.main_scroll_offset, 3);
    app.handle_events(key(KeyCode::Tab));
    assert_eq!(app.focus, Focus::Contacts);
    app.handle_events(key(KeyCode::Down));
    assert_eq!(app.active_channel.id, Some(4));
    app.handle_events(key(KeyCode::Right));
    assert_eq!(app.active_channel, ActiveChannel { kind: ChannelKind::Direct, id: Some(2) });
    assert!(matches!(
        app.handle_events(key(KeyCode::Char('h'))),
        Action::TypeInto(InputField::MainText)
    ));
    app.main_text = vec!["hi".to_string()];
    match app.handle_events(key(KeyCode::Enter)) {
        Action::Send(ClientServerMsg::Text(m)) => {
            assert_eq!(m.text, "hi");
            assert_eq!(m.to, Channel::User(2));
        }
        other => panic!("unexpected {:?}", other),
    }
    app.handle_events(ctrl('f'));
    assert!(app.display_file_selector);
}

#[test]
fn escape_logs_out() {
    let mut app = main_app();
    assert!(matches!(app.handle_events(key(KeyCode::Esc)), Action::Send(ClientServerMsg::Logout)));
    assert_eq!(app.active_screen, ActiveScreen::Entry);
}

#[test]
fn room_form_keys_and_submit() {
    let mut app = main_app();
    app.display_room_creator = true;
    app.room_creator.room_name = vec!["  my room ".to_string()];
    assert!(matches!(
        app.handle_events(key(KeyCode::Char('a'))),
        Action::TypeInto(InputField::RoomName)
    ));
    app.handle_events(key(KeyCode::Down));
    assert_eq!(app.room_creator.active_input, ActiveCreateRoomInput::Password);
    match app.handle_events(key(KeyCode::Enter)) {
        Action::Send(ClientServerMsg::CreateRoom(t)) => {
            assert_eq!(t.room_name, "my room");
            assert_eq!(t.room_password, None);
        }
        other => panic!("unexpected {:?}", other),
    }
    app.handle_events(key(KeyCode::Tab));
    assert_eq!(app.room_creator.active_action, RoomAction::Join);
    app.room_creator.room_password = vec!["pw".to_string()];
    match app.handle_events(key(KeyCode::Enter)) {
        Action::Send(ClientServerMsg::JoinRoom(t)) => {
            assert_eq!(t.room_password, Some("pw".to_string()))
        }
        other => panic!("unexpected {:?}", other),
    }
    app.handle_events(ctrl('f'));
    assert!(!app.display_room_creator);
    assert!(app.display_file_selector);
}

#[test]
fn room_creator_fields_and_title() {
    let mut rc = RoomCreator::new();
    assert_eq!(rc.active_input, ActiveCreateRoomInput::Name);
    assert_eq!(rc.title_text(), " Create room ");
    rc.move_active_input_up();
    assert_eq!(rc.active_input, ActiveCreateRoomInput::Name);
    rc.move_active_input_down();
    rc.move_active_input_down();
    assert_eq!(rc.active_input, ActiveCreateRoomInput::Password);
    rc.switch_action();
    assert_eq!(rc.title_text(), " Join room ");
}

#[test]
fn trimmed_text_joins_then_trims() {
    let lines = vec![" a".to_string(), "b ".to_string()];
    assert_eq!(trimmed_text(&lines, "\n"), "a\nb");
    assert_eq!(trimmed_text(&lines, ""), "ab");
}

#[test]
fn selector_lists_folders_and_sendable_files() {
    let mut fs = FileSelector::new(vec!["home".to_string()]);
    fs.update_entries(vec![
        file("notes.txt"),
        dir("docs"),
        file("photo.png"),
        file("run.sh"),
        file("pic.jpg"),
        file("archive.tar.gz"),
        file("txt"),
    ]);
    assert_eq!(
        names(&fs),
        vec!["../", "notes.txt", "docs", "photo.png", "pic.jpg", "txt"]
            .into_iter()
            .map(String::from)
            .collect::<Vec<_>>()
    );
    assert!(fs.entries[0].selected);
    assert!(!fs.entries[1].selected);
    assert_eq!(fs.entries[2].kind, SelectorEntryKind::Folder);
    assert_eq!(fs.entries[1].kind, SelectorEntryKind::File);
}

#[test]
fn selector_moves_and_folders() {
    let mut fs = FileSelector::new(vec!["home".to_string()]);
    fs.update_entries(vec![dir("docs"), file("a.txt")]);
    fs.move_up();
    assert_eq!(fs.selected_index, 0);
    assert!(!fs.open_folder());
    fs.move_down();
    fs.move_down();
    fs.move_down();
    assert_eq!(fs.selected_index, 2);
    assert!(!fs.open_folder());
    fs.move_up();
    assert!(fs.open_folder());
    assert_eq!(fs.current_location, vec!["home".to_string(), "docs".to_string()]);
    assert_eq!(fs.selected_index, 0);
    fs.close_current_folder();
    fs.close_current_folder();
    fs.close_current_folder();
    assert!(fs.current_location.is_empty());
    fs.reset_location(vec!["x".to_string()]);
    assert_eq!(fs.current_location, vec!["x".to_string()]);
}

#[test]
fn selector_action_switch_and_title() {
    let mut fs = FileSelector::new(vec![]);
    assert_eq!(fs.active_action, FileAction::File);
    assert_eq!(fs.title_text(), " Send file ");
    fs.switch_action();
    assert_eq!(fs.active_action, FileAction::ASCII);
    assert_eq!(fs.title_text(), " Send ASCI image ");
    fs.switch_action();
    assert_eq!(fs.active_action, FileAction::File);
}

#[test]
fn selector_scroll_follows_cursor() {
    let mut fs = FileSelector::new(vec![]);
    fs.selected_index = 8;
    fs.adjust_scroll(10);
    assert_eq!(fs.scroll_offset, 1);
    fs.selected_index = 0;
    fs.adjust_scroll(10);
    assert_eq!(fs.scroll_offset, 0);
    fs.selected_index = 3;
    fs.adjust_scroll(10);
    assert_eq!(fs.scroll_offset, 0);
}

#[test]
fn suffix_is_text_after_last_dot() {
    let s: String = suffix(&"a.b.png".chars().collect::<Vec<_>>()).iter().collect();
    assert_eq!(s, "png");
    let s: String = suffix(&"plain".chars().collect::<Vec<_>>()).iter().collect();
    assert_eq!(s, "plain");
    let s: String = suffix(&"dot.".chars().collect::<Vec<_>>()).iter().collect();
    assert_eq!(s, "");
}

#[test]
fn file_selector_enter_sends_file_to_selected_room() {
    let mut app = main_app();
    app.active_channel = ActiveChannel { kind: ChannelKind::Room, id: Some(9) };
    app.display_file_selector = true;
    app.file_selector.update_entries(vec![dir("docs"), file("a.txt")]);
    app.handle_events(key(KeyCode::Down));
    app.handle_events(key(KeyCode::Down));
    match app.handle_events(key(KeyCode::Enter)) {
        Action::SendFile { path, to, from } => {
            assert_eq!(path, vec!["home".to_string(), "a.txt".to_string()]);
            assert_eq!(to, Channel::Room(9));
            assert_eq!(from, Channel::Room(9));
        }
        other => panic!("unexpected {:?}", other),
    }
    assert!(!app.display_file_selector);
}

#[test]
fn file_selector_enter_draws_image_for_user() {
    let mut app = main_app();
    app.active_channel = ActiveChannel { kind: ChannelKind::Direct, id: Some(2) };
    app.display_file_selector = true;
    app.handle_events(key(KeyCode::Tab));
    app.file_selector.update_entries(vec![file("cat.png")]);
    app.handle_events(key(KeyCode::Down));
    match app.handle_events(key(KeyCode::Enter)) {
        Action::SendImage { path, sender, to } => {
            assert_eq!(path, vec!["home".to_string(), "cat.png".to_string()]);
            assert_eq!(sender.username, "alice");
            assert_eq!(to, Channel::User(2));
        }
        other => panic!("unexpected {:?}", other),
    }
    assert!(app.display_file_selector);
}

#[test]
fn file_selector_enter_on_folders() {
    let mut app = main_app();
    app.display_file_selector = true;
    app.file_selector.update_entries(vec![dir("docs")]);
    app.handle_events(key(KeyCode::Down));
    assert!(matches!(app.handle_events(key(KeyCode::Enter)), Action::ListFolder));
    assert_eq!(app.file_selector.current_location, vec!["home".to_string(), "docs".to_string()]);
    assert!(matches!(app.handle_events(key(KeyCode::Enter)), Action::ListFolder));
    assert_eq!(app.file_selector.current_location, vec!["home".to_string()]);
    assert!(matches!(app.handle_events(key(KeyCode::Esc)), Action::ResetFileSelector));
    assert!(!app.display_file_selector);
}

#[test]
fn file_without_contact_is_not_sent() {
    let mut app = main_app();
    app.display_file_selector = true;
    app.file_selector.update_entries(vec![file("a.txt")]);
    app.handle_events(key(KeyCode::Down));
    assert!(matches!(app.handle_events(key(KeyCode::Enter)), Action::ResetFileSelector));
    assert!(!app.display_file_selector);
}

#[test]
fn selector_down_then_up_returns() {
    let mut fs = FileSelector::new(vec![]);
    fs.update_entries(vec![dir("a"), dir("b")]);
    fs.move_down();
    let at = fs.selected_index;
    fs.move_down();
    fs.move_up();
    assert_eq!(fs.selected_index, at);
}
