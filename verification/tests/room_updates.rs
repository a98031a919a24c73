use chat_app::client::App;
use chat_app::membership::{new_direct, tui_room};
use chat_app::types::{Channel, ChannelMsg, RoomData, TextMsg, TuiRoom, User, PUBLIC_ROOM_ID};
use chat_app::ui::{ActiveChannel, ChannelKind};

fn user(name: &str, id: u128) -> User {
    User { username: name.to_string(), id }
}

fn room(id: u128, name: &str, users: Vec<User>) -> TuiRoom {
    tui_room(RoomData { id, name: name.to_string(), users, users_online: vec![] })
}

fn me() -> App {
    let mut app = App::new(vec![]);
    app.init(user("alice", 1));
    app
}

#[test]
fn invitation_to_public_room_opens_directs_for_others() {
    let mut app = me();
    app.handle_room_invitation(room(
        PUBLIC_ROOM_ID,
        "public",
        vec![user("bob", 2), user("alice", 1), user("carol", 3)],
    ));
    assert_eq!(app.room_channels.len(), 1);
    let members: Vec<u128> = app.room_channels[0].users.iter().map(|u| u.id).collect();
    assert_eq!(members, vec![2, 3]);
    let directs: Vec<u128> = app.direct_channels.iter().map(|c| c.user.id).collect();
    assert_eq!(directs, vec![2, 3]);
}

#[test]
fn invitation_to_other_room_keeps_members() {
    let mut app = me();
    app.handle_room_invitation(room(5, "five", vec![user("alice", 1), user("bob", 2)]));
    assert_eq!(app.room_channels[0].users.len(), 2);
    assert!(app.direct_channels.is_empty());
}

#[test]
fn public_room_update_rebuilds_directs_keeping_messages() {
    let mut app = me();
    let mut bob = new_direct(user("bob", 2));
    bob.messages.push_front(ChannelMsg::TextMsg(TextMsg {
        text: "old".to_string(),
        from: user("bob", 2),
        to: Channel::User(1),
    }));
    app.direct_channels.push(bob);
    app.direct_channels.push(new_direct(user("dave", 4)));
    app.room_channels.push(room(PUBLIC_ROOM_ID, "public", vec![]));
    app.active_channel = ActiveChannel { kind: ChannelKind::Direct, id: Some(4) };
    app.handle_room_update(room(
        PUBLIC_ROOM_ID,
        "public",
        vec![user("alice", 1), user("carol", 3), user("bob", 2)],
    ));
    let directs: Vec<u128> = app.direct_channels.iter().map(|c| c.user.id).collect();
    assert_eq!(directs, vec![3, 2]);
    assert!(app.direct_channels[0].messages.is_empty());
    assert_eq!(app.direct_channels[1].messages.len(), 1);
    assert_eq!(app.active_channel, ActiveChannel { kind: ChannelKind::Direct, id: None });
    let members: Vec<u128> = app.room_channels[0].users.iter().map(|u| u.id).collect();
    assert_eq!(members, vec![3, 2]);
}

#[test]
fn update_of_other_room_replaces_it() {
    let mut app = me();
    app.room_channels.push(room(5, "five", vec![]));
    app.room_channels.push(room(6, "six", vec![]));
    app.active_channel = ActiveChannel { kind: ChannelKind::Room, id: Some(6) };
    app.handle_room_update(room(6, "renamed", vec![user("bob", 2)]));
    assert_eq!(app.room_channels[1].name, "renamed");
    assert_eq!(app.room_channels[1].users.len(), 1);
    assert_eq!(app.active_channel.id, Some(6));
    app.handle_room_update(room(7, "unknown", vec![]));
    assert_eq!(app.room_channels.len(), 2);
}
