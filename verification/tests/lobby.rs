use throne::gamepad::{GamepadEvent, GamepadEventKind, GamepadLobby};

fn connected(g: u64) -> GamepadEvent {
    GamepadEvent { gamepad: g, kind: GamepadEventKind::Connected }
}

fn disconnected(g: u64) -> GamepadEvent {
    GamepadEvent { gamepad: g, kind: GamepadEventKind::Disconnected }
}

#[test]
fn empty_lobby_has_nothing() {
    let lobby = GamepadLobby::new();
    assert!(!lobby.connected(0));
    assert!(lobby.first().is_none());
}

#[test]
fn connect_then_disconnect() {
    let mut lobby = GamepadLobby::new();
    lobby.connection_system(&vec![connected(3)]);
    assert!(lobby.connected(3));
    assert_eq!(lobby.first(), Some(3));
    lobby.connection_system(&vec![disconnected(3)]);
    assert!(!lobby.connected(3));
    assert!(lobby.first().is_none());
}

#[test]
fn membership_follows_last_event() {
    let mut lobby = GamepadLobby::new();
    let events = vec![connected(1), connected(2), disconnected(1), connected(1), disconnected(2)];
    lobby.connection_system(&events);
    assert!(lobby.connected(1));
    assert!(!lobby.connected(2));
}

#[test]
fn double_connect_is_one_membership() {
    let mut lobby = GamepadLobby::new();
    lobby.connection_system(&vec![connected(7), connected(7)]);
    assert!(lobby.connected(7));
    lobby.connection_system(&vec![disconnected(7)]);
    assert!(!lobby.connected(7));
}

#[test]
fn disconnect_of_stranger_changes_nothing() {
    let mut lobby = GamepadLobby::new();
    lobby.connection_system(&vec![connected(1), disconnected(9)]);
    assert!(lobby.connected(1));
    assert!(!lobby.connected(9));
}
