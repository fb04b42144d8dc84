use doomgeneric::input::keys;
use plurimus_doom::input::{KeyCode, KeyKind, KeyMessage, KeyModifiers, MouseButton, MouseKind, MouseMessage, Position};
use plurimus_doom::keymap::{map_key, map_key_with, map_mouse, map_mouse_with, to_ascii_lowercase, KeyBindings};

fn message(code: KeyCode, kind: KeyKind) -> KeyMessage {
    KeyMessage::new(code, KeyModifiers::default(), kind)
}

fn shifted(code: KeyCode, kind: KeyKind) -> KeyMessage {
    KeyMessage::new(code, KeyModifiers::default().with_shift(true), kind)
}

fn mouse(kind: MouseKind) -> MouseMessage {
    MouseMessage::new(kind, Position::new(0, 0), KeyModifiers::default())
}

fn bindings() -> KeyBindings {
    KeyBindings {
        right: 101,
        left: 102,
        up: 103,
        down: 104,
        strafe_left: 105,
        strafe_right: 106,
        fire: 107,
        use_key: 108,
        speed: 109,
    }
}

#[test]
fn left_click_maps_to_fire() {
    let key = map_mouse(&mouse(MouseKind::Down(MouseButton::Left))).unwrap();
    assert!(key.pressed);
    assert_eq!(key.key, *keys::KEY_FIRE);
}

#[test]
fn right_release_maps_to_unpressed_use() {
    let key = map_mouse(&mouse(MouseKind::Up(MouseButton::Right))).unwrap();
    assert!(!key.pressed);
    assert_eq!(key.key, *keys::KEY_USE);
}

#[test]
fn motion_and_other_buttons_are_dropped() {
    assert!(map_mouse(&mouse(MouseKind::Moved)).is_none());
    assert!(map_mouse(&mouse(MouseKind::Down(MouseButton::Middle))).is_none());
}

#[test]
fn arrows_move_and_turn() {
    let keys_down = map_key(&message(KeyCode::Up, KeyKind::Press));
    assert_eq!(keys_down.len(), 1);
    assert!(keys_down[0].pressed);
    assert_eq!(keys_down[0].key, *keys::KEY_UP);

    let turn = map_key(&message(KeyCode::Left, KeyKind::Press));
    assert_eq!(turn.len(), 1);
    assert_eq!(turn[0].key, *keys::KEY_LEFT);
}

#[test]
fn shifted_arrows_strafe() {
    let strafe = map_key(&shifted(KeyCode::Right, KeyKind::Press));
    assert_eq!(strafe.len(), 1);
    assert_eq!(strafe[0].key, *keys::KEY_STRAFERIGHT);
}

#[test]
fn arrow_releases_cover_turn_and_strafe() {
    let released = map_key(&message(KeyCode::Right, KeyKind::Release));
    let codes: Vec<u8> = released.iter().map(|key| key.key).collect();
    assert!(released.iter().all(|key| !key.pressed));
    assert_eq!(codes, [*keys::KEY_RIGHT, *keys::KEY_STRAFERIGHT]);
}

#[test]
fn wasd_moves_and_strafes() {
    let pairs = [
        ('w', *keys::KEY_UP),
        ('s', *keys::KEY_DOWN),
        ('a', *keys::KEY_STRAFELEFT),
        ('d', *keys::KEY_STRAFERIGHT),
    ];
    for (character, expected) in pairs {
        let pressed = map_key(&message(KeyCode::Char(character), KeyKind::Press));
        assert_eq!(pressed.len(), 1);
        assert!(pressed[0].pressed);
        assert_eq!(pressed[0].key, expected);
    }
}

#[test]
fn wasd_release_unpresses() {
    let released = map_key(&message(KeyCode::Char('a'), KeyKind::Release));
    assert_eq!(released.len(), 1);
    assert!(!released[0].pressed);
    assert_eq!(released[0].key, *keys::KEY_STRAFELEFT);
}

#[test]
fn shifted_wasd_still_strafes() {
    let strafe = map_key(&shifted(KeyCode::Char('D'), KeyKind::Press));
    assert_eq!(strafe.len(), 1);
    assert_eq!(strafe[0].key, *keys::KEY_STRAFERIGHT);
}

#[test]
fn space_fires_and_e_uses() {
    let fire = map_key(&message(KeyCode::Char(' '), KeyKind::Press));
    assert_eq!(fire[0].key, *keys::KEY_FIRE);

    let along = map_key(&message(KeyCode::Char('E'), KeyKind::Press));
    assert_eq!(along[0].key, *keys::KEY_USE);
}

#[test]
fn release_maps_to_unpressed() {
    let released = map_key(&message(KeyCode::Esc, KeyKind::Release));
    assert_eq!(released.len(), 1);
    assert!(!released[0].pressed);
    assert_eq!(released[0].key, keys::KEY_ESCAPE);
}

#[test]
fn repeat_is_dropped() {
    assert!(map_key(&message(KeyCode::Char('e'), KeyKind::Repeat)).is_empty());
}

#[test]
fn unmapped_ascii_passes_through() {
    let key = map_key(&message(KeyCode::Char('y'), KeyKind::Press));
    assert_eq!(key[0].key, b'y');
}

#[test]
fn non_ascii_keys_are_dropped() {
    assert!(map_key(&message(KeyCode::Home, KeyKind::Press)).is_empty());
}

#[test]
fn bindings_from_engine_match_the_engine_keys() {
    let b = KeyBindings::from_engine();
    assert_eq!(b.right, *keys::KEY_RIGHT);
    assert_eq!(b.left, *keys::KEY_LEFT);
    assert_eq!(b.up, *keys::KEY_UP);
    assert_eq!(b.down, *keys::KEY_DOWN);
    assert_eq!(b.strafe_left, *keys::KEY_STRAFELEFT);
    assert_eq!(b.strafe_right, *keys::KEY_STRAFERIGHT);
    assert_eq!(b.fire, *keys::KEY_FIRE);
    assert_eq!(b.use_key, *keys::KEY_USE);
    assert_eq!(b.speed, *keys::KEY_SPEED);
}

#[test]
fn escape_and_enter_have_fixed_codes() {
    let escape = map_key_with(&bindings(), &message(KeyCode::Esc, KeyKind::Press));
    assert_eq!(escape.len(), 1);
    assert_eq!(escape[0].key, 27);
    let enter = map_key_with(&bindings(), &message(KeyCode::Enter, KeyKind::Press));
    assert_eq!(enter.len(), 1);
    assert_eq!(enter[0].key, 13);
}

#[test]
fn non_ascii_characters_are_dropped() {
    assert!(map_key_with(&bindings(), &message(KeyCode::Char('é'), KeyKind::Press)).is_empty());
    assert!(map_key_with(&bindings(), &message(KeyCode::F(1), KeyKind::Press)).is_empty());
}

#[test]
fn every_binding_is_used_for_its_key() {
    let b = bindings();
    let one = |code: KeyCode| {
        let events = map_key_with(&b, &message(code, KeyKind::Press));
        assert_eq!(events.len(), 1);
        events[0].key
    };
    assert_eq!(one(KeyCode::Up), 103);
    assert_eq!(one(KeyCode::Down), 104);
    assert_eq!(one(KeyCode::Left), 102);
    assert_eq!(one(KeyCode::Right), 101);
    assert_eq!(one(KeyCode::Char('w')), 103);
    assert_eq!(one(KeyCode::Char('s')), 104);
    assert_eq!(one(KeyCode::Char('a')), 105);
    assert_eq!(one(KeyCode::Char('d')), 106);
    assert_eq!(one(KeyCode::Char(' ')), 107);
    assert_eq!(one(KeyCode::Char('e')), 108);
    assert_eq!(one(KeyCode::Char('R')), 109);
    assert_eq!(one(KeyCode::Char('1')), b'1');
}

#[test]
fn shifted_left_strafes_and_its_release_covers_both() {
    let b = bindings();
    let press = map_key_with(&b, &shifted(KeyCode::Left, KeyKind::Press));
    assert_eq!(press.len(), 1);
    assert!(press[0].pressed);
    assert_eq!(press[0].key, 105);
    // Shift dropped before the release: the release still lets go of the strafe key.
    let release = map_key_with(&b, &message(KeyCode::Left, KeyKind::Release));
    let codes: Vec<u8> = release.iter().map(|key| key.key).collect();
    assert_eq!(codes, [102, 105]);
    assert!(release.iter().all(|key| !key.pressed));
}

#[test]
fn repeat_is_dropped_for_every_key() {
    let b = bindings();
    for code in [KeyCode::Left, KeyCode::Up, KeyCode::Esc, KeyCode::Char('w')] {
        assert!(map_key_with(&b, &shifted(code, KeyKind::Repeat)).is_empty());
    }
}

#[test]
fn mouse_buttons_map_under_given_bindings() {
    let b = bindings();
    let fire = map_mouse_with(&b, &mouse(MouseKind::Down(MouseButton::Left))).unwrap();
    assert!(fire.pressed);
    assert_eq!(fire.key, 107);
    let used = map_mouse_with(&b, &mouse(MouseKind::Up(MouseButton::Right))).unwrap();
    assert!(!used.pressed);
    assert_eq!(used.key, 108);
    assert!(map_mouse_with(&b, &mouse(MouseKind::Drag(MouseButton::Left))).is_none());
    assert!(map_mouse_with(&b, &mouse(MouseKind::ScrollUp)).is_none());
    assert!(map_mouse_with(&b, &mouse(MouseKind::Cancel)).is_none());
}

#[test]
fn ascii_lowercase_folds_only_capitals() {
    assert_eq!(to_ascii_lowercase('A'), 'a');
    assert_eq!(to_ascii_lowercase('Z'), 'z');
    assert_eq!(to_ascii_lowercase('a'), 'a');
    assert_eq!(to_ascii_lowercase('@'), '@');
    assert_eq!(to_ascii_lowercase('['), '[');
    assert_eq!(to_ascii_lowercase('É'), 'É');
}
