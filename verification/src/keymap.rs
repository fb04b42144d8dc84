//! Maps terminal key and mouse messages to Doom key codes.

use vstd::prelude::*;

use crate::input::{KeyCode, KeyData, KeyKind, KeyMessage, KeyModifiers, MouseButton, MouseKind, MouseMessage};

verus! {

/// The engine's key bindings as read back from its configuration: the key
/// code each game action is bound to.
#[derive(Debug, Clone, Copy, PartialEq, Eq, Structural)]
pub struct KeyBindings {
    pub right: u8,
    pub left: u8,
    pub up: u8,
    pub down: u8,
    pub strafe_left: u8,
    pub strafe_right: u8,
    pub fire: u8,
    pub use_key: u8,
    pub speed: u8,
}

/// The engine's escape key code.
pub open spec fn escape_code() -> u8 {
    27
}

/// The engine's enter key code (a carriage return).
pub open spec fn enter_code() -> u8 {
    13
}

/// `c` with an ASCII capital letter folded to its lowercase.
pub open spec fn ascii_lower(c: char) -> char {
    if 'A' <= c && c <= 'Z' {
        ((c as int) + 32) as char
    } else {
        c
    }
}

/// An ASCII character passes through as its own code.
pub open spec fn ascii_code(c: char) -> Option<u8> {
    if (c as int) < 128 {
        Some(c as u8)
    } else {
        None
    }
}

/// The key a (lowercase) character is bound to: `a`/`d` strafe instead of
/// turning, the rest of the movement and action keys follow wasd, space
/// fires, and any other ASCII character passes through.
pub open spec fn char_code(b: KeyBindings, c: char) -> Option<u8> {
    if c == ' ' {
        Some(b.fire)
    } else if c == 'w' {
        Some(b.up)
    } else if c == 's' {
        Some(b.down)
    } else if c == 'a' {
        Some(b.strafe_left)
    } else if c == 'd' {
        Some(b.strafe_right)
    } else if c == 'e' {
        Some(b.use_key)
    } else if c == 'r' {
        Some(b.speed)
    } else {
        ascii_code(c)
    }
}

/// The single key a terminal key maps to, where it maps to one.
pub open spec fn code_key(b: KeyBindings, code: KeyCode) -> Option<u8> {
    match code {
        KeyCode::Up => Some(b.up),
        KeyCode::Down => Some(b.down),
        KeyCode::Esc => Some(escape_code()),
        KeyCode::Enter => Some(enter_code()),
        KeyCode::Char(c) => char_code(b, ascii_lower(c)),
        _ => None,
    }
}

/// The turn and strafe keys of the left and right arrows.
pub open spec fn arrow_keys(b: KeyBindings, code: KeyCode) -> Option<(u8, u8)> {
    match code {
        KeyCode::Left => Some((b.left, b.strafe_left)),
        KeyCode::Right => Some((b.right, b.strafe_right)),
        _ => None,
    }
}

/// Left/right turn, or strafe while shift is held; a release covers both.
pub open spec fn strafe_keys(b: KeyBindings, code: KeyCode, shifted: bool, pressed: bool) -> Option<Seq<u8>> {
    match arrow_keys(b, code) {
        None => None,
        Some((turn, strafe)) => Some(
            if !pressed {
                seq![turn, strafe]
            } else if shifted {
                seq![strafe]
            } else {
                seq![turn]
            },
        ),
    }
}

/// The engine key codes one key press or release produces.
pub open spec fn key_codes(b: KeyBindings, code: KeyCode, shifted: bool, pressed: bool) -> Seq<u8> {
    match strafe_keys(b, code, shifted, pressed) {
        Some(codes) => codes,
        None => match code_key(b, code) {
            Some(k) => seq![k],
            None => seq![],
        },
    }
}

/// The engine key events a terminal key message produces: none for a
/// repeat, otherwise its key codes, each pressed for a press and released
/// for a release.
pub open spec fn key_events(b: KeyBindings, message: KeyMessage) -> Seq<KeyData> {
    if message.kind is Repeat {
        seq![]
    } else {
        let pressed = message.kind is Press;
        key_codes(b, message.code, message.modifiers.shift, pressed).map_values(
            |k: u8| KeyData { pressed, key: k },
        )
    }
}

/// The key a mouse button is bound to: left fires, right uses.
pub open spec fn button_key(b: KeyBindings, button: MouseButton) -> Option<u8> {
    match button {
        MouseButton::Left => Some(b.fire),
        MouseButton::Right => Some(b.use_key),
        _ => None,
    }
}

/// The engine key event a mouse message produces: a press or release of
/// the left or right button, nothing for anything else.
pub open spec fn mouse_event(b: KeyBindings, message: MouseMessage) -> Option<KeyData> {
    let (pressed, button) = match message.kind {
        MouseKind::Down(button) => (true, Some(button)),
        MouseKind::Up(button) => (false, Some(button)),
        _ => (false, None),
    };
    match button {
        None => None,
        Some(button) => match button_key(b, button) {
            Some(key) => Some(KeyData { pressed, key }),
            None => None,
        },
    }
}

/// Reads the engine's `KEY_RIGHT` binding. Its value comes from the
/// engine's configuration, so nothing is claimed of it.
#[verifier::external_body]
fn engine_key_right() -> u8 {
    *doomgeneric::input::keys::KEY_RIGHT
}

/// Reads the engine's `KEY_LEFT` binding; nothing is claimed of its value.
#[verifier::external_body]
fn engine_key_left() -> u8 {
    *doomgeneric::input::keys::KEY_LEFT
}

/// Reads the engine's `KEY_UP` binding; nothing is claimed of its value.
#[verifier::external_body]
fn engine_key_up() -> u8 {
    *doomgeneric::input::keys::KEY_UP
}

/// Reads the engine's `KEY_DOWN` binding; nothing is claimed of its value.
#[verifier::external_body]
fn engine_key_down() -> u8 {
    *doomgeneric::input::keys::KEY_DOWN
}

/// Reads the engine's `KEY_STRAFELEFT` binding; nothing is claimed of its
/// value.
#[verifier::external_body]
fn engine_key_strafe_left() -> u8 {
    *doomgeneric::input::keys::KEY_STRAFELEFT
}

/// Reads the engine's `KEY_STRAFERIGHT` binding; nothing is claimed of its
/// value.
#[verifier::external_body]
fn engine_key_strafe_right() -> u8 {
    *doomgeneric::input::keys::KEY_STRAFERIGHT
}

/// Reads the engine's `KEY_FIRE` binding; nothing is claimed of its value.
#[verifier::external_body]
fn engine_key_fire() -> u8 {
    *doomgeneric::input::keys::KEY_FIRE
}

/// Reads the engine's `KEY_USE` binding; nothing is claimed of its value.
#[verifier::external_body]
fn engine_key_use() -> u8 {
    *doomgeneric::input::keys::KEY_USE
}

/// Reads the engine's `KEY_SPEED` binding; nothing is claimed of its value.
#[verifier::external_body]
fn engine_key_speed() -> u8 {
    *doomgeneric::input::keys::KEY_SPEED
}

/// Reads the engine's `KEY_ESCAPE`, a fixed code of 27.
#[verifier::external_body]
fn engine_key_escape() -> (k: u8)
    ensures
        k == escape_code(),
{
    doomgeneric::input::keys::KEY_ESCAPE
}

/// Reads the engine's `KEY_ENTER`, the carriage return's code 13.
#[verifier::external_body]
fn engine_key_enter() -> (k: u8)
    ensures
        k == enter_code(),
{
    doomgeneric::input::keys::KEY_ENTER
}

/// The engine's `keys::from_char`: an ASCII character's own code, nothing
/// for any other character.
#[verifier::external_body]
fn engine_key_from_char(c: char) -> (k: Option<u8>)
    ensures
        k == ascii_code(c),
{
    doomgeneric::input::keys::from_char(c)
}

impl KeyBindings {
    /// The bindings the engine currently holds.
    pub fn from_engine() -> (b: Self) {
        KeyBindings {
            right: engine_key_right(),
            left: engine_key_left(),
            up: engine_key_up(),
            down: engine_key_down(),
            strafe_left: engine_key_strafe_left(),
            strafe_right: engine_key_strafe_right(),
            fire: engine_key_fire(),
            use_key: engine_key_use(),
            speed: engine_key_speed(),
        }
    }
}

/// Folds an ASCII capital letter to its lowercase; every other character
/// is returned as it is.
pub fn to_ascii_lowercase(c: char) -> (r: char)
    ensures
        r == ascii_lower(c),
{
    if 'A' <= c && c <= 'Z' {
        let byte: u8 = c as u8;
        (byte + 32) as char
    } else {
        c
    }
}

/// `a`/`d` strafe instead of turning, since turning is the mouse's job.
fn char_key(bindings: &KeyBindings, character: char) -> (k: Option<u8>)
    ensures
        k == char_code(*bindings, character),
{
    match character {
        ' ' => Some(bindings.fire),
        'w' => Some(bindings.up),
        's' => Some(bindings.down),
        'a' => Some(bindings.strafe_left),
        'd' => Some(bindings.strafe_right),
        'e' => Some(bindings.use_key),
        'r' => Some(bindings.speed),
        _ => engine_key_from_char(character),
    }
}

fn doom_key(bindings: &KeyBindings, code: KeyCode) -> (k: Option<u8>)
    ensures
        k == code_key(*bindings, code),
{
    match code {
        KeyCode::Up => Some(bindings.up),
        KeyCode::Down => Some(bindings.down),
        KeyCode::Esc => Some(engine_key_escape()),
        KeyCode::Enter => Some(engine_key_enter()),
        KeyCode::Char(character) => char_key(bindings, to_ascii_lowercase(character)),
        _ => None,
    }
}

/// Left/right turn, or strafe while shift is held. A release covers
/// both variants, so dropping shift mid-hold cannot leave either key
/// stuck down.
fn strafe_codes(bindings: &KeyBindings, code: KeyCode, shifted: bool, pressed: bool) -> (codes: Option<Vec<u8>>)
    ensures
        match codes {
            Some(v) => strafe_keys(*bindings, code, shifted, pressed) == Some(v@),
            None => strafe_keys(*bindings, code, shifted, pressed) is None,
        },
{
    let (turn, strafe) = match code {
        KeyCode::Left => (bindings.left, bindings.strafe_left),
        KeyCode::Right => (bindings.right, bindings.strafe_right),
        _ => return None,
    };
    let codes = if !pressed {
        vec![turn, strafe]
    } else if shifted {
        vec![strafe]
    } else {
        vec![turn]
    };
    proof {
        if !pressed {
            assert(codes@ =~= seq![turn, strafe]);
        } else if shifted {
            assert(codes@ =~= seq![strafe]);
        } else {
            assert(codes@ =~= seq![turn]);
        }
    }
    Some(codes)
}

/// Maps a key message under the given bindings: a repeat is dropped, a
/// press or release yields its key codes, all pressed or all released.
pub fn map_key_with(bindings: &KeyBindings, message: &KeyMessage) -> (events: Vec<KeyData>)
    ensures
        events@ == key_events(*bindings, *message),
{
    let pressed = match message.kind {
        KeyKind::Press => true,
        KeyKind::Release => false,
        KeyKind::Repeat => return Vec::new(),
    };
    let codes: Vec<u8> = match strafe_codes(bindings, message.code, message.modifiers.shift, pressed) {
        Some(codes) => codes,
        None => match doom_key(bindings, message.code) {
            Some(key) => vec![key],
            None => Vec::new(),
        },
    };
    let ghost expected = key_codes(*bindings, message.code, message.modifiers.shift, pressed);
    assert(codes@ =~= expected);
    let mut events: Vec<KeyData> = Vec::new();
    let mut i: usize = 0;
    while i < codes.len()
        invariant
            i <= codes.len(),
            codes@ == expected,
            events@ =~= expected.take(i as int).map_values(|k: u8| KeyData { pressed, key: k }),
        decreases codes.len() - i,
    {
        events.push(KeyData { pressed, key: codes[i] });
        i = i + 1;
        assert(expected.take(i as int) =~= expected.take((i - 1) as int).push(codes@[(i - 1) as int]));
    }
    assert(expected.take(i as int) =~= expected);
    events
}

/// Maps a key message under the engine's current key bindings.
pub fn map_key(message: &KeyMessage) -> (events: Vec<KeyData>)
    ensures
        exists|b: KeyBindings| events@ == key_events(b, *message),
{
    let bindings = KeyBindings::from_engine();
    map_key_with(&bindings, message)
}

/// Maps a mouse message under the given bindings: a left or right button
/// press or release becomes fire or use, everything else is dropped.
pub fn map_mouse_with(bindings: &KeyBindings, message: &MouseMessage) -> (event: Option<KeyData>)
    ensures
        event == mouse_event(*bindings, *message),
{
    let (pressed, button) = match message.kind {
        MouseKind::Down(button) => (true, button),
        MouseKind::Up(button) => (false, button),
        _ => return None,
    };
    let key = match button {
        MouseButton::Left => bindings.fire,
        MouseButton::Right => bindings.use_key,
        _ => return None,
    };
    Some(KeyData { pressed, key })
}

/// Maps a mouse message under the engine's current key bindings.
pub fn map_mouse(message: &MouseMessage) -> (event: Option<KeyData>)
    ensures
        exists|b: KeyBindings| event == mouse_event(b, *message),
{
    let bindings = KeyBindings::from_engine();
    map_mouse_with(&bindings, message)
}

/// A held key repeat never reaches the engine.
pub proof fn lemma_repeat_is_dropped(b: KeyBindings, message: KeyMessage)
    requires
        message.kind is Repeat,
    ensures
        key_events(b, message).len() == 0,
{
}

/// Every event a message yields is pressed for a press and released for
/// a release.
pub proof fn lemma_events_follow_kind(b: KeyBindings, message: KeyMessage, i: int)
    requires
        0 <= i < key_events(b, message).len(),
    ensures
        key_events(b, message)[i].pressed == (message.kind is Press),
        !(message.kind is Repeat),
{
}

/// Releasing an arrow releases both its turn and its strafe key, whatever
/// modifiers are held.
pub proof fn lemma_arrow_release_covers_turn_and_strafe(b: KeyBindings, message: KeyMessage)
    requires
        message.kind is Release,
        message.code == KeyCode::Left || message.code == KeyCode::Right,
    ensures
        ({
            let (turn, strafe) = arrow_keys(b, message.code)->0;
            key_events(b, message) =~= seq![
                KeyData { pressed: false, key: turn },
                KeyData { pressed: false, key: strafe },
            ]
        }),
{
}

/// No key is left stuck down: every key a press sends, the release of the
/// same terminal key sends too, whether or not shift changed in between.
pub proof fn lemma_release_covers_press(b: KeyBindings, code: KeyCode, pressed_shift: bool, released_shift: bool, key: u8)
    requires
        key_codes(b, code, pressed_shift, true).contains(key),
    ensures
        key_codes(b, code, released_shift, false).contains(key),
{
    let released = key_codes(b, code, released_shift, false);
    if arrow_keys(b, code) is Some {
        let (turn, strafe) = arrow_keys(b, code)->0;
        if key == turn {
            assert(released[0] == key);
        } else {
            assert(released[1] == key);
        }
    } else {
        assert(released[0] == key);
    }
}

/// Characters map case-insensitively: a shifted letter does what the
/// plain letter does.
pub proof fn lemma_characters_ignore_case(b: KeyBindings, c: char, shifted: bool, pressed: bool)
    ensures
        key_codes(b, KeyCode::Char(c), shifted, pressed) == key_codes(
            b,
            KeyCode::Char(ascii_lower(c)),
            shifted,
            pressed,
        ),
{
}

/// Only a press or release of the left or right button reaches the
/// engine from the mouse.
pub proof fn lemma_only_left_and_right_clicks_map(b: KeyBindings, message: MouseMessage)
    ensures
        mouse_event(b, message) is Some <==> match message.kind {
            MouseKind::Down(button) | MouseKind::Up(button) => button == MouseButton::Left || button
                == MouseButton::Right,
            _ => false,
        },
{
}

/// A key message sends exactly one event: `key`, pressed or released.
pub open spec fn sends_one(b: KeyBindings, message: KeyMessage, pressed: bool, key: u8) -> bool {
    &&& key_events(b, message).len() == 1
    &&& key_events(b, message)[0] == KeyData { pressed, key }
}

/// Each action key sends the key its binding names, pressed on a press and
/// released on a release, with or without shift: `w`/`s` and the up/down
/// arrows move, `a`/`d` strafe, space fires, `e` uses, `r` runs, and escape
/// and enter send their fixed codes.
pub proof fn lemma_action_keys_follow_bindings(b: KeyBindings, modifiers: KeyModifiers, pressed: bool)
    ensures
        ({
            let kind = if pressed { KeyKind::Press } else { KeyKind::Release };
            let one = |code: KeyCode, key: u8|
                sends_one(b, KeyMessage { code, modifiers, kind }, pressed, key);
            &&& one(KeyCode::Char('r'), b.speed)
            &&& one(KeyCode::Char('R'), b.speed)
            &&& one(KeyCode::Char('e'), b.use_key)
            &&& one(KeyCode::Char('E'), b.use_key)
            &&& one(KeyCode::Char(' '), b.fire)
            &&& one(KeyCode::Char('w'), b.up)
            &&& one(KeyCode::Char('W'), b.up)
            &&& one(KeyCode::Char('s'), b.down)
            &&& one(KeyCode::Char('S'), b.down)
            &&& one(KeyCode::Char('a'), b.strafe_left)
            &&& one(KeyCode::Char('A'), b.strafe_left)
            &&& one(KeyCode::Char('d'), b.strafe_right)
            &&& one(KeyCode::Char('D'), b.strafe_right)
            &&& one(KeyCode::Up, b.up)
            &&& one(KeyCode::Down, b.down)
            &&& one(KeyCode::Esc, 27)
            &&& one(KeyCode::Enter, 13)
        }),
{
}

/// A mouse button's release lets go of exactly the key its press pressed:
/// under one set of bindings, whatever the position or modifiers of the
/// two messages, the left button's press and release are the fire key and
/// the right button's are the use key.
pub proof fn lemma_button_release_matches_press(b: KeyBindings, press: MouseMessage, release: MouseMessage, button: MouseButton)
    requires
        press.kind == MouseKind::Down(button),
        release.kind == MouseKind::Up(button),
    ensures
        mouse_event(b, press) is Some <==> mouse_event(b, release) is Some,
        mouse_event(b, press) is Some ==> {
            &&& mouse_event(b, press)->0.pressed
            &&& !mouse_event(b, release)->0.pressed
            &&& mouse_event(b, press)->0.key == mouse_event(b, release)->0.key
        },
        button == MouseButton::Left ==> mouse_event(b, release) == Some(KeyData { pressed: false, key: b.fire }),
        button == MouseButton::Right ==> mouse_event(b, release) == Some(KeyData { pressed: false, key: b.use_key }),
{
}

} // verus!
