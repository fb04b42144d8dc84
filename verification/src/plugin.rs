//! Shared Doom plumbing decisions: the HUD line docked on top and the
//! app's own quit chord.

use vstd::prelude::*;

use crate::doom_thread::LOG_FILE;
use crate::input::{InputCapabilities, KeyCode, KeyKind, KeyMessage};

verus! {

/// The warning shown when the terminal reports no key releases.
pub open spec fn degraded_keys_text() -> Seq<char> {
    " · DEGRADED KEYS: no release events, movement will lurch (kitty-protocol terminal, no tmux)"@
}

/// The HUD line: the title and quit key, the degraded-keys warning when
/// the terminal reports no key releases, and where the engine log is.
pub open spec fn hud_line(key_release: bool) -> Seq<char> {
    "plurimus-doom · ctrl-c quits"@ + (if key_release {
        Seq::empty()
    } else {
        degraded_keys_text()
    }) + " · engine log: "@ + LOG_FILE@
}

/// The HUD line for a terminal with the given capabilities.
pub fn hud_text(capabilities: &InputCapabilities) -> (text: String)
    ensures
        text@ == hud_line(capabilities.key_release),
{
    let mut text = String::from_str("plurimus-doom · ctrl-c quits");
    if !capabilities.key_release {
        text.append(
            " · DEGRADED KEYS: no release events, movement will lurch (kitty-protocol terminal, no tmux)",
        );
    } else {
        assert(text@ + Seq::<char>::empty() =~= text@);
    }
    text.append(" · engine log: ");
    text.append(LOG_FILE);
    text
}

/// Whether a key message is the quit chord: ctrl-c pressed. Doom swallows
/// every key it maps, so the chord is the app's own policy.
pub fn is_quit_chord(message: &KeyMessage) -> (quit: bool)
    ensures
        quit == (message.kind is Press && message.modifiers.ctrl && message.code == KeyCode::Char('c')),
{
    match (message.kind, message.code) {
        (KeyKind::Press, KeyCode::Char('c')) => message.modifiers.ctrl,
        _ => false,
    }
}

} // verus!
