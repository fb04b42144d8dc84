//! Differences the absolute cell positions of the mouse message stream
//! into engine turn deltas.

use vstd::prelude::*;

use crate::input::{MouseButton, MouseKind, MouseMessage};

verus! {

/// Engine turn units per terminal cell of horizontal mouse motion.
pub const ENGINE_DX_PER_CELL: i32 = 32;

/// Whether a mouse event moves the pointer (with or without a button held).
pub open spec fn is_motion(kind: MouseKind) -> bool {
    kind is Drag || kind is Moved
}

/// The turn a motion to `column` yields after the pointer was last seen at
/// `previous`: nothing before the first sighting or when the column did
/// not change, otherwise the cell difference in engine units.
pub open spec fn turn_delta(previous: Option<u16>, column: u16) -> Option<i32> {
    match previous {
        None => None,
        Some(p) => if column == p {
            None
        } else {
            Some(((column - p) * ENGINE_DX_PER_CELL) as i32)
        },
    }
}

/// Tracks the last column the pointer was seen at.
pub struct AimTracker {
    last_column: Option<u16>,
}

impl View for AimTracker {
    type V = Option<u16>;

    /// The last column the pointer was seen at, if any.
    closed spec fn view(&self) -> Option<u16> {
        self.last_column
    }
}

impl Default for AimTracker {
    fn default() -> (t: Self)
        ensures
            t@ is None,
    {
        AimTracker { last_column: None }
    }
}

impl AimTracker {
    /// Feeds one mouse message: motion (plain or dragging) turns by the
    /// column difference since the last motion, every other message is
    /// ignored and leaves the tracker as it was.
    pub fn track(&mut self, message: &MouseMessage) -> (dx: Option<i32>)
        ensures
            is_motion(message.kind) ==> {
                &&& final(self)@ == Some(message.position.x)
                &&& dx == turn_delta(old(self)@, message.position.x)
            },
            !is_motion(message.kind) ==> final(self)@ == old(self)@ && dx is None,
            message.kind is Drag || message.kind is Moved ==> {
                &&& final(self)@ == Some(message.position.x)
                &&& dx == turn_delta(old(self)@, message.position.x)
            },
    {
        match message.kind {
            MouseKind::Drag(_) | MouseKind::Moved => self.turn(message.position.x),
            _ => None,
        }
    }

    fn turn(&mut self, column: u16) -> (dx: Option<i32>)
        ensures
            final(self)@ == Some(column),
            dx == turn_delta(old(self)@, column),
    {
        let previous = self.last_column;
        self.last_column = Some(column);
        match previous {
            None => None,
            Some(previous) => {
                let cells: i32 = column as i32 - previous as i32;
                if cells != 0 {
                    Some(cells * ENGINE_DX_PER_CELL)
                } else {
                    None
                }
            },
        }
    }
}

/// A turn counted as engine units, no turn counting as zero.
pub open spec fn turn_units(turn: Option<i32>) -> int {
    match turn {
        Some(dx) => dx as int,
        None => 0,
    }
}

/// The total turn a stream of motions to `columns` yields, the pointer
/// last seen at `previous`.
pub open spec fn total_turn(previous: Option<u16>, columns: Seq<u16>) -> int
    decreases columns.len(),
{
    if columns.len() == 0 {
        0
    } else {
        turn_units(turn_delta(previous, columns[0])) + total_turn(Some(columns[0]), columns.drop_first())
    }
}

/// One motion after a sighting turns by the column difference in engine
/// units (no turn for no difference).
proof fn lemma_step_units(previous: u16, column: u16)
    ensures
        turn_units(turn_delta(Some(previous), column)) == (column - previous) * ENGINE_DX_PER_CELL,
{
    let d: int = (column - previous) * ENGINE_DX_PER_CELL;
    assert(-2097120 <= d <= 2097120);
    assert(d as i32 as int == d);
}

/// Every drag is motion, whatever button is held, and so is a plain move;
/// presses, releases, scrolls and cancels are not.
pub proof fn lemma_drags_with_any_button_are_motion(button: MouseButton)
    ensures
        is_motion(MouseKind::Drag(button)),
        is_motion(MouseKind::Moved),
        !is_motion(MouseKind::Down(button)),
        !is_motion(MouseKind::Up(button)),
        !is_motion(MouseKind::ScrollUp),
        !is_motion(MouseKind::ScrollDown),
        !is_motion(MouseKind::ScrollLeft),
        !is_motion(MouseKind::ScrollRight),
        !is_motion(MouseKind::Cancel),
{
}

/// A motion after a sighting turns by exactly the column difference in
/// engine units, and a motion that stays in its column does not turn.
pub proof fn lemma_motion_turns_by_the_column_difference(previous: u16, column: u16)
    ensures
        column == previous ==> turn_delta(Some(previous), column) is None,
        column != previous ==> turn_delta(Some(previous), column) is Some && turn_units(
            turn_delta(Some(previous), column),
        ) == (column - previous) * ENGINE_DX_PER_CELL,
{
    lemma_step_units(previous, column);
}

/// The first motion only primes the tracker: it never turns.
pub proof fn lemma_first_motion_primes(column: u16)
    ensures
        turn_delta(None, column) is None,
{
}

/// Deltas add up: the turns of a stream of motions sum to the engine units
/// of the distance between the column the pointer was last seen at and the
/// last column, so no motion is lost or counted twice.
pub proof fn lemma_turns_telescope(previous: u16, columns: Seq<u16>)
    requires
        columns.len() > 0,
    ensures
        total_turn(Some(previous), columns) == (columns.last() - previous) * ENGINE_DX_PER_CELL,
    decreases columns.len(),
{
    lemma_step_units(previous, columns[0]);
    let rest = columns.drop_first();
    assert(total_turn(Some(previous), columns) == turn_units(turn_delta(Some(previous), columns[0]))
        + total_turn(Some(columns[0]), rest));
    if columns.len() > 1 {
        lemma_turns_telescope(columns[0], rest);
        assert(rest.last() == columns.last());
    } else {
        assert(rest.len() == 0);
        assert(total_turn(Some(columns[0]), rest) == 0);
    }
}

/// From a fresh tracker, a stream of motions turns by the distance between
/// its first and last columns.
pub proof fn lemma_fresh_stream_turns_by_distance(columns: Seq<u16>)
    requires
        columns.len() > 0,
    ensures
        total_turn(None, columns) == (columns.last() - columns[0]) * ENGINE_DX_PER_CELL,
{
    let rest = columns.drop_first();
    assert(total_turn(None, columns) == turn_units(turn_delta(None, columns[0])) + total_turn(
        Some(columns[0]),
        rest,
    ));
    if columns.len() > 1 {
        lemma_turns_telescope(columns[0], rest);
        assert(rest.last() == columns.last());
    } else {
        assert(rest.len() == 0);
        assert(total_turn(Some(columns[0]), rest) == 0);
    }
}

} // verus!
