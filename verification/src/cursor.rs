//! Selection cursor: a bounded integer-or-none index over a dynamically
//! sized collection. Every list in the dashboard shares this arithmetic,
//! re-evaluated against the collection's current size on each step, so a
//! collection that shrinks between renders can never leave the cursor
//! pointing out of bounds.

use vstd::prelude::*;

verus! {

/// Result of retreating a cursor: either the cursor took a new position, or
/// it was already at its boundary and the caller decides whether that leaves
/// the current level (a boundary is distinct from "no selection").
#[derive(Clone, Copy, Debug, PartialEq, Eq)]
pub enum Retreat {
    /// The cursor was at index 0 already: the start of the list was reached.
    Boundary,
    /// The cursor after the step.
    Moved(Option<usize>),
}

/// A cursor is in bounds for a collection of `count` items when, if present,
/// it is below `count`, except that an empty collection still admits index 0
/// (a stale selection over a collection that shrank to nothing).
pub open spec fn cursor_in_bounds(cursor: Option<usize>, count: usize) -> bool {
    match cursor {
        None => true,
        Some(i) => i < if count == 0 { 1int } else { count as int },
    }
}

/// Advancing from no selection selects the first item when one exists;
/// advancing a selection moves it one forward, clamped to the last item.
pub open spec fn spec_advance(cursor: Option<usize>, count: usize) -> Option<usize> {
    match cursor {
        None => if count > 0 { Some(0usize) } else { None },
        Some(i) => {
            let cap: int = if count == 0 { 0 } else { count - 1 };
            Some((if i + 1 <= cap { i + 1 } else { cap }) as usize)
        },
    }
}

/// Retreating from no selection selects the first item when one exists;
/// retreating from index 0 reports the boundary; otherwise the selection
/// moves one back.
pub open spec fn spec_retreat(cursor: Option<usize>, count: usize) -> Retreat {
    match cursor {
        None => if count > 0 { Retreat::Moved(Some(0usize)) } else { Retreat::Moved(None) },
        Some(i) => if i == 0 { Retreat::Boundary } else { Retreat::Moved(Some((i - 1) as usize)) },
    }
}

/// Retreat as a list-level step: at the boundary the cursor stays on the
/// first item instead of leaving the level.
pub open spec fn spec_retreat_stay(cursor: Option<usize>, count: usize) -> Option<usize> {
    match spec_retreat(cursor, count) {
        Retreat::Boundary => Some(0usize),
        Retreat::Moved(c) => c,
    }
}

pub fn advance(cursor: Option<usize>, count: usize) -> (r: Option<usize>)
    ensures
        r == spec_advance(cursor, count),
        cursor_in_bounds(cursor, count) ==> cursor_in_bounds(r, count),
        count > 0 ==> (r matches Some(i) && i < count),
{
    match cursor {
        None => if count > 0 {
            Some(0)
        } else {
            None
        },
        Some(i) => {
            if count == 0 {
                Some(0)
            } else if i < count - 1 {
                Some(i + 1)
            } else {
                Some(count - 1)
            }
        },
    }
}

pub fn retreat(cursor: Option<usize>, count: usize) -> (r: Retreat)
    ensures
        r == spec_retreat(cursor, count),
        cursor_in_bounds(cursor, count) ==> (r matches Retreat::Moved(c) ==> cursor_in_bounds(
            c,
            count,
        )),
{
    match cursor {
        None => if count > 0 {
            Retreat::Moved(Some(0))
        } else {
            Retreat::Moved(None)
        },
        Some(i) => {
            if i == 0 {
                Retreat::Boundary
            } else {
                Retreat::Moved(Some(i - 1))
            }
        },
    }
}

/// Retreat for plain list navigation: a boundary keeps the selection on the
/// first item.
pub fn retreat_stay(cursor: Option<usize>, count: usize) -> (r: Option<usize>)
    ensures
        r == spec_retreat_stay(cursor, count),
        cursor_in_bounds(cursor, count) ==> cursor_in_bounds(r, count),
{
    match retreat(cursor, count) {
        Retreat::Boundary => Some(0),
        Retreat::Moved(c) => c,
    }
}

/// Drop the selection entirely.
pub fn clear() -> (r: Option<usize>)
    ensures
        r is None,
{
    None
}

/// One advance-then-retreat round, with a boundary read as leaving the level
/// (no selection).
pub open spec fn spec_advance_retreat_round(cursor: Option<usize>, count: usize) -> Option<
    usize,
> {
    match spec_retreat(spec_advance(cursor, count), count) {
        Retreat::Boundary => None,
        Retreat::Moved(c) => c,
    }
}

/// `rounds` advance-then-retreat rounds in a row.
pub open spec fn spec_advance_retreat_rounds(
    cursor: Option<usize>,
    count: usize,
    rounds: nat,
) -> Option<usize>
    decreases rounds,
{
    if rounds == 0 {
        cursor
    } else {
        spec_advance_retreat_round(
            spec_advance_retreat_rounds(cursor, count, (rounds - 1) as nat),
            count,
        )
    }
}

/// However often advance-then-retreat is repeated, an in-bounds cursor stays
/// in bounds: over a collection of `count > 0` items no index at or past
/// `count` ever appears.
pub proof fn lemma_advance_retreat_rounds_in_bounds(
    cursor: Option<usize>,
    count: usize,
    rounds: nat,
)
    requires
        cursor_in_bounds(cursor, count),
    ensures
        cursor_in_bounds(spec_advance_retreat_rounds(cursor, count, rounds), count),
    decreases rounds,
{
    if rounds > 0 {
        lemma_advance_retreat_rounds_in_bounds(cursor, count, (rounds - 1) as nat);
    }
}

/// Advance then retreat, repeated any number of times, returns either the
/// original cursor or no selection, as long as the cursor does not sit on
/// the last item of a list of two or more (there the advance clamps and the
/// round comes back one short).
pub proof fn lemma_advance_retreat_rounds_round_trip(
    cursor: Option<usize>,
    count: usize,
    rounds: nat,
)
    requires
        cursor_in_bounds(cursor, count),
        cursor matches Some(i) ==> i + 1 < count || count <= 1,
    ensures
        spec_advance_retreat_rounds(cursor, count, rounds) == cursor
            || spec_advance_retreat_rounds(cursor, count, rounds) is None,
    decreases rounds,
{
    if rounds > 0 {
        lemma_advance_retreat_rounds_round_trip(cursor, count, (rounds - 1) as nat);
    }
}

} // verus!
