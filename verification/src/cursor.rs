//! The pointer-position accessor's logic: the reported position for each
//! outcome of an OS pointer query. The query itself is a read at the process
//! edge — the OS library can abort outright where no display server exists —
//! so the shell performs it and hands the plain outcome here; a failed query
//! is swallowed, substituting the origin.

use vstd::prelude::*;

verus! {

/// The pointer location at the instant of a query.
#[derive(Clone, Copy, PartialEq, Eq, Structural, Debug)]
pub struct CursorPosition {
    pub x: i32,
    pub y: i32,
}

/// The position reported for one pointer-query outcome: the coordinates when
/// the query succeeded, the origin when it failed.
pub open spec fn position_of_query(q: Option<(i32, i32)>) -> CursorPosition {
    match q {
        Some(p) => CursorPosition { x: p.0, y: p.1 },
        None => CursorPosition { x: 0, y: 0 },
    }
}

/// Turns one pointer-query outcome into the position reported to callers: a
/// failed query is fully swallowed and reported as the origin, so a caller
/// cannot tell "pointer at the origin" from "query failed".
pub fn cursor_position_of_query(q: Option<(i32, i32)>) -> (r: CursorPosition)
    ensures
        r == position_of_query(q),
{
    match q {
        Some((x, y)) => CursorPosition { x, y },
        None => CursorPosition { x: 0, y: 0 },
    }
}

} // verus!
