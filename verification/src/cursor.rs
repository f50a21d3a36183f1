//! The highlight cursor of a list: it moves by one row and stops at both ends.

use vstd::prelude::*;

verus! {

/// The direction of one cursor move.
#[derive(Clone, Copy, Debug, PartialEq, Eq, Structural)]
pub enum ScrollDirection {
    Up,
    Down,
}

/// The cursor after one move in a list of `len` rows. In an empty list the
/// cursor is 0. Otherwise it moves by one row, and stays where it is at the
/// first row when moving up and at the last row when moving down.
pub open spec fn scrolled(cursor: int, len: int, direction: ScrollDirection) -> int {
    if len <= 0 {
        0
    } else {
        match direction {
            ScrollDirection::Up => if cursor <= 0 {
                0
            } else {
                cursor - 1
            },
            ScrollDirection::Down => if cursor + 1 >= len {
                len - 1
            } else {
                cursor + 1
            },
        }
    }
}

/// The cursor after a run of moves, made in order.
pub open spec fn scrolled_all(cursor: int, len: int, moves: Seq<ScrollDirection>) -> int
    decreases moves.len(),
{
    if moves.len() == 0 {
        cursor
    } else {
        scrolled(scrolled_all(cursor, len, moves.drop_last()), len, moves.last())
    }
}

/// Whether `cursor` is a place where the highlight of a list of `len` rows may
/// stand: on one of its rows, or at 0 where it has none.
pub open spec fn in_list(cursor: int, len: int) -> bool {
    if len <= 0 {
        cursor == 0
    } else {
        0 <= cursor < len
    }
}

/// Moves a cursor by one row.
pub fn scroll(cursor: usize, len: usize, direction: ScrollDirection) -> (next: usize)
    ensures
        next == scrolled(cursor as int, len as int, direction),
{
    if len == 0 {
        0
    } else {
        match direction {
            ScrollDirection::Up => if cursor == 0 {
                0
            } else {
                cursor - 1
            },
            ScrollDirection::Down => if cursor >= len - 1 {
                len - 1
            } else {
                cursor + 1
            },
        }
    }
}

/// The nearest place to `cursor` where the highlight of a list of `len` rows
/// may stand.
pub open spec fn clamped(cursor: int, len: int) -> int {
    if len <= 0 || cursor < 0 {
        0
    } else if cursor >= len {
        len - 1
    } else {
        cursor
    }
}

/// Brings a cursor back into a list of `len` rows.
pub fn clamp(cursor: usize, len: usize) -> (next: usize)
    ensures
        next == clamped(cursor as int, len as int),
{
    if len == 0 {
        0
    } else if cursor >= len {
        len - 1
    } else {
        cursor
    }
}

/// One move leaves the cursor in the list: it never leaves the rows and never
/// wraps around. It moves by at most one row, and a move that would leave the
/// list keeps the cursor on the boundary row.
pub proof fn lemma_scrolled_stays(cursor: int, len: int, direction: ScrollDirection)
    requires
        in_list(cursor, len),
    ensures
        in_list(scrolled(cursor, len, direction), len),
        -1 <= scrolled(cursor, len, direction) - cursor <= 1,
        direction == ScrollDirection::Up ==> scrolled(cursor, len, direction) <= cursor,
        direction == ScrollDirection::Down ==> scrolled(cursor, len, direction) >= cursor,
        len > 0 && cursor == 0 ==> scrolled(cursor, len, ScrollDirection::Up) == 0,
        len > 0 && cursor == len - 1 ==> scrolled(cursor, len, ScrollDirection::Down) == len - 1,
{
}

/// Whatever moves are made in an empty list, the cursor stays at 0.
pub proof fn lemma_scrolled_all_empty(moves: Seq<ScrollDirection>)
    ensures
        scrolled_all(0, 0, moves) == 0,
    decreases moves.len(),
{
    if moves.len() > 0 {
        lemma_scrolled_all_empty(moves.drop_last());
    }
}

/// Whatever moves are made in a list of `len` rows, a cursor that started on
/// one of them ends on one of them.
pub proof fn lemma_scrolled_all_stays(cursor: int, len: int, moves: Seq<ScrollDirection>)
    requires
        in_list(cursor, len),
    ensures
        in_list(scrolled_all(cursor, len, moves), len),
    decreases moves.len(),
{
    if moves.len() > 0 {
        lemma_scrolled_all_stays(cursor, len, moves.drop_last());
    }
}

/// A run of `count` moves in one direction.
pub open spec fn repeated(direction: ScrollDirection, count: nat) -> Seq<ScrollDirection> {
    Seq::new(count, |i: int| direction)
}

/// The cursor saturates: moves down bring it forward row by row until the last
/// row, where it stays; moves up bring it back until the first row, where it
/// stays.
pub proof fn lemma_scrolled_all_saturates(
    cursor: int,
    len: int,
    direction: ScrollDirection,
    count: nat,
)
    requires
        len > 0,
        in_list(cursor, len),
    ensures
        direction == ScrollDirection::Down ==> scrolled_all(
            cursor,
            len,
            repeated(direction, count),
        ) == if cursor + count >= len {
            len - 1
        } else {
            cursor + count
        },
        direction == ScrollDirection::Up ==> scrolled_all(cursor, len, repeated(direction, count))
            == if cursor - count <= 0 {
            0
        } else {
            cursor - count
        },
    decreases count,
{
    if count > 0 {
        let shorter = (count - 1) as nat;
        lemma_scrolled_all_saturates(cursor, len, direction, shorter);
        assert(repeated(direction, count).drop_last() =~= repeated(direction, shorter));
    }
}

} // verus!
