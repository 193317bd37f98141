use vstd::prelude::*;

verus! {

/// A cursor is valid for a list of `len` entries when it is unset exactly
/// on an empty list and otherwise names one of its entries.
pub open spec fn cursor_valid(c: Option<usize>, len: nat) -> bool {
    if len == 0 {
        c is None
    } else {
        c is Some && (c->0 as nat) < len
    }
}

/// Where the cursor goes after the entry at `removed` left a list that now
/// has `new_len` entries: unset on an empty list, the new last entry when
/// the removed one was at or past the end, else the entry that slid into
/// the vacated place.
pub open spec fn reindexed(removed: usize, new_len: nat) -> Option<usize> {
    if new_len == 0 {
        None
    } else if removed >= new_len {
        Some((new_len - 1) as usize)
    } else {
        Some(removed)
    }
}

/// The cursor one entry further down a list of `len` entries. It stops at
/// the last entry; an unset cursor goes to the first one.
pub open spec fn next_cursor(c: Option<usize>, len: nat) -> Option<usize> {
    if len == 0 {
        None
    } else {
        match c {
            None => Some(0),
            Some(i) => if i + 1 < len {
                Some((i + 1) as usize)
            } else {
                Some((len - 1) as usize)
            },
        }
    }
}

/// The cursor one entry further up a list of `len` entries. It stops at
/// the first entry; an unset cursor goes to the last one.
pub open spec fn previous_cursor(c: Option<usize>, len: nat) -> Option<usize> {
    if len == 0 {
        None
    } else {
        match c {
            None => Some((len - 1) as usize),
            Some(i) => if i == 0 {
                Some(0)
            } else if i - 1 < len {
                Some((i - 1) as usize)
            } else {
                Some((len - 1) as usize)
            },
        }
    }
}

/// The cursor brought within a list of `len` entries: unset on an empty
/// list, the first entry when it was unset, the last entry when it was
/// past the end, and unchanged otherwise.
pub open spec fn clamped(c: Option<usize>, len: nat) -> Option<usize> {
    if len == 0 {
        None
    } else {
        match c {
            None => Some(0),
            Some(i) => if i < len {
                Some(i)
            } else {
                Some((len - 1) as usize)
            },
        }
    }
}

/// Applies a series of cursor moves, `true` for down and `false` for up.
pub open spec fn navigated(c: Option<usize>, len: nat, moves: Seq<bool>) -> Option<usize>
    decreases moves.len(),
{
    if moves.len() == 0 {
        c
    } else {
        let step = if moves[0] {
            next_cursor(c, len)
        } else {
            previous_cursor(c, len)
        };
        navigated(step, len, moves.drop_first())
    }
}

/// The reindexing rule, computed.
pub fn reindex(removed: usize, new_len: usize) -> (r: Option<usize>)
    ensures
        r == reindexed(removed, new_len as nat),
{
    if new_len == 0 {
        None
    } else if removed >= new_len {
        Some(new_len - 1)
    } else {
        Some(removed)
    }
}

/// Moving the cursor down, computed.
pub fn step_down(c: Option<usize>, len: usize) -> (r: Option<usize>)
    ensures
        r == next_cursor(c, len as nat),
{
    if len == 0 {
        None
    } else {
        match c {
            None => Some(0),
            Some(i) => if i < len - 1 {
                Some(i + 1)
            } else {
                Some(len - 1)
            },
        }
    }
}

/// Moving the cursor up, computed.
pub fn step_up(c: Option<usize>, len: usize) -> (r: Option<usize>)
    ensures
        r == previous_cursor(c, len as nat),
{
    if len == 0 {
        None
    } else {
        match c {
            None => Some(len - 1),
            Some(i) => if i == 0 {
                Some(0)
            } else if i - 1 < len {
                Some(i - 1)
            } else {
                Some(len - 1)
            },
        }
    }
}

/// Clamping the cursor, computed.
pub fn clamp(c: Option<usize>, len: usize) -> (r: Option<usize>)
    ensures
        r == clamped(c, len as nat),
{
    if len == 0 {
        None
    } else {
        match c {
            None => Some(0),
            Some(i) => if i < len {
                Some(i)
            } else {
                Some(len - 1)
            },
        }
    }
}

/// On a non-empty list, a valid cursor stays valid after any series of
/// moves up and down, and every move keeps it within `[0, len)`.
pub proof fn lemma_navigation_stays_in_bounds(c: Option<usize>, len: nat, moves: Seq<bool>)
    requires
        len > 0,
        cursor_valid(c, len),
    ensures
        cursor_valid(navigated(c, len, moves), len),
        navigated(c, len, moves) is Some,
        (navigated(c, len, moves)->0 as nat) < len,
    decreases moves.len(),
{
    if moves.len() > 0 {
        let step = if moves[0] {
            next_cursor(c, len)
        } else {
            previous_cursor(c, len)
        };
        lemma_navigation_stays_in_bounds(step, len, moves.drop_first());
    }
}

/// The reindexing rule on removals: taking the last entry out of a list of
/// `n` entries leaves the cursor on entry `n - 2`, or unset when nothing is
/// left; taking out an entry before the last keeps the cursor where it was.
pub proof fn lemma_reindex_after_removal(n: nat, removed: usize)
    requires
        (removed as nat) < n,
    ensures
        removed + 1 == n ==> reindexed(removed, (n - 1) as nat) == (if n == 1 {
            None
        } else {
            Some((n - 2) as usize)
        }),
        removed + 1 < n ==> reindexed(removed, (n - 1) as nat) == Some(removed),
        cursor_valid(reindexed(removed, (n - 1) as nat), (n - 1) as nat),
{
}

} // verus!
