use vstd::prelude::*;

verus! {

/// A cursor into a list of `count` rows is valid when it selects nothing
/// exactly when the list is empty, and otherwise selects an existing row.
pub open spec fn cursor_valid(cursor: Option<usize>, count: usize) -> bool {
    match cursor {
        None => count == 0,
        Some(i) => i < count,
    }
}

/// The cursor once its list has `count` rows: nothing on an empty list,
/// otherwise the previous row (the first when none was selected) pulled back
/// to the last row.
pub open spec fn clamped(prev: Option<usize>, count: usize) -> Option<usize> {
    if count == 0 {
        None
    } else {
        let i = match prev {
            Some(i) => i,
            None => 0,
        };
        if i < count {
            Some(i)
        } else {
            Some((count - 1) as usize)
        }
    }
}

/// Re-validates a table cursor after the list it points into changed size.
pub fn clamp_cursor(prev: Option<usize>, count: usize) -> (r: Option<usize>)
    ensures
        r == clamped(prev, count),
        cursor_valid(r, count),
{
    if count == 0 {
        None
    } else {
        let i: usize = match prev {
            Some(i) => i,
            None => 0,
        };
        let max: usize = count - 1;
        if i <= max {
            Some(i)
        } else {
            Some(max)
        }
    }
}

/// Selection clamp: whatever the previous cursor and the new size (zero
/// included), the re-validated cursor selects nothing exactly when the list is
/// empty and otherwise a row below its size; a cursor that was already valid
/// for that size is left as it was.
pub proof fn lemma_clamp_valid(prev: Option<usize>, count: usize)
    ensures
        cursor_valid(clamped(prev, count), count),
        clamped(prev, count) is None <==> count == 0,
        cursor_valid(prev, count) ==> clamped(prev, count) == prev,
{
}

/// Selection clamp over a whole run of size changes: re-validating after each
/// change leaves a valid cursor for the last size.
pub proof fn lemma_clamp_valid_over_changes(start: Option<usize>, counts: Seq<usize>)
    requires
        counts.len() > 0,
    ensures
        cursor_valid(clamp_all(start, counts), counts.last()),
    decreases counts.len(),
{
    if counts.len() > 1 {
        lemma_clamp_valid_over_changes(start, counts.drop_last());
    }
}

/// The cursor after re-validating it for each size of `counts` in turn.
pub open spec fn clamp_all(start: Option<usize>, counts: Seq<usize>) -> Option<usize>
    decreases counts.len(),
{
    if counts.len() == 0 {
        start
    } else {
        clamped(clamp_all(start, counts.drop_last()), counts.last())
    }
}

} // verus!
