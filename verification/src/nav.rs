//! Moving the selection of a table by a row or by a page.

use vstd::prelude::*;

verus! {

/// The row selected after moving up from `selected` in a table of `len` rows: the row
/// above, the last row when coming from the first, and the first row when none was selected.
pub open spec fn spec_row_before(selected: Option<usize>, len: usize) -> usize {
    match selected {
        Some(i) => if i == 0 {
            if len == 0 {
                0
            } else {
                (len - 1) as usize
            }
        } else {
            (i - 1) as usize
        },
        None => 0,
    }
}

/// The row selected after moving down from `selected` in a table of `len` rows: the row
/// below, and the first row when coming from the last one or from none.
pub open spec fn spec_row_after(selected: Option<usize>, len: usize) -> usize {
    match selected {
        Some(i) => if len == 0 || i >= len - 1 {
            0
        } else {
            (i + 1) as usize
        },
        None => 0,
    }
}

/// The row selected after moving up by a page of `page_size` rows, stopping at the first.
pub open spec fn spec_page_before(selected: Option<usize>, page_size: u16) -> usize {
    match selected {
        Some(i) => if i <= page_size {
            0
        } else {
            (i - page_size) as usize
        },
        None => 0,
    }
}

/// The row selected after moving down by a page of `page_size` rows in a table of `len`
/// rows, stopping at the last; the first row when none was selected.
pub open spec fn spec_page_after(selected: Option<usize>, len: usize, page_size: u16) -> usize {
    match selected {
        Some(i) => if len <= page_size || i >= len - page_size {
            if len == 0 {
                0
            } else {
                (len - 1) as usize
            }
        } else {
            (i + page_size) as usize
        },
        None => 0,
    }
}

#[verifier::when_used_as_spec(spec_row_before)]
pub fn row_before(selected: Option<usize>, len: usize) -> (row: usize)
    ensures
        row == spec_row_before(selected, len),
{
    match selected {
        Some(i) => if i == 0 {
            if len == 0 {
                0
            } else {
                len - 1
            }
        } else {
            i - 1
        },
        None => 0,
    }
}

#[verifier::when_used_as_spec(spec_row_after)]
pub fn row_after(selected: Option<usize>, len: usize) -> (row: usize)
    ensures
        row == spec_row_after(selected, len),
{
    match selected {
        Some(i) => if len == 0 || i >= len - 1 {
            0
        } else {
            i + 1
        },
        None => 0,
    }
}

#[verifier::when_used_as_spec(spec_page_before)]
pub fn page_before(selected: Option<usize>, page_size: u16) -> (row: usize)
    ensures
        row == spec_page_before(selected, page_size),
{
    let page = page_size as usize;
    match selected {
        Some(i) => if i <= page {
            0
        } else {
            i - page
        },
        None => 0,
    }
}

#[verifier::when_used_as_spec(spec_page_after)]
pub fn page_after(selected: Option<usize>, len: usize, page_size: u16) -> (row: usize)
    ensures
        row == spec_page_after(selected, len, page_size),
{
    let page = page_size as usize;
    match selected {
        Some(i) => if len <= page || i >= len - page {
            if len == 0 {
                0
            } else {
                len - 1
            }
        } else {
            i + page
        },
        None => 0,
    }
}

/// The share of a length, in percent, that is left on either side of a part that takes
/// `percent` of it and stands in the middle.
pub open spec fn spec_side_percentage(percent: u16) -> u16 {
    ((100 - percent) / 2) as u16
}

#[verifier::when_used_as_spec(spec_side_percentage)]
pub fn side_percentage(percent: u16) -> (side: u16)
    requires
        percent <= 100,
    ensures
        side == spec_side_percentage(percent),
        side + percent + side <= 100,
        side + percent + side >= 99,
{
    (100 - percent) / 2
}

/// Lemma: in a table that has rows, a selection that is none or a row of the table moves
/// to a row of the table, whichever way it moves.
pub proof fn lemma_moves_stay_in_table(selected: Option<usize>, len: usize, page_size: u16)
    requires
        len > 0,
        selected matches Some(row) ==> row < len,
    ensures
        spec_row_before(selected, len) < len,
        spec_row_after(selected, len) < len,
        spec_page_before(selected, page_size) < len,
        spec_page_after(selected, len, page_size) < len,
{
}

} // verus!
