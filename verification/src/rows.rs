//! The row model of the tests pane.
//!
//! Rendered rows are counted as follows: every test contributes its header
//! row; an expanded test additionally contributes one label row and one row
//! per setup item when it has any, one action row, and one label row and
//! one row per verify item when it has any. All row arithmetic about
//! selection, scrolling and mouse mapping is stated against this model.

use vstd::prelude::*;

use crate::definition::Test;
use crate::idset::id_in;
use crate::state::SubSelection;

verus! {

/// Rows of the setup block of an expanded test: the label plus the items,
/// or nothing when there are no setup items.
pub open spec fn setup_block_rows(t: Test) -> int {
    if t.setup@.len() > 0 {
        1 + t.setup@.len() as int
    } else {
        0
    }
}

/// Rows of the verify block of an expanded test.
pub open spec fn verify_block_rows(t: Test) -> int {
    if t.verify@.len() > 0 {
        1 + t.verify@.len() as int
    } else {
        0
    }
}

/// Rows of an expanded test's body: setup block, action row, verify block.
pub open spec fn body_rows(t: Test) -> int {
    setup_block_rows(t) + 1 + verify_block_rows(t)
}

/// Rows that one test contributes: its header, plus its body if expanded.
pub open spec fn test_rows(t: Test, expanded: bool) -> int {
    1 + if expanded {
        body_rows(t)
    } else {
        0
    }
}

/// The header row of test `i`: all rows contributed by the tests before it.
pub open spec fn rows_before(tests: Seq<Test>, expanded: Seq<String>, i: int) -> int
    decreases i,
{
    if i <= 0 {
        0
    } else {
        rows_before(tests, expanded, i - 1) + test_rows(
            tests[i - 1],
            id_in(expanded, tests[i - 1].id@),
        )
    }
}

/// An upper bound on header rows: the rows with every test expanded.
pub open spec fn max_rows_before(tests: Seq<Test>, i: int) -> int
    decreases i,
{
    if i <= 0 {
        0
    } else {
        max_rows_before(tests, i - 1) + test_rows(tests[i - 1], true)
    }
}

/// The total row count with every test expanded; machine bound for all row
/// arithmetic.
pub open spec fn max_total_rows(tests: Seq<Test>) -> int {
    max_rows_before(tests, tests.len() as int)
}

/// The row of a sub-position inside an expanded test's body, counted from
/// the test's header row.
pub open spec fn sub_offset(t: Test, sub: SubSelection) -> int {
    match sub {
        SubSelection::Header => 0,
        SubSelection::Setup(i) => 2 + i,
        SubSelection::Action => 1 + setup_block_rows(t),
        SubSelection::Verify(i) => 1 + setup_block_rows(t) + 2 + i,
    }
}

/// Whether a sub-position exists in the test it points into.
pub open spec fn valid_sub(sub: SubSelection, t: Test) -> bool {
    match sub {
        SubSelection::Header => true,
        SubSelection::Action => true,
        SubSelection::Setup(i) => i < t.setup@.len(),
        SubSelection::Verify(i) => i < t.verify@.len(),
    }
}

/// The absolute row of the active position: the selected test's header row,
/// plus the sub-position's offset when the test is expanded.
pub open spec fn row_of_selection(
    tests: Seq<Test>,
    expanded: Seq<String>,
    sel: int,
    sub: SubSelection,
) -> int {
    if tests.len() == 0 {
        0
    } else {
        rows_before(tests, expanded, sel) + if id_in(expanded, tests[sel].id@) {
            sub_offset(tests[sel], sub)
        } else {
            0
        }
    }
}

/// The test owning absolute row `y`, scanning from test `i` with `y`
/// already relative to that test's header row.
pub open spec fn map_y_from(tests: Seq<Test>, expanded: Seq<String>, y: int, i: int) -> Option<
    int,
>
    decreases tests.len() - i,
{
    if i < 0 || i >= tests.len() {
        None
    } else if y < test_rows(tests[i], id_in(expanded, tests[i].id@)) {
        Some(i)
    } else {
        map_y_from(tests, expanded, y - test_rows(tests[i], id_in(expanded, tests[i].id@)), i + 1)
    }
}

/// The test owning absolute row `y`: rows of an expanded body belong to
/// their test.
pub open spec fn map_y_spec(tests: Seq<Test>, expanded: Seq<String>, y: int) -> Option<int> {
    map_y_from(tests, expanded, y, 0)
}

/// Header rows never decrease as the index grows.
pub(crate) proof fn lemma_rows_before_mono(tests: Seq<Test>, expanded: Seq<String>, i: int, j: int)
    requires
        0 <= i <= j,
    ensures
        rows_before(tests, expanded, i) <= rows_before(tests, expanded, j),
    decreases j - i,
{
    if i < j {
        lemma_rows_before_mono(tests, expanded, i, j - 1);
    }
}

/// Header rows are bounded by the all-expanded row count.
pub(crate) proof fn lemma_rows_before_le_max(tests: Seq<Test>, expanded: Seq<String>, i: int)
    requires
        0 <= i,
    ensures
        rows_before(tests, expanded, i) <= max_rows_before(tests, i),
    decreases i,
{
    if i > 0 {
        lemma_rows_before_le_max(tests, expanded, i - 1);
    }
}

/// The all-expanded bound never decreases as the index grows.
pub(crate) proof fn lemma_max_rows_before_mono(tests: Seq<Test>, i: int, j: int)
    requires
        0 <= i <= j,
    ensures
        max_rows_before(tests, i) <= max_rows_before(tests, j),
    decreases j - i,
{
    if i < j {
        lemma_max_rows_before_mono(tests, i, j - 1);
    }
}

/// Every position of the active row lies below the all-expanded total.
pub(crate) proof fn lemma_row_of_selection_lt_total(
    tests: Seq<Test>,
    expanded: Seq<String>,
    sel: int,
    sub: SubSelection,
)
    requires
        tests.len() > 0,
        0 <= sel < tests.len(),
        valid_sub(sub, tests[sel]),
    ensures
        0 <= row_of_selection(tests, expanded, sel, sub) < max_total_rows(tests),
{
    lemma_rows_before_le_max(tests, expanded, sel);
    lemma_max_rows_before_mono(tests, sel + 1, tests.len() as int);
    assert(rows_before(tests, expanded, sel) >= 0) by {
        lemma_rows_before_mono(tests, expanded, 0, sel);
    }
    assert(sub_offset(tests[sel], sub) < test_rows(tests[sel], true));
    assert(max_rows_before(tests, sel + 1) == max_rows_before(tests, sel) + test_rows(
        tests[sel],
        true,
    ));
}

/// The header row of every test maps back to that test: composing the
/// row-number computation with the row-to-test mapping is the identity on
/// header rows.
pub proof fn lemma_header_row_maps_to_test(tests: Seq<Test>, expanded: Seq<String>, i: int)
    requires
        0 <= i < tests.len(),
    ensures
        map_y_spec(tests, expanded, rows_before(tests, expanded, i)) == Some(i),
{
    lemma_map_from_header(tests, expanded, i, 0);
}

/// Generalisation for the induction: scanning from test `j`, the header
/// row of test `i` (relative to test `j`'s header) maps to test `i`.
proof fn lemma_map_from_header(tests: Seq<Test>, expanded: Seq<String>, i: int, j: int)
    requires
        0 <= j <= i < tests.len(),
    ensures
        map_y_from(
            tests,
            expanded,
            rows_before(tests, expanded, i) - rows_before(tests, expanded, j),
            j,
        ) == Some(i),
    decreases i - j,
{
    if j == i {
    } else {
        lemma_rows_before_mono(tests, expanded, j + 1, i);
        lemma_map_from_header(tests, expanded, i, j + 1);
    }
}

} // verus!
