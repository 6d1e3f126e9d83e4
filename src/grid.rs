//! Lines of a three-by-three grid, stated over the grid's mathematical view:
//! a sequence of three rows, each a sequence of three cells, addressed by
//! (row, column).
use vstd::prelude::*;

verus! {

/// The view of a fixed three-by-three array: row `r` is `b[r]`.
pub open spec fn grid_of<T>(b: [[T; 3]; 3]) -> Seq<Seq<T>> {
    Seq::new(3, |r: int| b@[r]@)
}

/// The cell at `row`, `col`.
pub open spec fn at<T>(g: Seq<Seq<T>>, row: int, col: int) -> T {
    g[row][col]
}

/// Every cell of row `row` holds `s`.
pub open spec fn row_full<T>(g: Seq<Seq<T>>, s: T, row: int) -> bool {
    at(g, row, 0) == s && at(g, row, 1) == s && at(g, row, 2) == s
}

/// Every cell of column `col` holds `s`.
pub open spec fn column_full<T>(g: Seq<Seq<T>>, s: T, col: int) -> bool {
    at(g, 0, col) == s && at(g, 1, col) == s && at(g, 2, col) == s
}

/// Row `i` or column `i` is filled with `s`.
pub open spec fn row_or_column_full<T>(g: Seq<Seq<T>>, s: T, i: int) -> bool {
    row_full(g, s, i) || column_full(g, s, i)
}

/// The main diagonal (0,0)-(1,1)-(2,2) is filled with `s`.
pub open spec fn diagonal_full<T>(g: Seq<Seq<T>>, s: T) -> bool {
    at(g, 0, 0) == s && at(g, 1, 1) == s && at(g, 2, 2) == s
}

/// The anti-diagonal (2,0)-(1,1)-(0,2) is filled with `s`.
pub open spec fn anti_diagonal_full<T>(g: Seq<Seq<T>>, s: T) -> bool {
    at(g, 2, 0) == s && at(g, 1, 1) == s && at(g, 0, 2) == s
}

/// One of the eight lines (three rows, three columns, two diagonals) is
/// filled with `s`.
pub open spec fn three_in_a_line<T>(g: Seq<Seq<T>>, s: T) -> bool {
    ||| exists|i: int| 0 <= i < 3 && #[trigger] row_or_column_full(g, s, i)
    ||| diagonal_full(g, s)
    ||| anti_diagonal_full(g, s)
}

/// Every cell of the grid holds a mark.
pub open spec fn all_marked<T>(g: Seq<Seq<Option<T>>>) -> bool {
    forall|r: int, c: int| 0 <= r < 3 && 0 <= c < 3 ==> (#[trigger] at(g, r, c)) is Some
}

} // verus!
