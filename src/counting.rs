use vstd::prelude::*;
use crate::grid::{is_h_phase, is_square, is_v_phase, lemma_wrap, moved, pred, succ, Cell};

verus! {

/// `f(0) + ... + f(k - 1)`.
pub open spec fn sum(f: spec_fn(int) -> nat, k: int) -> nat
    decreases k,
{
    if k <= 0 {
        0
    } else {
        sum(f, k - 1) + f(k - 1)
    }
}

/// 1 for true, 0 for false.
pub open spec fn ind(b: bool) -> nat {
    if b { 1 } else { 0 }
}

/// Along row `i` of `g`: 1 where a cell holds `c`, else 0.
pub open spec fn row_fn(g: Seq<Seq<Cell>>, i: int, c: Cell) -> spec_fn(int) -> nat {
    |j: int| ind(g[i][j] == c)
}

/// Down column `j` of `g`: 1 where a cell holds `c`, else 0.
pub open spec fn col_fn(g: Seq<Seq<Cell>>, j: int, c: Cell) -> spec_fn(int) -> nat {
    |i: int| ind(g[i][j] == c)
}

/// The number of cells of row `i` of `g` that hold `c`.
pub open spec fn row_count(g: Seq<Seq<Cell>>, n: int, i: int, c: Cell) -> nat {
    sum(row_fn(g, i, c), n)
}

/// The number of cells of column `j` of `g` that hold `c`.
pub open spec fn col_count(g: Seq<Seq<Cell>>, n: int, j: int, c: Cell) -> nat {
    sum(col_fn(g, j, c), n)
}

/// Row by row, the number of cells in row `i` of `g` that hold `c`.
pub open spec fn rows_fn(g: Seq<Seq<Cell>>, n: int, c: Cell) -> spec_fn(int) -> nat {
    |i: int| row_count(g, n, i, c)
}

/// Column by column, the number of cells in column `j` of `g` that hold `c`.
pub open spec fn cols_fn(g: Seq<Seq<Cell>>, n: int, c: Cell) -> spec_fn(int) -> nat {
    |j: int| col_count(g, n, j, c)
}

/// The number of cells of `g` that hold `c`, row by row.
pub open spec fn count_cells(g: Seq<Seq<Cell>>, n: int, c: Cell) -> nat {
    sum(rows_fn(g, n, c), n)
}

proof fn lemma_sum_ext(f: spec_fn(int) -> nat, g: spec_fn(int) -> nat, k: int)
    requires
        forall|j: int| 0 <= j < k ==> #[trigger] f(j) == g(j),
    ensures
        sum(f, k) == sum(g, k),
    decreases k,
{
    if k > 0 {
        lemma_sum_ext(f, g, k - 1);
    }
}

proof fn lemma_sum_add(f: spec_fn(int) -> nat, g: spec_fn(int) -> nat, h: spec_fn(int) -> nat, k: int)
    requires
        forall|j: int| 0 <= j < k ==> #[trigger] h(j) == f(j) + g(j),
    ensures
        sum(h, k) == sum(f, k) + sum(g, k),
    decreases k,
{
    if k > 0 {
        lemma_sum_add(f, g, h, k - 1);
    }
}

proof fn lemma_sum_rotate_prefix(f: spec_fn(int) -> nat, n: int, k: int)
    requires
        0 < k <= n,
    ensures
        sum(|j: int| f(pred(j, n)), k) == f(n - 1) + sum(f, k - 1),
    decreases k,
{
    let q = |j: int| f(pred(j, n));
    if k == 1 {
        lemma_wrap(0, n);
        assert(sum(q, 0) == 0);
    } else {
        lemma_sum_rotate_prefix(f, n, k - 1);
        lemma_wrap(k - 1, n);
    }
}

/// Summing over a line read from one step behind, with wraparound, gives
/// the same total.
proof fn lemma_sum_rotate(f: spec_fn(int) -> nat, n: int)
    requires
        n > 0,
    ensures
        sum(|j: int| f(pred(j, n)), n) == sum(f, n),
{
    lemma_sum_rotate_prefix(f, n, n);
}

proof fn lemma_sum_zero(k: int)
    ensures
        sum(|j: int| 0nat, k) == 0,
    decreases k,
{
    if k > 0 {
        lemma_sum_zero(k - 1);
    }
}

/// A double sum may be taken in either order.
proof fn lemma_sum_swap(f: spec_fn(int, int) -> nat, m: int, n: int)
    requires
        m >= 0,
    ensures
        sum(|i: int| sum(|j: int| f(i, j), n), m) == sum(|j: int| sum(|i: int| f(i, j), m), n),
    decreases m,
{
    if m == 0 {
        lemma_sum_ext(|j: int| sum(|i: int| f(i, j), 0), |j: int| 0nat, n);
        lemma_sum_zero(n);
    } else {
        lemma_sum_swap(f, m - 1, n);
        lemma_sum_add(
            |j: int| sum(|i: int| f(i, j), m - 1),
            |j: int| f(m - 1, j),
            |j: int| sum(|i: int| f(i, j), m),
            n,
        );
    }
}

/// Along one line of length `n`, the movement rule for cars of kind `m`
/// keeps the number of cells that hold any car kind `c`.
proof fn lemma_line_conserves(o: spec_fn(int) -> Cell, nw: spec_fn(int) -> Cell, n: int, m: Cell, c: Cell)
    requires
        n > 0,
        m != Cell::Empty,
        c != Cell::Empty,
        forall|j: int| 0 <= j < n ==> #[trigger] nw(j) == moved(o(j), o(succ(j, n)), o(pred(j, n)), m),
    ensures
        sum(|j: int| ind(nw(j) == c), n) == sum(|j: int| ind(o(j) == c), n),
{
    if c == m {
        let a = |j: int| ind(o(j) == m && o(succ(j, n)) != Cell::Empty);
        let b = |j: int| ind(o(j) == Cell::Empty && o(pred(j, n)) == m);
        let cc = |j: int| ind(o(j) == m && o(succ(j, n)) == Cell::Empty);
        assert forall|j: int| 0 <= j < n implies ind(#[trigger] nw(j) == c) == a(j) + b(j) by {
            assert(nw(j) == moved(o(j), o(succ(j, n)), o(pred(j, n)), m));
        }
        lemma_sum_add(a, b, |j: int| ind(nw(j) == c), n);
        lemma_sum_add(a, cc, |j: int| ind(o(j) == c), n);
        assert forall|j: int| 0 <= j < n implies #[trigger] b(j) == cc(pred(j, n)) by {
            lemma_wrap(j, n);
            lemma_wrap(pred(j, n), n);
        }
        lemma_sum_ext(b, |j: int| cc(pred(j, n)), n);
        lemma_sum_rotate(cc, n);
    } else {
        assert forall|j: int| 0 <= j < n implies ind(#[trigger] nw(j) == c) == ind(o(j) == c) by {
            assert(nw(j) == moved(o(j), o(succ(j, n)), o(pred(j, n)), m));
        }
        lemma_sum_ext(|j: int| ind(nw(j) == c), |j: int| ind(o(j) == c), n);
    }
}

/// The horizontal phase neither creates nor destroys cars: the number of
/// horizontal cars, and of vertical cars, is the same before and after.
pub proof fn lemma_h_phase_conserves(g: Seq<Seq<Cell>>, h: Seq<Seq<Cell>>, n: int, c: Cell)
    requires
        n > 0,
        is_square(g, n),
        is_h_phase(g, h, n),
        c != Cell::Empty,
    ensures
        count_cells(h, n, c) == count_cells(g, n, c),
{
    assert forall|i: int| 0 <= i < n implies #[trigger] row_count(h, n, i, c) == row_count(g, n, i, c) by {
        let o = |j: int| g[i][j];
        let nw = |j: int| h[i][j];
        assert forall|j: int| 0 <= j < n implies #[trigger] nw(j) == moved(o(j), o(succ(j, n)), o(pred(j, n)), Cell::Horizontal) by {
            assert(h[i][j] == crate::grid::h_next(g, n, i, j));
        }
        lemma_line_conserves(o, nw, n, Cell::Horizontal, c);
        lemma_sum_ext(|j: int| ind(nw(j) == c), row_fn(h, i, c), n);
        lemma_sum_ext(|j: int| ind(o(j) == c), row_fn(g, i, c), n);
    }
    lemma_sum_ext(rows_fn(h, n, c), rows_fn(g, n, c), n);
}

/// The number of cells that hold `c`, taken column by column, is the same
/// as taken row by row.
proof fn lemma_count_by_columns(g: Seq<Seq<Cell>>, n: int, c: Cell)
    requires
        n >= 0,
    ensures
        count_cells(g, n, c) == sum(cols_fn(g, n, c), n),
{
    let f = |i: int, j: int| ind(g[i][j] == c);
    lemma_sum_swap(f, n, n);
    let by_rows = |i: int| sum(|j: int| f(i, j), n);
    let by_cols = |j: int| sum(|i: int| f(i, j), n);
    assert forall|i: int| 0 <= i < n implies #[trigger] by_rows(i) == rows_fn(g, n, c)(i) by {
        lemma_sum_ext(|j: int| f(i, j), row_fn(g, i, c), n);
    }
    assert forall|j: int| 0 <= j < n implies #[trigger] by_cols(j) == cols_fn(g, n, c)(j) by {
        lemma_sum_ext(|i: int| f(i, j), col_fn(g, j, c), n);
    }
    lemma_sum_ext(by_rows, rows_fn(g, n, c), n);
    lemma_sum_ext(by_cols, cols_fn(g, n, c), n);
}

/// The vertical phase neither creates nor destroys cars: the number of
/// horizontal cars, and of vertical cars, is the same before and after.
pub proof fn lemma_v_phase_conserves(g: Seq<Seq<Cell>>, h: Seq<Seq<Cell>>, n: int, c: Cell)
    requires
        n > 0,
        is_square(g, n),
        is_v_phase(g, h, n),
        c != Cell::Empty,
    ensures
        count_cells(h, n, c) == count_cells(g, n, c),
{
    assert forall|j: int| 0 <= j < n implies #[trigger] col_count(h, n, j, c) == col_count(g, n, j, c) by {
        let o = |i: int| g[i][j];
        let nw = |i: int| h[i][j];
        assert forall|i: int| 0 <= i < n implies #[trigger] nw(i) == moved(o(i), o(succ(i, n)), o(pred(i, n)), Cell::Vertical) by {
            assert(h[i][j] == crate::grid::v_next(g, n, i, j));
        }
        lemma_line_conserves(o, nw, n, Cell::Vertical, c);
        lemma_sum_ext(|i: int| ind(nw(i) == c), col_fn(h, j, c), n);
        lemma_sum_ext(|i: int| ind(o(i) == c), col_fn(g, j, c), n);
    }
    lemma_sum_ext(cols_fn(h, n, c), cols_fn(g, n, c), n);
    lemma_count_by_columns(g, n, c);
    lemma_count_by_columns(h, n, c);
}

} // verus!
