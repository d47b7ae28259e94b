use vstd::prelude::*;
use vstd::arithmetic::div_mod::lemma_mod_add_multiples_vanish;
use crate::counting::{count_cells, lemma_h_phase_conserves, lemma_v_phase_conserves};
use crate::grid::{
    h_next, is_h_phase, is_shear, is_square, is_v_phase, lemma_wrap, pred, reseeded, sheared, succ, v_next,
    Cell,
};
use crate::model::{is_phase, is_reseed, is_random_reseed, parity_holds, tick_via};

verus! {

/// The column that the car at `(i, j)` occupies after the horizontal phase.
pub open spec fn h_dest(g: Seq<Seq<Cell>>, n: int, i: int, j: int) -> int {
    if g[i][succ(j, n)] == Cell::Empty { succ(j, n) } else { j }
}

/// The row that the car at `(i, j)` occupies after the vertical phase.
pub open spec fn v_dest(g: Seq<Seq<Cell>>, n: int, i: int, j: int) -> int {
    if g[succ(i, n)][j] == Cell::Empty { succ(i, n) } else { i }
}

/// A movement phase keeps the number of horizontal cars and the number of
/// vertical cars.
pub proof fn lemma_phase_conserves_cars(g: Seq<Seq<Cell>>, h: Seq<Seq<Cell>>, n: int, horizontal: bool)
    requires
        n > 0,
        is_square(g, n),
        is_phase(g, h, n, horizontal),
    ensures
        count_cells(h, n, Cell::Horizontal) == count_cells(g, n, Cell::Horizontal),
        count_cells(h, n, Cell::Vertical) == count_cells(g, n, Cell::Vertical),
{
    if horizontal {
        lemma_h_phase_conserves(g, h, n, Cell::Horizontal);
        lemma_h_phase_conserves(g, h, n, Cell::Vertical);
    } else {
        lemma_v_phase_conserves(g, h, n, Cell::Horizontal);
        lemma_v_phase_conserves(g, h, n, Cell::Vertical);
    }
}

/// In the horizontal phase each horizontal car ends at its own cell or one
/// step ahead in its row, and every horizontal car after the phase is one
/// that was there or one step behind; no two cars reach the same cell, a
/// car moves only into a cell that was empty when the phase began, and
/// vertical cars stay where they are.
pub proof fn lemma_h_phase_moves(g: Seq<Seq<Cell>>, h: Seq<Seq<Cell>>, n: int)
    requires
        n > 0,
        is_square(g, n),
        is_h_phase(g, h, n),
    ensures
        forall|i: int, j: int| 0 <= i < n && 0 <= j < n && g[i][j] == Cell::Horizontal ==> {
            &&& h[i][#[trigger] h_dest(g, n, i, j)] == Cell::Horizontal
            &&& h_dest(g, n, i, j) == j || h_dest(g, n, i, j) == succ(j, n)
            &&& h_dest(g, n, i, j) != j ==> g[i][h_dest(g, n, i, j)] == Cell::Empty
        },
        forall|i: int, j: int| 0 <= i < n && 0 <= j < n && #[trigger] h[i][j] == Cell::Horizontal ==>
            (g[i][j] == Cell::Horizontal && h_dest(g, n, i, j) == j)
            || (g[i][pred(j, n)] == Cell::Horizontal && h_dest(g, n, i, pred(j, n)) == j),
        forall|i: int, j1: int, j2: int|
            0 <= i < n && 0 <= j1 < n && 0 <= j2 < n && j1 != j2 && g[i][j1] == Cell::Horizontal
                && g[i][j2] == Cell::Horizontal ==> #[trigger] h_dest(g, n, i, j1) != #[trigger] h_dest(g, n, i, j2),
        forall|i: int, j: int| 0 <= i < n && 0 <= j < n ==> (#[trigger] h[i][j] == Cell::Vertical <==> g[i][j] == Cell::Vertical),
{
    assert forall|i: int, j: int| 0 <= i < n && 0 <= j < n && g[i][j] == Cell::Horizontal implies {
        &&& h[i][#[trigger] h_dest(g, n, i, j)] == Cell::Horizontal
        &&& h_dest(g, n, i, j) == j || h_dest(g, n, i, j) == succ(j, n)
        &&& h_dest(g, n, i, j) != j ==> g[i][h_dest(g, n, i, j)] == Cell::Empty
    } by {
        lemma_wrap(j, n);
        let k = succ(j, n);
        lemma_wrap(k, n);
        assert(h[i][j] == h_next(g, n, i, j));
        assert(h[i][k] == h_next(g, n, i, k));
    }
    assert forall|i: int, j: int| 0 <= i < n && 0 <= j < n && #[trigger] h[i][j] == Cell::Horizontal implies
        (g[i][j] == Cell::Horizontal && h_dest(g, n, i, j) == j)
        || (g[i][pred(j, n)] == Cell::Horizontal && h_dest(g, n, i, pred(j, n)) == j) by {
        lemma_wrap(j, n);
        lemma_wrap(pred(j, n), n);
        assert(h[i][j] == h_next(g, n, i, j));
    }
    assert forall|i: int, j1: int, j2: int|
        0 <= i < n && 0 <= j1 < n && 0 <= j2 < n && j1 != j2 && g[i][j1] == Cell::Horizontal
            && g[i][j2] == Cell::Horizontal implies #[trigger] h_dest(g, n, i, j1) != #[trigger] h_dest(g, n, i, j2) by {
        lemma_wrap(j1, n);
        lemma_wrap(j2, n);
    }
    assert forall|i: int, j: int| 0 <= i < n && 0 <= j < n implies (#[trigger] h[i][j] == Cell::Vertical <==> g[i][j] == Cell::Vertical) by {
        assert(h[i][j] == h_next(g, n, i, j));
    }
}

/// In the vertical phase each vertical car ends at its own cell or one step
/// down its column, and every vertical car after the phase is one that was
/// there or one step above; no two cars reach the same cell, a car moves
/// only into a cell that was empty when the phase began, and horizontal
/// cars stay where they are.
pub proof fn lemma_v_phase_moves(g: Seq<Seq<Cell>>, h: Seq<Seq<Cell>>, n: int)
    requires
        n > 0,
        is_square(g, n),
        is_v_phase(g, h, n),
    ensures
        forall|i: int, j: int| 0 <= i < n && 0 <= j < n && g[i][j] == Cell::Vertical ==> {
            &&& h[#[trigger] v_dest(g, n, i, j)][j] == Cell::Vertical
            &&& v_dest(g, n, i, j) == i || v_dest(g, n, i, j) == succ(i, n)
            &&& v_dest(g, n, i, j) != i ==> g[v_dest(g, n, i, j)][j] == Cell::Empty
        },
        forall|i: int, j: int| 0 <= i < n && 0 <= j < n && #[trigger] h[i][j] == Cell::Vertical ==>
            (g[i][j] == Cell::Vertical && v_dest(g, n, i, j) == i)
            || (g[pred(i, n)][j] == Cell::Vertical && v_dest(g, n, pred(i, n), j) == i),
        forall|i1: int, i2: int, j: int|
            0 <= i1 < n && 0 <= i2 < n && 0 <= j < n && i1 != i2 && g[i1][j] == Cell::Vertical
                && g[i2][j] == Cell::Vertical ==> #[trigger] v_dest(g, n, i1, j) != #[trigger] v_dest(g, n, i2, j),
        forall|i: int, j: int| 0 <= i < n && 0 <= j < n ==> (#[trigger] h[i][j] == Cell::Horizontal <==> g[i][j] == Cell::Horizontal),
{
    assert forall|i: int, j: int| 0 <= i < n && 0 <= j < n && g[i][j] == Cell::Vertical implies {
        &&& h[#[trigger] v_dest(g, n, i, j)][j] == Cell::Vertical
        &&& v_dest(g, n, i, j) == i || v_dest(g, n, i, j) == succ(i, n)
        &&& v_dest(g, n, i, j) != i ==> g[v_dest(g, n, i, j)][j] == Cell::Empty
    } by {
        lemma_wrap(i, n);
        let k = succ(i, n);
        lemma_wrap(k, n);
        assert(h[i][j] == v_next(g, n, i, j));
        assert(h[k][j] == v_next(g, n, k, j));
    }
    assert forall|i: int, j: int| 0 <= i < n && 0 <= j < n && #[trigger] h[i][j] == Cell::Vertical implies
        (g[i][j] == Cell::Vertical && v_dest(g, n, i, j) == i)
        || (g[pred(i, n)][j] == Cell::Vertical && v_dest(g, n, pred(i, n), j) == i) by {
        lemma_wrap(i, n);
        lemma_wrap(pred(i, n), n);
        assert(h[i][j] == v_next(g, n, i, j));
    }
    assert forall|i1: int, i2: int, j: int|
        0 <= i1 < n && 0 <= i2 < n && 0 <= j < n && i1 != i2 && g[i1][j] == Cell::Vertical
            && g[i2][j] == Cell::Vertical implies #[trigger] v_dest(g, n, i1, j) != #[trigger] v_dest(g, n, i2, j) by {
        lemma_wrap(i1, n);
        lemma_wrap(i2, n);
    }
    assert forall|i: int, j: int| 0 <= i < n && 0 <= j < n implies (#[trigger] h[i][j] == Cell::Horizontal <==> g[i][j] == Cell::Horizontal) by {
        assert(h[i][j] == v_next(g, n, i, j));
    }
}

/// A horizontal car in the last column moves to column 0 of its row when
/// that cell is empty; a vertical car in the last row moves to row 0 of its
/// column when that cell is empty.
pub proof fn lemma_wraparound(g: Seq<Seq<Cell>>, h: Seq<Seq<Cell>>, v: Seq<Seq<Cell>>, n: int)
    requires
        n > 0,
        is_square(g, n),
        is_h_phase(g, h, n),
        is_v_phase(g, v, n),
    ensures
        forall|i: int| 0 <= i < n && #[trigger] g[i][n - 1] == Cell::Horizontal && g[i][0] == Cell::Empty ==>
            h[i][0] == Cell::Horizontal && h[i][n - 1] == Cell::Empty,
        forall|j: int| 0 <= j < n && #[trigger] g[n - 1][j] == Cell::Vertical && g[0][j] == Cell::Empty ==>
            v[0][j] == Cell::Vertical && v[n - 1][j] == Cell::Empty,
{
    lemma_wrap(0, n);
    lemma_wrap(n - 1, n);
    assert forall|i: int| 0 <= i < n && #[trigger] g[i][n - 1] == Cell::Horizontal && g[i][0] == Cell::Empty implies
        h[i][0] == Cell::Horizontal && h[i][n - 1] == Cell::Empty by {
        assert(h[i][0] == h_next(g, n, i, 0));
        assert(h[i][n - 1] == h_next(g, n, i, n - 1));
    }
    assert forall|j: int| 0 <= j < n && #[trigger] g[n - 1][j] == Cell::Vertical && g[0][j] == Cell::Empty implies
        v[0][j] == Cell::Vertical && v[n - 1][j] == Cell::Empty by {
        assert(v[0][j] == v_next(g, n, 0, j));
        assert(v[n - 1][j] == v_next(g, n, n - 1, j));
    }
}

/// After a shear, cell `(i, j)` holds what cell `((i - 1) mod n, (j + 1) mod n)`
/// held before.
pub proof fn lemma_shear_moves_diagonally(g: Seq<Seq<Cell>>, h: Seq<Seq<Cell>>, n: int)
    requires
        n > 0,
        is_shear(g, h, n),
    ensures
        forall|i: int, j: int| 0 <= i < n && 0 <= j < n ==> #[trigger] h[i][j] == g[(i - 1) % n][(j + 1) % n],
{
    assert forall|i: int, j: int| 0 <= i < n && 0 <= j < n implies #[trigger] h[i][j] == g[(i - 1) % n][(j + 1) % n] by {
        lemma_mod_add_multiples_vanish(i - 1, n);
        assert(h[i][j] == sheared(g, n, i, j));
    }
}

/// Two ticks in a row without a shear or a reseed move one kind of car and
/// then the other: the horizontal phase then the vertical one, or the
/// vertical phase then the horizontal one.
pub proof fn lemma_phases_alternate(
    g0: Seq<Seq<Cell>>,
    a1: Seq<Seq<Cell>>,
    g1: Seq<Seq<Cell>>,
    a2: Seq<Seq<Cell>>,
    g2: Seq<Seq<Cell>>,
    n: int,
    horizontal: bool,
    s1: int,
    s2: int,
    d: int,
    sense: bool,
)
    requires
        tick_via(g0, a1, g1, g1, n, horizontal, false, s1, d, sense),
        tick_via(g1, a2, g2, g2, n, !horizontal, false, s2, d, sense),
    ensures
        horizontal ==> is_h_phase(g0, g1, n) && is_v_phase(g1, g2, n),
        !horizontal ==> is_v_phase(g0, g1, n) && is_h_phase(g1, g2, n),
{
}

/// On a grid of even side, every car stays on a row and column whose
/// oddness agrees with the parity sense through a whole tick: a phase moves
/// cars only along their own row or column, a shear moves each car to a row
/// and column of the other oddness while the sense flips with it, and a
/// reseed places cars only where the current sense allows.
pub proof fn lemma_tick_keeps_parity(
    g: Seq<Seq<Cell>>,
    g1: Seq<Seq<Cell>>,
    g2: Seq<Seq<Cell>>,
    h: Seq<Seq<Cell>>,
    n: int,
    horizontal: bool,
    rotates: bool,
    s: int,
    d: int,
    before: bool,
)
    requires
        n > 0,
        n % 2 == 0,
        is_square(g, n),
        parity_holds(g, n, before),
        tick_via(g, g1, g2, h, n, horizontal, rotates, s, d, if rotates { !before } else { before }),
    ensures
        parity_holds(h, n, if rotates { !before } else { before }),
{
    let after = if rotates { !before } else { before };
    if horizontal {
        lemma_h_phase_moves(g, g1, n);
        assert forall|i: int, j: int| 0 <= i < n && 0 <= j < n implies {
            &&& #[trigger] g1[i][j] == Cell::Horizontal ==> (i % 2 == 1) == before
            &&& g1[i][j] == Cell::Vertical ==> (j % 2 == 1) == before
        } by {
            lemma_wrap(j, n);
            if g1[i][j] == Cell::Horizontal {
                assert(g[i][j] == Cell::Horizontal || g[i][pred(j, n)] == Cell::Horizontal);
            }
        }
    } else {
        lemma_v_phase_moves(g, g1, n);
        assert forall|i: int, j: int| 0 <= i < n && 0 <= j < n implies {
            &&& #[trigger] g1[i][j] == Cell::Horizontal ==> (i % 2 == 1) == before
            &&& g1[i][j] == Cell::Vertical ==> (j % 2 == 1) == before
        } by {
            lemma_wrap(i, n);
            if g1[i][j] == Cell::Vertical {
                assert(g[i][j] == Cell::Vertical || g[pred(i, n)][j] == Cell::Vertical);
            }
        }
    }
    assert(parity_holds(g1, n, before));
    if rotates {
        assert forall|i: int, j: int| 0 <= i < n && 0 <= j < n implies {
            &&& #[trigger] g2[i][j] == Cell::Horizontal ==> (i % 2 == 1) == after
            &&& g2[i][j] == Cell::Vertical ==> (j % 2 == 1) == after
        } by {
            lemma_wrap(i, n);
            lemma_wrap(j, n);
            assert(g2[i][j] == sheared(g1, n, i, j));
            assert(g1[pred(i, n)][succ(j, n)] == Cell::Horizontal ==> (pred(i, n) % 2 == 1) == before);
        }
    }
    assert(parity_holds(g2, n, after));
    if h != g2 {
        assert(is_random_reseed(g2, h, n, s, d, after));
        let picks = choose|picks: Seq<Option<u32>>| #[trigger] is_reseed(g2, h, n, s, d, after, picks) && forall|k: int|
            0 <= k < s ==> match #[trigger] picks[k] {
                Some(r) => r < crate::model::DENSITY_SCALE,
                None => true,
            };
        assert forall|i: int, j: int| 0 <= i < n && 0 <= j < n implies {
            &&& #[trigger] h[i][j] == Cell::Horizontal ==> (i % 2 == 1) == after
            &&& h[i][j] == Cell::Vertical ==> (j % 2 == 1) == after
        } by {
            assert(h[i][j] == reseeded(g2, n, s, d, after, picks, i, j));
        }
    }
}

} // verus!
