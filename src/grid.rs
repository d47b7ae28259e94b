use vstd::prelude::*;
use vstd::arithmetic::div_mod::{lemma_mod_add_multiples_vanish, lemma_mod_self_0, lemma_small_mod};

verus! {

/// What occupies one cell of the torus.
#[derive(Clone, Copy, Debug, PartialEq, Eq, Structural)]
pub enum Cell {
    Empty,
    Horizontal,
    Vertical,
}

/// A square toroidal grid of side `n`, stored row by row.
pub struct Grid {
    n: usize,
    rows: Vec<Vec<Cell>>,
}

/// The next index along a line of length `n`, wrapping to 0.
pub open spec fn succ(j: int, n: int) -> int {
    (j + 1) % n
}

/// The previous index along a line of length `n`, wrapping to `n - 1`.
pub open spec fn pred(j: int, n: int) -> int {
    (j + n - 1) % n
}

/// A square of side `n` whose rows all have length `n`.
pub open spec fn is_square(g: Seq<Seq<Cell>>, n: int) -> bool {
    &&& g.len() == n
    &&& forall|i: int| 0 <= i < n ==> #[trigger] g[i].len() == n
}

/// The movement rule for one cell: `here` with its neighbour `ahead` in the
/// direction of travel and `behind` against it, when cars of kind `mover`
/// advance. A car leaves when the cell ahead was empty; an empty cell
/// receives the car behind it.
pub open spec fn moved(here: Cell, ahead: Cell, behind: Cell, mover: Cell) -> Cell {
    if here == mover && ahead == Cell::Empty {
        Cell::Empty
    } else if here == Cell::Empty && behind == mover {
        mover
    } else {
        here
    }
}

/// Cell `(i, j)` after the horizontal phase applied to `g`.
pub open spec fn h_next(g: Seq<Seq<Cell>>, n: int, i: int, j: int) -> Cell {
    moved(g[i][j], g[i][succ(j, n)], g[i][pred(j, n)], Cell::Horizontal)
}

/// Cell `(i, j)` after the vertical phase applied to `g`.
pub open spec fn v_next(g: Seq<Seq<Cell>>, n: int, i: int, j: int) -> Cell {
    moved(g[i][j], g[succ(i, n)][j], g[pred(i, n)][j], Cell::Vertical)
}

/// Cell `(i, j)` after one diagonal shear of `g`.
pub open spec fn sheared(g: Seq<Seq<Cell>>, n: int, i: int, j: int) -> Cell {
    g[pred(i, n)][succ(j, n)]
}

/// `h` is the horizontal phase of `g`.
pub open spec fn is_h_phase(g: Seq<Seq<Cell>>, h: Seq<Seq<Cell>>, n: int) -> bool {
    &&& is_square(h, n)
    &&& forall|i: int, j: int| 0 <= i < n && 0 <= j < n ==> #[trigger] h[i][j] == h_next(g, n, i, j)
}

/// `h` is the vertical phase of `g`.
pub open spec fn is_v_phase(g: Seq<Seq<Cell>>, h: Seq<Seq<Cell>>, n: int) -> bool {
    &&& is_square(h, n)
    &&& forall|i: int, j: int| 0 <= i < n && 0 <= j < n ==> #[trigger] h[i][j] == v_next(g, n, i, j)
}

/// `h` is the diagonal shear of `g`.
pub open spec fn is_shear(g: Seq<Seq<Cell>>, h: Seq<Seq<Cell>>, n: int) -> bool {
    &&& is_square(h, n)
    &&& forall|i: int, j: int| 0 <= i < n && 0 <= j < n ==> #[trigger] h[i][j] == sheared(g, n, i, j)
}

/// The occupant drawn for cell `(i, j)` from the draw `r` at density `d`:
/// a draw below `d` asks for a horizontal car, one below `2 * d` for a
/// vertical car. A horizontal car is kept only on a row whose oddness
/// matches `sense`, a vertical car only on such a column; everything else is
/// empty.
pub open spec fn seeded_cell(r: int, d: int, i: int, j: int, sense: bool) -> Cell {
    if r < d {
        if (i % 2 == 1) == sense { Cell::Horizontal } else { Cell::Empty }
    } else if r < 2 * d {
        if (j % 2 == 1) == sense { Cell::Vertical } else { Cell::Empty }
    } else {
        Cell::Empty
    }
}

/// Cell `(i, j)` after reseeding the corner diagonal of extent `s`, the cells
/// `(n - 1 - k, s - 1 - k)` for `k < s`, which run from `(n - 1, s - 1)` up
/// and to the left to `(n - s, 0)`. Offset `k` is reseeded only where
/// `picks[k]` holds a draw and the cell was empty.
pub open spec fn reseeded(
    g: Seq<Seq<Cell>>,
    n: int,
    s: int,
    d: int,
    sense: bool,
    picks: Seq<Option<u32>>,
    i: int,
    j: int,
) -> Cell {
    let k = n - 1 - i;
    if 0 <= k < s && j == s - 1 - k && g[i][j] == Cell::Empty {
        match picks[k] {
            Some(r) => seeded_cell(r as int, d, i, j, sense),
            None => g[i][j],
        }
    } else {
        g[i][j]
    }
}

pub proof fn lemma_wrap(j: int, n: int)
    requires
        0 <= j < n,
    ensures
        succ(j, n) == if j + 1 == n { 0 } else { j + 1 },
        pred(j, n) == if j == 0 { n - 1 } else { j - 1 },
        0 <= succ(j, n) < n,
        0 <= pred(j, n) < n,
{
    if j + 1 == n {
        lemma_mod_self_0(n);
    } else {
        lemma_small_mod((j + 1) as nat, n as nat);
    }
    if j == 0 {
        lemma_small_mod((n - 1) as nat, n as nat);
    } else {
        lemma_mod_add_multiples_vanish(j - 1, n);
        lemma_small_mod((j - 1) as nat, n as nat);
    }
}

fn next_index(j: usize, n: usize) -> (r: usize)
    requires
        j < n,
    ensures
        r == succ(j as int, n as int),
{
    proof {
        lemma_wrap(j as int, n as int);
    }
    if j + 1 == n {
        0
    } else {
        j + 1
    }
}

fn prev_index(j: usize, n: usize) -> (r: usize)
    requires
        j < n,
    ensures
        r == pred(j as int, n as int),
{
    proof {
        lemma_wrap(j as int, n as int);
    }
    if j == 0 {
        n - 1
    } else {
        j - 1
    }
}

fn move_rule(here: Cell, ahead: Cell, behind: Cell, mover: Cell) -> (r: Cell)
    ensures
        r == moved(here, ahead, behind, mover),
{
    if here == mover && ahead == Cell::Empty {
        Cell::Empty
    } else if here == Cell::Empty && behind == mover {
        mover
    } else {
        here
    }
}

/// The occupant drawn for cell `(i, j)`; see `seeded_cell`.
pub fn seed_cell(r: u32, density: u32, i: usize, j: usize, sense: bool) -> (c: Cell)
    ensures
        c == seeded_cell(r as int, density as int, i as int, j as int, sense),
{
    if (r as u64) < (density as u64) {
        if (i % 2 == 1) == sense {
            Cell::Horizontal
        } else {
            Cell::Empty
        }
    } else if (r as u64) < 2 * (density as u64) {
        if (j % 2 == 1) == sense {
            Cell::Vertical
        } else {
            Cell::Empty
        }
    } else {
        Cell::Empty
    }
}

impl Grid {
    /// The cells, row by row.
    pub closed spec fn cells(&self) -> Seq<Seq<Cell>> {
        self.rows@.map_values(|r: Vec<Cell>| r@)
    }

    /// The side length.
    pub closed spec fn side(&self) -> int {
        self.n as int
    }

    /// A grid is well formed when it is a square of even, positive side.
    pub open spec fn wf(&self) -> bool {
        &&& self.side() > 0
        &&& self.side() % 2 == 0
        &&& is_square(self.cells(), self.side())
    }

    /// An all-empty grid of side `n`.
    pub fn empty(n: usize) -> (g: Grid)
        requires
            n > 0,
            n % 2 == 0,
        ensures
            g.wf(),
            g.side() == n,
            forall|i: int, j: int| 0 <= i < n && 0 <= j < n ==> #[trigger] g.cells()[i][j] == Cell::Empty,
    {
        let mut rows: Vec<Vec<Cell>> = Vec::new();
        let mut i: usize = 0;
        while i < n
            invariant
                i <= n,
                rows@.len() == i,
                forall|k: int| 0 <= k < i ==> #[trigger] rows@[k]@.len() == n,
                forall|k: int, j: int| 0 <= k < i && 0 <= j < n ==> #[trigger] rows@[k]@[j] == Cell::Empty,
            decreases n - i,
        {
            let mut row: Vec<Cell> = Vec::new();
            let mut j: usize = 0;
            while j < n
                invariant
                    j <= n,
                    row@.len() == j,
                    forall|k: int| 0 <= k < j ==> #[trigger] row@[k] == Cell::Empty,
                decreases n - j,
            {
                row.push(Cell::Empty);
                j = j + 1;
            }
            rows.push(row);
            i = i + 1;
        }
        let g = Grid { n, rows };
        assert(is_square(g.cells(), n as int));
        g
    }

    /// The side length.
    pub fn size(&self) -> (r: usize)
        ensures
            r == self.side(),
    {
        self.n
    }

    /// What occupies cell `(i, j)`.
    pub fn get(&self, i: usize, j: usize) -> (c: Cell)
        requires
            self.wf(),
            i < self.side(),
            j < self.side(),
        ensures
            c == self.cells()[i as int][j as int],
    {
        self.rows[i][j]
    }

    /// Puts `c` at cell `(i, j)`, leaving every other cell as it was.
    pub fn set(&mut self, i: usize, j: usize, c: Cell)
        requires
            old(self).wf(),
            i < old(self).side(),
            j < old(self).side(),
        ensures
            final(self).wf(),
            final(self).side() == old(self).side(),
            final(self).cells() == old(self).cells().update(i as int, old(self).cells()[i as int].update(j as int, c)),
    {
        assert(self.rows@[i as int]@ == self.cells()[i as int]);
        let mut row = self.rows[i].clone();
        assert(row@ =~= self.rows@[i as int]@);
        row.set(j, c);
        self.rows.set(i, row);
        assert(self.cells() =~= old(self).cells().update(i as int, old(self).cells()[i as int].update(j as int, c)));
    }

    /// The horizontal phase: every horizontal car whose cell ahead in its row
    /// (wrapping to column 0) was empty at the start of the phase moves one
    /// step; every other cell keeps its occupant.
    pub fn horizontal_phase(&self) -> (h: Grid)
        requires
            self.wf(),
        ensures
            h.wf(),
            h.side() == self.side(),
            is_h_phase(self.cells(), h.cells(), self.side()),
    {
        let n = self.n;
        let ghost g = self.cells();
        let mut rows: Vec<Vec<Cell>> = Vec::new();
        let mut i: usize = 0;
        while i < n
            invariant
                self.wf(),
                n == self.side(),
                g == self.cells(),
                i <= n,
                rows@.len() == i,
                forall|k: int| 0 <= k < i ==> #[trigger] rows@[k]@.len() == n,
                forall|k: int, j: int| 0 <= k < i && 0 <= j < n ==> #[trigger] rows@[k]@[j] == h_next(g, n as int, k, j),
            decreases n - i,
        {
            let src = &self.rows[i];
            let mut row: Vec<Cell> = Vec::new();
            let mut j: usize = 0;
            while j < n
                invariant
                    self.wf(),
                    n == self.side(),
                    g == self.cells(),
                    i < n,
                    src@ == g[i as int],
                    j <= n,
                    row@.len() == j,
                    forall|k: int| 0 <= k < j ==> #[trigger] row@[k] == h_next(g, n as int, i as int, k),
                decreases n - j,
            {
                let c = move_rule(src[j], src[next_index(j, n)], src[prev_index(j, n)], Cell::Horizontal);
                row.push(c);
                j = j + 1;
            }
            rows.push(row);
            i = i + 1;
        }
        let h = Grid { n, rows };
        assert(is_square(h.cells(), n as int));
        h
    }

    /// The vertical phase: every vertical car whose cell below in its column
    /// (wrapping to row 0) was empty at the start of the phase moves one
    /// step; every other cell keeps its occupant.
    pub fn vertical_phase(&self) -> (h: Grid)
        requires
            self.wf(),
        ensures
            h.wf(),
            h.side() == self.side(),
            is_v_phase(self.cells(), h.cells(), self.side()),
    {
        let n = self.n;
        let ghost g = self.cells();
        let mut rows: Vec<Vec<Cell>> = Vec::new();
        let mut i: usize = 0;
        while i < n
            invariant
                self.wf(),
                n == self.side(),
                g == self.cells(),
                i <= n,
                rows@.len() == i,
                forall|k: int| 0 <= k < i ==> #[trigger] rows@[k]@.len() == n,
                forall|k: int, j: int| 0 <= k < i && 0 <= j < n ==> #[trigger] rows@[k]@[j] == v_next(g, n as int, k, j),
            decreases n - i,
        {
            let below = next_index(i, n);
            let above = prev_index(i, n);
            proof {
                lemma_wrap(i as int, n as int);
            }
            let src = &self.rows[i];
            let ahead = &self.rows[below];
            let behind = &self.rows[above];
            let mut row: Vec<Cell> = Vec::new();
            let mut j: usize = 0;
            while j < n
                invariant
                    self.wf(),
                    n == self.side(),
                    g == self.cells(),
                    i < n,
                    below == succ(i as int, n as int),
                    above == pred(i as int, n as int),
                    src@ == g[i as int],
                    ahead@ == g[below as int],
                    behind@ == g[above as int],
                    j <= n,
                    row@.len() == j,
                    forall|k: int| 0 <= k < j ==> #[trigger] row@[k] == v_next(g, n as int, i as int, k),
                decreases n - j,
            {
                let c = move_rule(src[j], ahead[j], behind[j], Cell::Vertical);
                row.push(c);
                j = j + 1;
            }
            rows.push(row);
            i = i + 1;
        }
        let h = Grid { n, rows };
        assert(is_square(h.cells(), n as int));
        h
    }

    /// The diagonal shear: cell `(i, j)` of the result holds what cell
    /// `(i - 1, j + 1)` held, both indices taken modulo the side.
    pub fn sheared(&self) -> (h: Grid)
        requires
            self.wf(),
        ensures
            h.wf(),
            h.side() == self.side(),
            is_shear(self.cells(), h.cells(), self.side()),
    {
        let n = self.n;
        let ghost g = self.cells();
        let mut rows: Vec<Vec<Cell>> = Vec::new();
        let mut i: usize = 0;
        while i < n
            invariant
                self.wf(),
                n == self.side(),
                g == self.cells(),
                i <= n,
                rows@.len() == i,
                forall|k: int| 0 <= k < i ==> #[trigger] rows@[k]@.len() == n,
                forall|k: int, j: int| 0 <= k < i && 0 <= j < n ==> #[trigger] rows@[k]@[j] == sheared(g, n as int, k, j),
            decreases n - i,
        {
            let above = prev_index(i, n);
            proof {
                lemma_wrap(i as int, n as int);
            }
            let src = &self.rows[above];
            let mut row: Vec<Cell> = Vec::new();
            let mut j: usize = 0;
            while j < n
                invariant
                    self.wf(),
                    n == self.side(),
                    g == self.cells(),
                    i < n,
                    above == pred(i as int, n as int),
                    src@ == g[above as int],
                    j <= n,
                    row@.len() == j,
                    forall|k: int| 0 <= k < j ==> #[trigger] row@[k] == sheared(g, n as int, i as int, k),
                decreases n - j,
            {
                row.push(src[next_index(j, n)]);
                j = j + 1;
            }
            rows.push(row);
            i = i + 1;
        }
        let h = Grid { n, rows };
        assert(is_square(h.cells(), n as int));
        h
    }

    /// The grid of side `n` seeded from one draw per cell, `draws[i][j]` for
    /// cell `(i, j)`, with the parity of the unrotated lattice.
    pub fn seeded(n: usize, density: u32, draws: &Vec<Vec<u32>>) -> (g: Grid)
        requires
            n > 0,
            n % 2 == 0,
            draws@.len() == n,
            forall|i: int| 0 <= i < n ==> #[trigger] draws@[i]@.len() == n,
        ensures
            g.wf(),
            g.side() == n,
            forall|i: int, j: int| 0 <= i < n && 0 <= j < n ==> #[trigger] g.cells()[i][j]
                == seeded_cell(draws@[i]@[j] as int, density as int, i, j, true),
    {
        let mut rows: Vec<Vec<Cell>> = Vec::new();
        let mut i: usize = 0;
        while i < n
            invariant
                i <= n,
                draws@.len() == n,
                forall|k: int| 0 <= k < n ==> #[trigger] draws@[k]@.len() == n,
                rows@.len() == i,
                forall|k: int| 0 <= k < i ==> #[trigger] rows@[k]@.len() == n,
                forall|k: int, j: int| 0 <= k < i && 0 <= j < n ==> #[trigger] rows@[k]@[j]
                    == seeded_cell(draws@[k]@[j] as int, density as int, k, j, true),
            decreases n - i,
        {
            let src = &draws[i];
            let mut row: Vec<Cell> = Vec::new();
            let mut j: usize = 0;
            while j < n
                invariant
                    i < n,
                    src@ == draws@[i as int]@,
                    src@.len() == n,
                    j <= n,
                    row@.len() == j,
                    forall|k: int| 0 <= k < j ==> #[trigger] row@[k]
                        == seeded_cell(src@[k] as int, density as int, i as int, k, true),
                decreases n - j,
            {
                row.push(seed_cell(src[j], density, i, j, true));
                j = j + 1;
            }
            rows.push(row);
            i = i + 1;
        }
        let g = Grid { n, rows };
        assert(is_square(g.cells(), n as int));
        g
    }

    /// Reseeds the corner diagonal of extent `extent`: for each offset `k`
    /// with a draw in `picks[k]`, the empty cell `(n - 1 - k, extent - 1 - k)`
    /// takes the occupant drawn for it under parity `sense`. Occupied cells
    /// are never touched, so no car is removed.
    pub fn reseed(&mut self, extent: usize, density: u32, sense: bool, picks: &Vec<Option<u32>>)
        requires
            old(self).wf(),
            extent <= old(self).side(),
            picks@.len() == extent,
        ensures
            final(self).wf(),
            final(self).side() == old(self).side(),
            forall|i: int, j: int| 0 <= i < old(self).side() && 0 <= j < old(self).side() ==>
                #[trigger] final(self).cells()[i][j]
                == reseeded(old(self).cells(), old(self).side(), extent as int, density as int, sense, picks@, i, j),
            forall|i: int, j: int| 0 <= i < old(self).side() && 0 <= j < old(self).side()
                && old(self).cells()[i][j] != Cell::Empty ==> #[trigger] final(self).cells()[i][j] == old(self).cells()[i][j],
    {
        let n = self.n;
        let ghost g = self.cells();
        let mut k: usize = 0;
        while k < extent
            invariant
                self.wf(),
                self.side() == n,
                extent <= n,
                picks@.len() == extent,
                k <= extent,
                forall|i: int, j: int| 0 <= i < n && 0 <= j < n ==> #[trigger] self.cells()[i][j]
                    == if n - 1 - i < k {
                        reseeded(g, n as int, extent as int, density as int, sense, picks@, i, j)
                    } else {
                        g[i][j]
                    },
            decreases extent - k,
        {
            let row = n - 1 - k;
            let col = extent - 1 - k;
            match picks[k] {
                Some(r) => {
                    if self.get(row, col) == Cell::Empty {
                        let c = seed_cell(r, density, row, col, sense);
                        self.set(row, col, c);
                    }
                },
                None => {},
            }
            k = k + 1;
        }
    }
}

} // verus!
