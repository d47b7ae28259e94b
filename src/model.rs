use vstd::prelude::*;
use rand::rngs::StdRng;
use crate::grid::{is_h_phase, is_shear, is_square, is_v_phase, reseeded, seeded_cell, Cell, Grid};
use crate::random::{draw_below, rng_from_seed};
use crate::tide::{extent_at, reseed_due, reseed_extent, reseed_range};

verus! {

/// Seeding draws are uniform over `0..DENSITY_SCALE`; a density `d` of this
/// scale stands for the fraction `d / DENSITY_SCALE`.
pub const DENSITY_SCALE: u32 = 1_000_000;

/// Out of this many, the chance that one diagonal offset is reseeded.
pub const PICK_RANGE: u32 = 25;

/// The parameters of a run.
#[derive(Clone, Copy, Debug, PartialEq, Eq, Structural)]
pub struct Config {
    /// Side of the square grid; even and positive.
    pub side: usize,
    /// Car density in units of `1 / DENSITY_SCALE`; at most one half.
    pub density: u32,
    /// A shear is applied on every tick whose count is a multiple of this.
    pub rotation_period: u32,
    /// Ticks from one tide boundary to the next.
    pub tide_period: u32,
    /// The largest reseed extent; at most `side`.
    pub sand_max: u32,
}

/// Why a run cannot be set up.
#[derive(Clone, Copy, Debug, PartialEq, Eq, Structural)]
pub enum SimError {
    InvalidConfiguration,
}

/// The configurations that a run accepts.
pub open spec fn valid_config(c: Config) -> bool {
    &&& c.side > 0
    &&& c.side % 2 == 0
    &&& 0 < c.density <= DENSITY_SCALE / 2
    &&& c.rotation_period > 0
    &&& c.tide_period > 0
    &&& c.sand_max <= c.side
}

/// `h` is `g` after the horizontal phase when `horizontal`, else after the
/// vertical phase.
pub open spec fn is_phase(g: Seq<Seq<Cell>>, h: Seq<Seq<Cell>>, n: int, horizontal: bool) -> bool {
    if horizontal {
        is_h_phase(g, h, n)
    } else {
        is_v_phase(g, h, n)
    }
}

/// `h` is `g` after reseeding the corner diagonal of extent `s` with `picks`.
pub open spec fn is_reseed(
    g: Seq<Seq<Cell>>,
    h: Seq<Seq<Cell>>,
    n: int,
    s: int,
    d: int,
    sense: bool,
    picks: Seq<Option<u32>>,
) -> bool {
    &&& is_square(h, n)
    &&& picks.len() == s
    &&& forall|i: int, j: int| 0 <= i < n && 0 <= j < n ==> #[trigger] h[i][j] == reseeded(g, n, s, d, sense, picks, i, j)
}

/// The reseeding that some run of draws could give: an offset is picked or
/// not, and a picked one carries a seeding draw below `DENSITY_SCALE`.
pub open spec fn is_random_reseed(g: Seq<Seq<Cell>>, h: Seq<Seq<Cell>>, n: int, s: int, d: int, sense: bool) -> bool {
    exists|picks: Seq<Option<u32>>|
        #![trigger is_reseed(g, h, n, s, d, sense, picks)]
        is_reseed(g, h, n, s, d, sense, picks) && forall|k: int|
            0 <= k < s ==> match #[trigger] picks[k] {
                Some(r) => r < DENSITY_SCALE,
                None => true,
            }
}

/// `c` is what some seeding draw gives cell `(i, j)` at density `d` on the
/// unrotated lattice.
pub open spec fn seedable(c: Cell, d: int, i: int, j: int) -> bool {
    exists|r: int| 0 <= r < DENSITY_SCALE && c == #[trigger] seeded_cell(r, d, i, j, true)
}

/// Whether tick `c` applies a shear under rotation period `r`.
pub open spec fn rotates_at(c: int, r: int) -> bool {
    c % r == 0
}

/// `h` follows from `g` by one tick through the intermediate grids `g1`
/// (after the phase) and `g2` (after the shear, if one is due): the phase
/// selected by `horizontal`, a shear when `rotates`, then either nothing or
/// a reseed of extent `s` with parity `sense`.
pub open spec fn tick_via(
    g: Seq<Seq<Cell>>,
    g1: Seq<Seq<Cell>>,
    g2: Seq<Seq<Cell>>,
    h: Seq<Seq<Cell>>,
    n: int,
    horizontal: bool,
    rotates: bool,
    s: int,
    d: int,
    sense: bool,
) -> bool {
    &&& is_phase(g, g1, n, horizontal)
    &&& if rotates { is_shear(g1, g2, n) } else { g2 == g1 }
    &&& (h == g2 || is_random_reseed(g2, h, n, s, d, sense))
}

/// No horizontal car on a row, and no vertical car on a column, whose
/// oddness differs from `sense`.
pub open spec fn parity_holds(g: Seq<Seq<Cell>>, n: int, sense: bool) -> bool {
    forall|i: int, j: int| 0 <= i < n && 0 <= j < n ==> {
        &&& #[trigger] g[i][j] == Cell::Horizontal ==> (i % 2 == 1) == sense
        &&& g[i][j] == Cell::Vertical ==> (j % 2 == 1) == sense
    }
}

/// The state of a run: the grid, which phase comes next, the parity that
/// reseeding follows, the tick count, the configuration and the generator.
pub struct Model {
    grid: Grid,
    next_horizontal: bool,
    parity_sense: bool,
    counter: u64,
    config: Config,
    rng: StdRng,
}

impl Model {
    /// The cells of the grid, row by row.
    pub closed spec fn cells(&self) -> Seq<Seq<Cell>> {
        self.grid.cells()
    }

    /// The side of the grid.
    pub closed spec fn side(&self) -> int {
        self.grid.side()
    }

    /// Whether the next phase moves the horizontal cars.
    pub closed spec fn horizontal_next(&self) -> bool {
        self.next_horizontal
    }

    /// Whether horizontal cars belong on odd rows and vertical cars on odd
    /// columns; each shear flips it.
    pub closed spec fn sense(&self) -> bool {
        self.parity_sense
    }

    /// The number of ticks taken.
    pub closed spec fn ticks(&self) -> int {
        self.counter as int
    }

    /// The configuration of the run.
    pub closed spec fn configuration(&self) -> Config {
        self.config
    }

    /// A run is well formed when its configuration is valid and its grid is
    /// a square of the configured side.
    pub open spec fn wf(&self) -> bool {
        &&& valid_config(self.configuration())
        &&& self.side() == self.configuration().side
        &&& self.side() > 0
        &&& self.side() % 2 == 0
        &&& is_square(self.cells(), self.side())
    }

    /// The grid.
    pub fn grid(&self) -> (g: &Grid)
        ensures
            g.cells() == self.cells(),
            g.side() == self.side(),
    {
        &self.grid
    }

    /// The configuration.
    pub fn config(&self) -> (c: Config)
        ensures
            c == self.configuration(),
    {
        self.config
    }

    /// The number of ticks taken.
    pub fn tick_count(&self) -> (c: u64)
        ensures
            c == self.ticks(),
    {
        self.counter
    }

    /// Whether the next phase moves the horizontal cars.
    pub fn is_horizontal_next(&self) -> (b: bool)
        ensures
            b == self.horizontal_next(),
    {
        self.next_horizontal
    }

    /// Whether horizontal cars belong on odd rows; see `sense`.
    pub fn parity_sense(&self) -> (b: bool)
        ensures
            b == self.sense(),
    {
        self.parity_sense
    }

    /// What occupies cell `(row, col)`.
    pub fn cell_tag(&self, row: usize, col: usize) -> (c: Cell)
        requires
            self.wf(),
            row < self.side(),
            col < self.side(),
        ensures
            c == self.cells()[row as int][col as int],
    {
        self.grid.get(row, col)
    }

    /// A fresh run: each cell draws once below `DENSITY_SCALE`, in row-major
    /// order, from a generator seeded with `seed`, and is seeded from that
    /// draw with the parity of the unrotated lattice. The horizontal phase
    /// comes first. Fails exactly when the configuration is invalid.
    pub fn new_simulation(config: Config, seed: u64) -> (r: Result<Model, SimError>)
        ensures
            r is Err <==> !valid_config(config),
            r is Err ==> r == Err::<Model, SimError>(SimError::InvalidConfiguration),
            r matches Ok(m) ==> {
                &&& m.wf()
                &&& m.configuration() == config
                &&& m.side() == config.side
                &&& m.horizontal_next()
                &&& m.sense()
                &&& m.ticks() == 0
                &&& parity_holds(m.cells(), m.side(), true)
                &&& forall|i: int, j: int| 0 <= i < m.side() && 0 <= j < m.side() ==>
                    seedable(#[trigger] m.cells()[i][j], config.density as int, i, j)
            },
    {
        if !(config.side > 0 && config.side % 2 == 0 && 0 < config.density && config.density
            <= DENSITY_SCALE / 2 && config.rotation_period > 0 && config.tide_period > 0
            && config.sand_max as usize <= config.side) {
            return Err(SimError::InvalidConfiguration);
        }
        let n = config.side;
        let mut rng = rng_from_seed(seed);
        let mut draws: Vec<Vec<u32>> = Vec::new();
        let mut i: usize = 0;
        while i < n
            invariant
                i <= n,
                draws@.len() == i,
                forall|k: int| 0 <= k < i ==> #[trigger] draws@[k]@.len() == n,
                forall|k: int, j: int| 0 <= k < i && 0 <= j < n ==> #[trigger] draws@[k]@[j] < DENSITY_SCALE,
            decreases n - i,
        {
            let mut row: Vec<u32> = Vec::new();
            let mut j: usize = 0;
            while j < n
                invariant
                    j <= n,
                    row@.len() == j,
                    forall|k: int| 0 <= k < j ==> #[trigger] row@[k] < DENSITY_SCALE,
                decreases n - j,
            {
                let d = draw_below(&mut rng, DENSITY_SCALE as u128);
                row.push(d as u32);
                j = j + 1;
            }
            draws.push(row);
            i = i + 1;
        }
        let grid = Grid::seeded(n, config.density, &draws);
        let m = Model { grid, next_horizontal: true, parity_sense: true, counter: 0, config, rng };
        assert forall|i: int, j: int| 0 <= i < n && 0 <= j < n implies
            seedable(#[trigger] m.cells()[i][j], config.density as int, i, j) by {
            let d = draws@[i]@[j] as int;
            assert(m.cells()[i][j] == seeded_cell(d, config.density as int, i, j, true));
        }
        assert(m.wf());
        assert(m.side() == config.side);
        assert(m.horizontal_next() && m.sense() && m.ticks() == 0);
        assert(parity_holds(m.cells(), n as int, true)) by {
            assert forall|i: int, j: int| 0 <= i < n && 0 <= j < n implies {
                &&& #[trigger] m.cells()[i][j] == Cell::Horizontal ==> (i % 2 == 1)
                &&& m.cells()[i][j] == Cell::Vertical ==> (j % 2 == 1)
            } by {
                assert(m.cells()[i][j] == seeded_cell(draws@[i]@[j] as int, config.density as int, i, j, true));
            }
        }
        Ok(m)
    }

    /// A run that starts from `grid` with the horizontal phase and the parity
    /// of the unrotated lattice, drawing from a generator seeded with `seed`.
    /// Fails exactly when the configuration is invalid or its side is not
    /// the grid's.
    pub fn from_grid(grid: Grid, config: Config, seed: u64) -> (r: Result<Model, SimError>)
        requires
            grid.wf(),
        ensures
            r is Err <==> !valid_config(config) || config.side != grid.side(),
            r is Err ==> r == Err::<Model, SimError>(SimError::InvalidConfiguration),
            r matches Ok(m) ==> {
                &&& m.wf()
                &&& m.configuration() == config
                &&& m.cells() == grid.cells()
                &&& m.horizontal_next()
                &&& m.sense()
                &&& m.ticks() == 0
            },
    {
        if !(config.side > 0 && config.side % 2 == 0 && 0 < config.density && config.density
            <= DENSITY_SCALE / 2 && config.rotation_period > 0 && config.tide_period > 0
            && config.sand_max as usize <= config.side) || config.side != grid.size() {
            return Err(SimError::InvalidConfiguration);
        }
        let rng = rng_from_seed(seed);
        Ok(Model { grid, next_horizontal: true, parity_sense: true, counter: 0, config, rng })
    }

    /// One movement phase: the horizontal one when it is next, else the
    /// vertical one. The next phase is then the other one.
    pub fn simple_update(&mut self)
        requires
            old(self).wf(),
        ensures
            final(self).wf(),
            is_phase(old(self).cells(), final(self).cells(), old(self).side(), old(self).horizontal_next()),
            final(self).horizontal_next() == !old(self).horizontal_next(),
            final(self).sense() == old(self).sense(),
            final(self).ticks() == old(self).ticks(),
            final(self).configuration() == old(self).configuration(),
    {
        if self.next_horizontal {
            self.grid = self.grid.horizontal_phase();
        } else {
            self.grid = self.grid.vertical_phase();
        }
        self.next_horizontal = !self.next_horizontal;
    }

    /// One diagonal shear of the grid; the parity that reseeding follows
    /// flips with it.
    pub fn rotate(&mut self)
        requires
            old(self).wf(),
        ensures
            final(self).wf(),
            is_shear(old(self).cells(), final(self).cells(), old(self).side()),
            final(self).sense() == !old(self).sense(),
            final(self).horizontal_next() == old(self).horizontal_next(),
            final(self).ticks() == old(self).ticks(),
            final(self).configuration() == old(self).configuration(),
    {
        self.grid = self.grid.sheared();
        self.parity_sense = !self.parity_sense;
    }

    /// Reseeds the corner diagonal of extent `sand` with the current parity:
    /// each offset is picked with chance `1 / PICK_RANGE`, and a picked one
    /// draws below `DENSITY_SCALE` for the occupant of its cell if that cell
    /// is empty.
    pub fn randomize(&mut self, sand: usize)
        requires
            old(self).wf(),
            sand <= old(self).side(),
        ensures
            final(self).wf(),
            is_random_reseed(
                old(self).cells(),
                final(self).cells(),
                old(self).side(),
                sand as int,
                old(self).configuration().density as int,
                old(self).sense(),
            ),
            final(self).sense() == old(self).sense(),
            final(self).horizontal_next() == old(self).horizontal_next(),
            final(self).ticks() == old(self).ticks(),
            final(self).configuration() == old(self).configuration(),
    {
        let mut picks: Vec<Option<u32>> = Vec::new();
        let mut k: usize = 0;
        while k < sand
            invariant
                self.wf(),
                sand <= self.side(),
                self.grid == old(self).grid,
                self.config == old(self).config,
                self.parity_sense == old(self).parity_sense,
                self.next_horizontal == old(self).next_horizontal,
                self.counter == old(self).counter,
                k <= sand,
                picks@.len() == k,
                forall|q: int| 0 <= q < k ==> match #[trigger] picks@[q] {
                    Some(r) => r < DENSITY_SCALE,
                    None => true,
                },
            decreases sand - k,
        {
            if draw_below(&mut self.rng, PICK_RANGE as u128) == 0 {
                let d = draw_below(&mut self.rng, DENSITY_SCALE as u128);
                picks.push(Some(d as u32));
            } else {
                picks.push(None);
            }
            k = k + 1;
        }
        let ghost g = self.cells();
        self.grid.reseed(sand, self.config.density, self.parity_sense, &picks);
        assert(is_reseed(g, self.cells(), self.side(), sand as int, self.config.density as int, self.parity_sense, picks@));
    }

    /// One tick: a movement phase; a shear when the tick count is a multiple
    /// of the rotation period; then, with chance `trigger_threshold` out of
    /// `trigger_range` for the tick count, a reseed of extent `extent_at`.
    /// The tick count then grows by one.
    pub fn step(&mut self)
        requires
            old(self).wf(),
            old(self).ticks() < u64::MAX,
        ensures
            final(self).wf(),
            final(self).configuration() == old(self).configuration(),
            final(self).ticks() == old(self).ticks() + 1,
            final(self).horizontal_next() == !old(self).horizontal_next(),
            final(self).sense() == if rotates_at(old(self).ticks(), old(self).configuration().rotation_period as int) {
                !old(self).sense()
            } else {
                old(self).sense()
            },
            exists|g1: Seq<Seq<Cell>>, g2: Seq<Seq<Cell>>|
                #[trigger] tick_via(
                    old(self).cells(),
                    g1,
                    g2,
                    final(self).cells(),
                    old(self).side(),
                    old(self).horizontal_next(),
                    rotates_at(old(self).ticks(), old(self).configuration().rotation_period as int),
                    extent_at(
                        old(self).ticks(),
                        old(self).configuration().tide_period as int,
                        old(self).configuration().sand_max as int,
                    ),
                    old(self).configuration().density as int,
                    final(self).sense(),
                ),
    {
        self.simple_update();
        let ghost g1 = self.cells();
        let rotates = self.counter % (self.config.rotation_period as u64) == 0;
        if rotates {
            self.rotate();
        }
        let ghost g2 = self.cells();
        let range = reseed_range(self.config.tide_period);
        let extent = reseed_extent(self.counter, self.config.tide_period, self.config.sand_max);
        let draw = draw_below(&mut self.rng, range);
        if reseed_due(self.counter, self.config.tide_period, draw) {
            self.randomize(extent as usize);
        }
        self.counter = self.counter + 1;
        assert(rotates == rotates_at(old(self).ticks(), old(self).configuration().rotation_period as int));
        assert(tick_via(
            old(self).cells(),
            g1,
            g2,
            self.cells(),
            old(self).side(),
            old(self).horizontal_next(),
            rotates_at(old(self).ticks(), old(self).configuration().rotation_period as int),
            extent_at(
                old(self).ticks(),
                old(self).configuration().tide_period as int,
                old(self).configuration().sand_max as int,
            ),
            old(self).configuration().density as int,
            self.sense(),
        ));
    }
}

} // verus!
