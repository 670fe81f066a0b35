//! Conway's Game of Life on a bounded board: cells beyond the edges are dead.
use vstd::prelude::*;

verus! {

/// The contents of a board: row-major cells, the dimensions, and whether
/// evolution is paused.
pub struct LifeView {
    pub cells: Seq<bool>,
    pub width: nat,
    pub height: nat,
    pub paused: bool,
}

/// Whether the cell at column `x`, row `y` is on the board and alive.
pub open spec fn alive_at(b: LifeView, x: int, y: int) -> bool {
    0 <= x < b.width && 0 <= y < b.height && b.cells[y * b.width + x]
}

pub open spec fn count(b: bool) -> int {
    if b {
        1
    } else {
        0
    }
}

/// The number of live cells among the eight around (`x`, `y`).
pub open spec fn neighbor_count(b: LifeView, x: int, y: int) -> int {
    count(alive_at(b, x - 1, y - 1)) + count(alive_at(b, x, y - 1)) + count(alive_at(b, x + 1, y - 1))
        + count(alive_at(b, x - 1, y)) + count(alive_at(b, x + 1, y)) + count(alive_at(b, x - 1, y + 1))
        + count(alive_at(b, x, y + 1)) + count(alive_at(b, x + 1, y + 1))
}

/// A live cell survives with two or three live neighbours; a dead one comes
/// alive with exactly three.
pub open spec fn next_alive(alive: bool, neighbors: int) -> bool {
    if alive {
        neighbors == 2 || neighbors == 3
    } else {
        neighbors == 3
    }
}

/// The cells of the next generation.
pub open spec fn next_generation(b: LifeView) -> Seq<bool> {
    Seq::new(
        b.cells.len(),
        |i: int| next_alive(b.cells[i], neighbor_count(b, i % (b.width as int), i / (b.width as int))),
    )
}

/// The index of (`x`, `y`) in a board `width` cells wide.
pub open spec fn cell_index(x: int, y: int, width: int) -> int {
    y * width + x
}

/// Splits a cell index into column and row.
pub fn usize_to_xy(n: usize, width: u32, height: u32) -> (r: (u32, u32))
    requires
        width > 0,
        n < width * height,
        width * height <= u32::MAX,
    ensures
        r.0 == n as int % (width as int),
        r.1 == n as int / (width as int),
        r.0 < width,
        r.1 < height,
{
    let x = (n as u32) % width;
    proof {
        vstd::arithmetic::div_mod::lemma_fundamental_div_mod(n as int, width as int);
        assert((width as int) * (n as int / width as int) >= 0) by (nonlinear_arith)
            requires
                width > 0,
                n >= 0,
        ;
    }
    let y = ((n as u32) - x) / width;
    proof {
        let w = width as int;
        let k = n as int;
        vstd::arithmetic::div_mod::lemma_fundamental_div_mod(k, w);
        vstd::arithmetic::div_mod::lemma_div_multiples_vanish(k / w, w);
        assert(k - k % w == w * (k / w));
        if k / w >= height {
            assert(w * (k / w) >= w * height) by (nonlinear_arith)
                requires
                    k / w >= height,
                    w > 0,
            ;
        }
    }
    (x, y)
}

/// The row-major index of the cell at `xy`.
pub fn xy_to_usize(xy: (u32, u32), width: u32, _height: u32) -> (r: usize)
    requires
        cell_index(xy.0 as int, xy.1 as int, width as int) <= u32::MAX,
    ensures
        r == cell_index(xy.0 as int, xy.1 as int, width as int),
{
    (xy.0 + (xy.1 * width)) as usize
}

/// A Game of Life board.
pub struct GOL {
    cells: Vec<bool>,
    width: u32,
    height: u32,
    paused: bool,
}

impl View for GOL {
    type V = LifeView;

    closed spec fn view(&self) -> LifeView {
        LifeView {
            cells: self.cells@,
            width: self.width as nat,
            height: self.height as nat,
            paused: self.paused,
        }
    }
}

impl GOL {
    /// The board holds one cell per position and its size fits in a `u32`.
    pub open spec fn wf(&self) -> bool {
        &&& self@.cells.len() == self@.width * self@.height
        &&& self@.width * self@.height <= u32::MAX
        &&& self@.width <= u32::MAX
        &&& self@.height <= u32::MAX
    }

    /// An empty, running board of `width` by `height` cells.
    pub fn new(width: u32, height: u32) -> (r: GOL)
        requires
            width * height <= u32::MAX,
        ensures
            r.wf(),
            r@.width == width,
            r@.height == height,
            !r@.paused,
            forall|i: int| 0 <= i < r@.cells.len() ==> !#[trigger] r@.cells[i],
    {
        GOL { cells: vec![false; (width * height) as usize], width, height, paused: false }
    }

    /// The index of an on-board position.
    fn board_index(&self, x: u32, y: u32) -> (r: usize)
        requires
            self.wf(),
            x < self@.width,
            y < self@.height,
        ensures
            r == cell_index(x as int, y as int, self@.width as int),
            r < self@.cells.len(),
    {
        assert((y as int) * (self.width as int) + (x as int) < (self.width as int) * (self.height as int))
            by (nonlinear_arith)
            requires
                x < self.width,
                y < self.height,
        ;
        xy_to_usize((x, y), self.width, self.height)
    }

    /// Counts the live cells around `tup`.
    pub fn count_alive_neighbors(&self, tup: (u32, u32)) -> (r: u8)
        requires
            self.wf(),
            tup.0 < self@.width,
            tup.1 < self@.height,
        ensures
            r as int == neighbor_count(self@, tup.0 as int, tup.1 as int),
    {
        let x = tup.0;
        let y = tup.1;
        let w = self.width;
        let h = self.height;
        let left_boundary_valid = x > 0;
        let right_boundary_valid = x + 1 < w;
        let top_boundary_valid = y > 0;
        let bottom_boundary_valid = y + 1 < h;
        let mut counter: u8 = 0;
        if top_boundary_valid {
            if left_boundary_valid && self.cells[self.board_index(x - 1, y - 1)] {
                counter += 1;
            }
            if self.cells[self.board_index(x, y - 1)] {
                counter += 1;
            }
            if right_boundary_valid && self.cells[self.board_index(x + 1, y - 1)] {
                counter += 1;
            }
        }
        if left_boundary_valid && self.cells[self.board_index(x - 1, y)] {
            counter += 1;
        }
        if right_boundary_valid && self.cells[self.board_index(x + 1, y)] {
            counter += 1;
        }
        if bottom_boundary_valid {
            if left_boundary_valid && self.cells[self.board_index(x - 1, y + 1)] {
                counter += 1;
            }
            if self.cells[self.board_index(x, y + 1)] {
                counter += 1;
            }
            if right_boundary_valid && self.cells[self.board_index(x + 1, y + 1)] {
                counter += 1;
            }
        }
        counter
    }

    /// Brings the cell at `xy` to life.
    pub fn make_cell_alive(&mut self, xy: (u32, u32))
        requires
            old(self).wf(),
            cell_index(xy.0 as int, xy.1 as int, old(self)@.width as int) < old(self)@.cells.len(),
        ensures
            final(self).wf(),
            final(self)@ == (LifeView {
                cells: old(self)@.cells.update(cell_index(xy.0 as int, xy.1 as int, old(self)@.width as int), true),
                ..old(self)@
            }),
    {
        let i = xy_to_usize(xy, self.width, self.height);
        self.cells.set(i, true);
    }

    /// Kills the cell at `xy`.
    pub fn kill_cell(&mut self, xy: (u32, u32))
        requires
            old(self).wf(),
            cell_index(xy.0 as int, xy.1 as int, old(self)@.width as int) < old(self)@.cells.len(),
        ensures
            final(self).wf(),
            final(self)@ == (LifeView {
                cells: old(self)@.cells.update(cell_index(xy.0 as int, xy.1 as int, old(self)@.width as int), false),
                ..old(self)@
            }),
    {
        let i = xy_to_usize(xy, self.width, self.height);
        self.cells.set(i, false);
    }

    /// Flips the cell at `xy` between alive and dead.
    pub fn switch_cell(&mut self, xy: (u32, u32))
        requires
            old(self).wf(),
            cell_index(xy.0 as int, xy.1 as int, old(self)@.width as int) < old(self)@.cells.len(),
        ensures
            final(self).wf(),
            final(self)@ == (LifeView {
                cells: old(self)@.cells.update(
                    cell_index(xy.0 as int, xy.1 as int, old(self)@.width as int),
                    !old(self)@.cells[cell_index(xy.0 as int, xy.1 as int, old(self)@.width as int)],
                ),
                ..old(self)@
            }),
    {
        let i = xy_to_usize(xy, self.width, self.height);
        let alive = self.cells[i];
        self.cells.set(i, !alive);
    }

    /// Advances the board by one generation.
    pub fn pass(&mut self)
        requires
            old(self).wf(),
        ensures
            final(self).wf(),
            final(self)@ == (LifeView { cells: next_generation(old(self)@), ..old(self)@ }),
    {
        let n = self.cells.len();
        let mut new_cells: Vec<bool> = Vec::new();
        let mut i: usize = 0;
        while i < n
            invariant
                self.wf(),
                n == self@.cells.len(),
                i <= n,
                new_cells@.len() == i,
                forall|j: int|
                    0 <= j < i ==> #[trigger] new_cells@[j] == next_generation(self@)[j],
            decreases n - i,
        {
            proof {
                assert(self.width > 0) by (nonlinear_arith)
                    requires i < n, n == self.width as int * self.height as int;
            }
            let pos = usize_to_xy(i, self.width, self.height);
            let neighbors = self.count_alive_neighbors(pos);
            let alive = self.cells[i];
            new_cells.push(if alive { neighbors == 2 || neighbors == 3 } else { neighbors == 3 });
            i += 1;
        }
        proof {
            assert(new_cells@ =~= next_generation(self@));
        }
        self.cells = new_cells;
    }

    /// Gives every cell a fresh random state.
    pub fn randomize(&mut self)
        requires
            old(self).wf(),
        ensures
            final(self).wf(),
            final(self)@.cells.len() == old(self)@.cells.len(),
            final(self)@.width == old(self)@.width,
            final(self)@.height == old(self)@.height,
            final(self)@.paused == old(self)@.paused,
    {
        let mut i: usize = 0;
        while i < self.cells.len()
            invariant
                self.wf(),
                self@.cells.len() == old(self)@.cells.len(),
                self@.width == old(self)@.width,
                self@.height == old(self)@.height,
                self@.paused == old(self)@.paused,
            decreases self@.cells.len() - i,
        {
            let b = coin_flip();
            self.cells.set(i, b);
            i += 1;
        }
    }

    /// Toggles whether the board evolves.
    pub fn pause(&mut self)
        requires
            old(self).wf(),
        ensures
            final(self).wf(),
            final(self)@ == (LifeView { paused: !old(self)@.paused, ..old(self)@ }),
    {
        self.paused = !self.paused;
    }

    pub fn width(&self) -> (r: u32)
        ensures
            r == self@.width,
    {
        self.width
    }

    pub fn height(&self) -> (r: u32)
        ensures
            r == self@.height,
    {
        self.height
    }

    pub fn is_paused(&self) -> (r: bool)
        ensures
            r == self@.paused,
    {
        self.paused
    }

    /// Whether the cell at `index` in row-major order is alive.
    pub fn cell(&self, index: usize) -> (r: bool)
        requires
            index < self@.cells.len(),
        ensures
            r == self@.cells[index as int],
    {
        self.cells[index]
    }
}

/// Relies on `rand::random::<bool>`, which draws from the thread-local
/// generator; nothing is promised of the bit drawn.
#[verifier::external_body]
fn coin_flip() -> (r: bool) {
    rand::random::<bool>()
}

} // verus!
