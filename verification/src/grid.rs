//! The grid of tiles: which coordinates exist, how often each tile has been
//! visited, and the rule by which a visit toggles it.
//!
//! A tile is named by `(row, col)`. The cube's `z` offset is matched against
//! the row and its `x` offset against the column.

use vstd::prelude::*;
use vstd::arithmetic::div_mod::{lemma_add_mod_noop, lemma_mod_bound, lemma_mod_self_0, lemma_small_mod};
use crate::random::{random_below, seed_generator};

verus! {

/// Lowest row of a grid with the given side length.
pub open spec fn row_min(size: int) -> int {
    -(size / 2)
}

/// Highest row. An even grid has one row fewer above zero than below.
pub open spec fn row_max(size: int) -> int {
    (size / 2) + (size % 2 - 1)
}

/// Lowest column. An even grid has one column fewer below zero than above.
pub open spec fn col_min(size: int) -> int {
    -(size / 2) - (size % 2 - 1)
}

/// Highest column.
pub open spec fn col_max(size: int) -> int {
    size / 2
}

/// Whether `(row, col)` names a tile of a grid with the given side length.
pub open spec fn in_range(size: int, row: int, col: int) -> bool {
    &&& row_min(size) <= row <= row_max(size)
    &&& col_min(size) <= col <= col_max(size)
}

/// Position of `(row, col)` in row-major order.
pub open spec fn cell_index(size: int, row: int, col: int) -> int {
    (row - row_min(size)) * size + (col - col_min(size))
}

/// The visit count that follows `count`: one more, and from the last colour
/// back to zero.
pub open spec fn next_count(count: int, colours: int) -> int {
    if count < colours {
        count + 1
    } else {
        0
    }
}

/// `next_count` applied `times` times.
pub open spec fn cycled(count: int, colours: int, times: nat) -> int
    decreases times,
{
    if times == 0 {
        count
    } else {
        next_count(cycled(count, colours, (times - 1) as nat), colours)
    }
}

/// The visit counts that are not zero, in order.
pub open spec fn lit(cells: Seq<int>) -> Seq<int> {
    cells.filter(|count: int| count != 0)
}

/// A grid as a mathematical value: its side length, the number of "on"
/// colours, and the visit count of every tile in row-major order.
pub struct GridModel {
    pub size: int,
    pub colours: int,
    pub cells: Seq<int>,
}

impl GridModel {
    /// One tile per coordinate of the range, each count within `0..=colours`.
    pub open spec fn wf(self) -> bool {
        &&& 0 < self.size
        &&& 0 <= self.colours
        &&& self.cells.len() == self.size * self.size
        &&& forall|i: int|
            0 <= i < self.cells.len() ==> 0 <= #[trigger] self.cells[i] <= self.colours
    }

    pub open spec fn contains(self, row: int, col: int) -> bool {
        in_range(self.size, row, col)
    }

    pub open spec fn visit_count(self, row: int, col: int) -> int {
        self.cells[cell_index(self.size, row, col)]
    }

    /// The grid as a mapping from coordinate to visit count.
    pub open spec fn tiles(self) -> Map<(int, int), int> {
        Map::new(
            |p: (int, int)| self.contains(p.0, p.1),
            |p: (int, int)| self.visit_count(p.0, p.1),
        )
    }

    /// Number of tiles that are not cleared.
    pub open spec fn remaining(self) -> nat {
        lit(self.cells).len()
    }

    /// The grid after one visit to `(row, col)`.
    pub open spec fn toggled(self, row: int, col: int) -> GridModel {
        GridModel {
            size: self.size,
            colours: self.colours,
            cells: self.cells.update(
                cell_index(self.size, row, col),
                next_count(self.visit_count(row, col), self.colours),
            ),
        }
    }

    /// The grid after `times` visits to `(row, col)`.
    pub open spec fn toggled_times(self, row: int, col: int, times: nat) -> GridModel
        decreases times,
    {
        if times == 0 {
            self
        } else {
            self.toggled_times(row, col, (times - 1) as nat).toggled(row, col)
        }
    }
}

/// A coordinate of the range lies less than `size` rows and columns past
/// the first, and its index is below `size * size`.
pub proof fn lemma_cell_index_bounds(size: int, row: int, col: int)
    requires
        0 < size,
        in_range(size, row, col),
    ensures
        0 <= cell_index(size, row, col) < size * size,
        0 <= row - row_min(size) < size,
        0 <= col - col_min(size) < size,
{
    let r = row - row_min(size);
    let c = col - col_min(size);
    assert(0 <= r < size && 0 <= c < size);
    assert(0 <= r * size + c < size * size) by (nonlinear_arith)
        requires
            0 <= r < size,
            0 <= c < size,
    ;
}

/// Two different coordinates of the range never share an index.
pub proof fn lemma_cell_index_injective(size: int, row: int, col: int, row2: int, col2: int)
    requires
        0 < size,
        in_range(size, row, col),
        in_range(size, row2, col2),
        cell_index(size, row, col) == cell_index(size, row2, col2),
    ensures
        row == row2,
        col == col2,
{
    let r = row - row_min(size);
    let c = col - col_min(size);
    let r2 = row2 - row_min(size);
    let c2 = col2 - col_min(size);
    assert(r == r2 && c == c2) by (nonlinear_arith)
        requires
            0 < size,
            0 <= c < size,
            0 <= c2 < size,
            r * size + c == r2 * size + c2,
    ;
}

/// One tile as the renderer sees it.
#[derive(Clone, Copy, Debug, PartialEq, Eq, Structural)]
pub struct Tile {
    pub row: i32,
    pub col: i32,
    pub visit_count: i32,
}

/// The tiles of one session, stored in row-major order.
#[derive(Debug)]
pub struct Grid {
    size: i32,
    colours: i32,
    counts: Vec<i32>,
}

impl View for Grid {
    type V = GridModel;

    closed spec fn view(&self) -> GridModel {
        GridModel {
            size: self.size as int,
            colours: self.colours as int,
            cells: self.counts@.map_values(|v: i32| v as int),
        }
    }
}

impl Grid {
    /// The model is well formed and the colour count leaves room for the
    /// exclusive upper bound of a draw.
    pub open spec fn wf(&self) -> bool {
        &&& self@.wf()
        &&& self@.size <= i32::MAX
        &&& self@.colours < i32::MAX
        &&& self@.cells.len() <= usize::MAX
    }

    /// Builds a grid from visit counts given in row-major order, or `None`
    /// where they do not describe one.
    pub fn from_counts(grid_size: i32, colour_count: i32, counts: Vec<i32>) -> (made: Option<Grid>)
        ensures
            made.is_some() <==> (GridModel {
                size: grid_size as int,
                colours: colour_count as int,
                cells: counts@.map_values(|v: i32| v as int),
            }).wf() && colour_count < i32::MAX,
            made.is_some() ==> made.unwrap().wf() && made.unwrap()@ == (GridModel {
                size: grid_size as int,
                colours: colour_count as int,
                cells: counts@.map_values(|v: i32| v as int),
            }),
    {
        let ghost model = GridModel {
            size: grid_size as int,
            colours: colour_count as int,
            cells: counts@.map_values(|v: i32| v as int),
        };
        if grid_size <= 0 || colour_count < 0 || colour_count == i32::MAX {
            return None;
        }
        let side: u64 = grid_size as u64;
        assert(side * side <= u64::MAX) by (nonlinear_arith)
            requires
                0 < side <= 0x7fff_ffff,
        ;
        if counts.len() as u64 != side * side {
            return None;
        }
        let mut i: usize = 0;
        while i < counts.len()
            invariant
                i <= counts.len(),
                model.cells == counts@.map_values(|v: i32| v as int),
                model.colours == colour_count,
                forall|k: int| 0 <= k < i ==> 0 <= #[trigger] model.cells[k] <= colour_count,
            decreases counts.len() - i,
        {
            assert(model.cells[i as int] == counts@[i as int]);
            if counts[i] < 0 || counts[i] > colour_count {
                return None;
            }
            i += 1;
        }
        Some(Grid { size: grid_size, colours: colour_count, counts })
    }

    /// Side length of the grid.
    pub fn size(&self) -> (side: i32)
        ensures
            side == self@.size,
    {
        self.size
    }

    /// Number of "on" colours a tile cycles through.
    pub fn colour_count(&self) -> (colours: i32)
        ensures
            colours == self@.colours,
    {
        self.colours
    }

    /// Number of tiles.
    pub fn tile_count(&self) -> (tiles: usize)
        ensures
            tiles == self@.cells.len(),
    {
        self.counts.len()
    }

    /// Whether a tile exists where the cube stands at offsets `(x, z)`.
    pub fn contains(&self, x: i32, z: i32) -> (found: bool)
        requires
            self.wf(),
        ensures
            found == self@.contains(z as int, x as int),
    {
        let half: i32 = self.size / 2;
        let odd: i32 = self.size % 2;
        -half <= z && z <= half + (odd - 1) && -half - (odd - 1) <= x && x <= half
    }

    fn index_of(&self, x: i32, z: i32) -> (index: usize)
        requires
            self.wf(),
            self@.contains(z as int, x as int),
        ensures
            index == cell_index(self@.size, z as int, x as int),
            index < self@.cells.len(),
    {
        let half: i32 = self.size / 2;
        let odd: i32 = self.size % 2;
        let r: i32 = z + half;
        let c: i32 = x + half + (odd - 1);
        proof {
            lemma_cell_index_bounds(self@.size, z as int, x as int);
            assert(r * self.size <= cell_index(self@.size, z as int, x as int));
        }
        (r as usize) * (self.size as usize) + (c as usize)
    }

    /// The visit count of the tile under offsets `(x, z)`, if there is one.
    pub fn tile_at(&self, x: i32, z: i32) -> (count: Option<i32>)
        requires
            self.wf(),
        ensures
            count.is_some() <==> self@.contains(z as int, x as int),
            count.is_some() ==> count.unwrap() == self@.visit_count(z as int, x as int),
    {
        if self.contains(x, z) {
            let index = self.index_of(x, z);
            Some(self.counts[index])
        } else {
            None
        }
    }

    /// Counts one visit to the tile under offsets `(x, z)`: its visit count
    /// goes up by one, and from `colour_count` back to zero. Every other tile
    /// keeps its count, and where no tile lies under the offsets nothing
    /// changes at all.
    pub fn toggle_at(&mut self, x: i32, z: i32)
        requires
            old(self).wf(),
        ensures
            final(self).wf(),
            final(self)@ == if old(self)@.contains(z as int, x as int) {
                old(self)@.toggled(z as int, x as int)
            } else {
                old(self)@
            },
    {
        if !self.contains(x, z) {
            return;
        }
        let index = self.index_of(x, z);
        let count: i32 = self.counts[index];
        assert(count == self@.cells[index as int]);
        let next: i32 = if count < self.colours {
            count + 1
        } else {
            0
        };
        self.counts.set(index, next);
        assert(self@.cells =~= old(self)@.toggled(z as int, x as int).cells);
    }

    /// Number of tiles whose visit count is not zero.
    pub fn remaining(&self) -> (left: usize)
        requires
            self.wf(),
        ensures
            left == self@.remaining(),
    {
        let mut left: usize = 0;
        let mut i: usize = 0;
        proof {
            lemma_lit_grows(self@.cells.take(0));
        }
        while i < self.counts.len()
            invariant
                i <= self.counts.len(),
                left <= i,
                left == lit(self@.cells.take(i as int)).len(),
            decreases self.counts.len() - i,
        {
            proof {
                lemma_lit_grows(self@.cells.take(i + 1));
                assert(self@.cells.take(i + 1).drop_last() =~= self@.cells.take(i as int));
                assert(self@.cells.take(i + 1).last() == self.counts@[i as int]);
            }
            if self.counts[i] != 0 {
                left += 1;
            }
            i += 1;
        }
        assert(self@.cells.take(i as int) =~= self@.cells);
        left
    }

    /// Every tile with its coordinate, in row-major order.
    pub fn tiles(&self) -> (listed: Vec<Tile>)
        requires
            self.wf(),
        ensures
            listed@.len() == self@.cells.len(),
            forall|i: int|
                0 <= i < listed@.len() ==> {
                    &&& (#[trigger] listed@[i]).row == row_min(self@.size) + i / self@.size
                    &&& listed@[i].col == col_min(self@.size) + i % self@.size
                    &&& listed@[i].visit_count == self@.cells[i]
                    &&& self@.contains(listed@[i].row as int, listed@[i].col as int)
                    &&& cell_index(self@.size, listed@[i].row as int, listed@[i].col as int) == i
                },
    {
        let half: i32 = self.size / 2;
        let odd: i32 = self.size % 2;
        let side: usize = self.size as usize;
        let mut listed: Vec<Tile> = Vec::new();
        let mut i: usize = 0;
        while i < self.counts.len()
            invariant
                self.wf(),
                half == self@.size / 2,
                odd == self@.size % 2,
                side == self@.size,
                i <= self.counts.len(),
                listed@.len() == i,
                forall|k: int|
                    0 <= k < i ==> {
                        &&& (#[trigger] listed@[k]).row == row_min(self@.size) + k / self@.size
                        &&& listed@[k].col == col_min(self@.size) + k % self@.size
                        &&& listed@[k].visit_count == self@.cells[k]
                        &&& self@.contains(listed@[k].row as int, listed@[k].col as int)
                        &&& cell_index(self@.size, listed@[k].row as int, listed@[k].col as int)
                            == k
                    },
            decreases self.counts.len() - i,
        {
            let r: usize = i / side;
            let c: usize = i % side;
            proof {
                lemma_index_splits(self@.size, i as int);
            }
            let tile = Tile {
                row: r as i32 - half,
                col: c as i32 - half - (odd - 1),
                visit_count: self.counts[i],
            };
            listed.push(tile);
            i += 1;
        }
        listed
    }
}

/// An index below `size * size` splits into a row and a column of the range.
pub proof fn lemma_index_splits(size: int, index: int)
    requires
        0 < size,
        0 <= index < size * size,
    ensures
        0 <= index / size < size,
        0 <= index % size < size,
        (index / size) * size + index % size == index,
        in_range(size, row_min(size) + index / size, col_min(size) + index % size),
        cell_index(size, row_min(size) + index / size, col_min(size) + index % size) == index,
{
    assert(0 <= index / size < size && 0 <= index % size < size && (index / size) * size + index
        % size == index) by (nonlinear_arith)
        requires
            0 < size,
            0 <= index < size * size,
    ;
}

/// Fills a grid of the given side length with visit counts drawn from
/// `0..=colour_count`, after reseeding the generator with `seed`. The caller
/// picks the seed, usually from the clock.
///
/// Which counts come out is left open; the grid is well formed whatever was
/// drawn.
pub fn populate_grid(grid_size: i32, colour_count: i32, seed: u64) -> (grid: Grid)
    requires
        0 < grid_size,
        grid_size * grid_size <= usize::MAX,
        0 <= colour_count < i32::MAX,
    ensures
        grid.wf(),
        grid@.size == grid_size,
        grid@.colours == colour_count,
{
    let total: usize = (grid_size as usize) * (grid_size as usize);
    let mut counts: Vec<i32> = Vec::new();
    seed_generator(seed);
    while counts.len() < total
        invariant
            0 <= colour_count < i32::MAX,
            counts.len() <= total,
            forall|k: int| 0 <= k < counts.len() ==> 0 <= #[trigger] counts@[k] <= colour_count,
        decreases total - counts.len(),
    {
        let drawn = random_below(colour_count + 1);
        counts.push(drawn);
    }
    Grid { size: grid_size, colours: colour_count, counts }
}

/// Visiting a tile once more than there are colours brings every tile of the
/// grid back to the count it had.
pub proof fn lemma_toggle_cycles(grid: GridModel, row: int, col: int)
    requires
        grid.wf(),
        grid.contains(row, col),
    ensures
        grid.toggled_times(row, col, (grid.colours + 1) as nat) == grid,
        cycled(grid.visit_count(row, col), grid.colours, (grid.colours + 1) as nat)
            == grid.visit_count(row, col),
{
    lemma_cell_index_bounds(grid.size, row, col);
    let count = grid.visit_count(row, col);
    lemma_cycled_closed_form(count, grid.colours, (grid.colours + 1) as nat);
    lemma_toggled_times_cells(grid, row, col, (grid.colours + 1) as nat);
    assert(grid.toggled_times(row, col, (grid.colours + 1) as nat).cells =~= grid.cells);
}

/// After any number of visits a tile's count is its first count plus the
/// number of visits, modulo one more than the number of colours.
pub proof fn lemma_cycled_is_modular(count: int, colours: int, times: nat)
    requires
        0 <= count <= colours,
    ensures
        cycled(count, colours, times) == (count + times) % (colours + 1),
        0 <= cycled(count, colours, times) <= colours,
    decreases times,
{
    let m = colours + 1;
    if times == 0 {
        lemma_small_mod(count as nat, m as nat);
    } else {
        lemma_cycled_is_modular(count, colours, (times - 1) as nat);
        let a = count + times - 1;
        let x = a % m;
        lemma_mod_bound(a, m);
        lemma_add_mod_noop(a, 1, m);
        if m == 1 {
            assert(1int % m == 0);
            lemma_small_mod(0, m as nat);
        } else {
            lemma_small_mod(1, m as nat);
            if x < colours {
                lemma_small_mod((x + 1) as nat, m as nat);
            } else {
                lemma_mod_self_0(m);
            }
        }
    }
}

/// A tile that has been visited any number of times holds its first count
/// plus the number of visits, modulo one more than the number of colours;
/// every other tile holds what it held.
pub proof fn lemma_visits_count_modulo(
    grid: GridModel,
    row: int,
    col: int,
    times: nat,
    other_row: int,
    other_col: int,
)
    requires
        grid.wf(),
        grid.contains(row, col),
        grid.contains(other_row, other_col),
    ensures
        grid.toggled_times(row, col, times).wf(),
        grid.toggled_times(row, col, times).visit_count(row, col) == (grid.visit_count(row, col)
            + times) % (grid.colours + 1),
        (other_row, other_col) != (row, col) ==> grid.toggled_times(row, col, times).visit_count(
            other_row,
            other_col,
        ) == grid.visit_count(other_row, other_col),
{
    lemma_cell_index_bounds(grid.size, row, col);
    lemma_cell_index_bounds(grid.size, other_row, other_col);
    lemma_toggled_times_cells(grid, row, col, times);
    lemma_cycled_is_modular(grid.visit_count(row, col), grid.colours, times);
    if (other_row, other_col) != (row, col) && cell_index(grid.size, other_row, other_col)
        == cell_index(grid.size, row, col) {
        lemma_cell_index_injective(grid.size, other_row, other_col, row, col);
    }
}

/// The origin, where every session begins, is a tile of every grid.
pub proof fn lemma_origin_is_on_grid(size: int)
    requires
        0 < size,
    ensures
        in_range(size, 0, 0),
{
}

/// Within one cycle the count climbs to the last colour and then starts
/// again from zero.
pub proof fn lemma_cycled_closed_form(count: int, colours: int, times: nat)
    requires
        0 <= count <= colours,
        times <= colours + 1,
    ensures
        cycled(count, colours, times) == if times <= colours - count {
            count + times
        } else {
            times - (colours - count) - 1
        },
    decreases times,
{
    if times > 0 {
        lemma_cycled_closed_form(count, colours, (times - 1) as nat);
    }
}

/// Repeated visits to one tile change that tile alone.
pub proof fn lemma_toggled_times_cells(grid: GridModel, row: int, col: int, times: nat)
    requires
        grid.wf(),
        grid.contains(row, col),
    ensures
        grid.toggled_times(row, col, times).size == grid.size,
        grid.toggled_times(row, col, times).colours == grid.colours,
        grid.toggled_times(row, col, times).cells == grid.cells.update(
            cell_index(grid.size, row, col),
            cycled(grid.visit_count(row, col), grid.colours, times),
        ),
    decreases times,
{
    lemma_cell_index_bounds(grid.size, row, col);
    let index = cell_index(grid.size, row, col);
    if times == 0 {
        assert(grid.cells =~= grid.cells.update(index, grid.cells[index]));
    } else {
        lemma_toggled_times_cells(grid, row, col, (times - 1) as nat);
        let before = grid.toggled_times(row, col, (times - 1) as nat);
        assert(before.toggled(row, col).cells =~= grid.cells.update(
            index,
            cycled(grid.visit_count(row, col), grid.colours, times),
        ));
    }
}

/// A visit to one tile rewrites that tile's entry of the mapping and no
/// other.
pub proof fn lemma_toggled_tiles(grid: GridModel, row: int, col: int)
    requires
        grid.wf(),
        grid.contains(row, col),
    ensures
        grid.toggled(row, col).wf(),
        grid.toggled(row, col).tiles() == grid.tiles().insert(
            (row, col),
            next_count(grid.visit_count(row, col), grid.colours),
        ),
{
    lemma_cell_index_bounds(grid.size, row, col);
    let after = grid.toggled(row, col);
    let expected = grid.tiles().insert(
        (row, col),
        next_count(grid.visit_count(row, col), grid.colours),
    );
    assert forall|p: (int, int)| after.tiles().dom().contains(p) implies #[trigger] after.tiles()[p]
        == expected[p] by {
        lemma_cell_index_bounds(grid.size, p.0, p.1);
        if p != (row, col) {
            if cell_index(grid.size, p.0, p.1) == cell_index(grid.size, row, col) {
                lemma_cell_index_injective(grid.size, p.0, p.1, row, col);
            }
        }
    }
    assert(after.tiles() =~= expected);
}

/// With a single colour, visiting every tile exactly once turns each lit
/// tile off and each cleared tile on: as many tiles remain afterwards as
/// were cleared before. A grid whose tiles were all lit is left with none.
pub proof fn lemma_single_colour_sweep(before: GridModel, after: GridModel)
    requires
        before.wf(),
        before.colours == 1,
        after.size == before.size,
        after.colours == before.colours,
        after.cells.len() == before.cells.len(),
        forall|row: int, col: int| #[trigger]
            before.contains(row, col) ==> after.visit_count(row, col) == next_count(
                before.visit_count(row, col),
                before.colours,
            ),
    ensures
        after.wf(),
        after.remaining() + before.remaining() == before.cells.len(),
        before.remaining() == before.cells.len() ==> after.remaining() == 0,
{
    assert forall|i: int| 0 <= i < before.cells.len() implies after.cells[i] == next_count(
        #[trigger] before.cells[i],
        1,
    ) by {
        lemma_index_splits(before.size, i);
        let row = row_min(before.size) + i / before.size;
        let col = col_min(before.size) + i % before.size;
        assert(before.contains(row, col));
    }
    lemma_flipped_counts(before.cells, after.cells);
    assert forall|i: int| 0 <= i < after.cells.len() implies 0 <= #[trigger] after.cells[i]
        <= after.colours by {
        assert(after.cells[i] == next_count(before.cells[i], before.colours));
    }
}

/// The lit counts of a sequence are those of all but its last entry, and
/// the last entry if it is lit.
proof fn lemma_lit_grows(cells: Seq<int>)
    ensures
        cells.len() == 0 ==> lit(cells).len() == 0,
        cells.len() > 0 ==> lit(cells).len() == lit(cells.drop_last()).len() + if cells.last()
            != 0 {
            1nat
        } else {
            0nat
        },
{
    reveal(Seq::filter);
}

proof fn lemma_flipped_counts(before: Seq<int>, after: Seq<int>)
    requires
        before.len() == after.len(),
        forall|i: int| 0 <= i < before.len() ==> 0 <= #[trigger] before[i] <= 1,
        forall|i: int| 0 <= i < before.len() ==> after[i] == next_count(#[trigger] before[i], 1),
    ensures
        lit(after).len() + lit(before).len() == before.len(),
    decreases before.len(),
{
    lemma_lit_grows(before);
    lemma_lit_grows(after);
    if before.len() > 0 {
        let last = before.len() - 1;
        assert(0 <= before[last] <= 1);
        assert(after[last] == next_count(before[last], 1));
        assert forall|i: int| 0 <= i < before.drop_last().len() implies after.drop_last()[i]
            == next_count(#[trigger] before.drop_last()[i], 1) by {
            assert(after[i] == next_count(before[i], 1));
        }
        assert forall|i: int| 0 <= i < before.drop_last().len() implies 0
            <= #[trigger] before.drop_last()[i] <= 1 by {
            assert(0 <= before[i] <= 1);
        }
        lemma_flipped_counts(before.drop_last(), after.drop_last());
    }
}

} // verus!
