use vstd::prelude::*;

use crate::collider::ColliderKind;
use crate::constants::COORD_LIMIT;
use crate::geometry::Pos;

verus! {

/// The most cells a grid may hold.
pub const MAX_GRID_CELLS: usize = 16_777_216;

/// One entity as the grid saw it this tick.
#[derive(Clone, Copy, Debug, PartialEq, Eq, Structural)]
pub struct GridEntry {
    pub entity: u64,
    pub kind: ColliderKind,
    pub pos: Pos,
}

/// A uniform grid over the visible field. Cell `(x, y)` is stored at
/// `x * rows + y` and covers field-local points `[x, x + 1) * grid_size` by
/// `[y, y + 1) * grid_size`.
#[derive(Debug)]
pub struct Grid {
    pub cells: Vec<Vec<GridEntry>>,
    pub grid_size: i64,
    pub field_width: i64,
    pub field_height: i64,
    pub columns: usize,
    pub rows: usize,
}

pub open spec fn ceil_div(a: int, b: int) -> int {
    (a + b - 1) / b
}

pub open spec fn dims_ok(field_width: int, field_height: int, grid_size: int) -> bool {
    &&& 0 < field_width <= COORD_LIMIT
    &&& 0 < field_height <= COORD_LIMIT
    &&& 0 < grid_size <= COORD_LIMIT
}

/// The cell that holds the field-local point `(lx, ly)`, or `None` when the point
/// lies outside the grid.
pub open spec fn cell_spec(columns: int, rows: int, grid_size: int, lx: int, ly: int) -> Option<
    (int, int),
> {
    if 0 <= lx && 0 <= ly && lx / grid_size < columns && ly / grid_size < rows {
        Some((lx / grid_size, ly / grid_size))
    } else {
        None
    }
}

impl Grid {
    pub open spec fn wf(self) -> bool {
        &&& dims_ok(self.field_width as int, self.field_height as int, self.grid_size as int)
        &&& self.columns == ceil_div(self.field_width as int, self.grid_size as int)
        &&& self.rows == ceil_div(self.field_height as int, self.grid_size as int)
        &&& self.columns * self.rows == self.cells@.len()
        &&& self.cells@.len() <= MAX_GRID_CELLS
        &&& self.columns <= MAX_GRID_CELLS
        &&& 0 < self.rows <= MAX_GRID_CELLS
    }

    /// Field-local coordinates of `p` for a camera at `camera`: the view's lower
    /// left corner is `(0, 0)`.
    pub open spec fn local(self, camera: Pos, p: Pos) -> (int, int) {
        (p.x - camera.x + self.field_width / 2, p.y - camera.y + self.field_height / 2)
    }

    pub open spec fn placement(self, camera: Pos, p: Pos) -> Option<(int, int)> {
        let (lx, ly) = self.local(camera, p);
        cell_spec(self.columns as int, self.rows as int, self.grid_size as int, lx, ly)
    }

    pub open spec fn flat(self, c: (int, int)) -> int {
        c.0 * self.rows + c.1
    }

    /// The flat index of the cell that holds `p`, if any.
    pub open spec fn flat_placement(self, camera: Pos, p: Pos) -> Option<int> {
        match self.placement(camera, p) {
            Some(c) => Some(self.flat(c)),
            None => None,
        }
    }

    /// Holds for the entries that belong in cell `c`.
    pub open spec fn in_cell(self, camera: Pos, c: int) -> spec_fn(GridEntry) -> bool {
        |e: GridEntry| self.flat_placement(camera, e.pos) == Some(c)
    }

    /// Every entry stored in the grid has a position in range.
    pub open spec fn entries_wf(self) -> bool {
        forall|c: int, j: int|
            0 <= c < self.cells@.len() && 0 <= j < self.cells@[c]@.len() ==> (#[trigger] self.cells@[c]@[j]).pos.wf()
    }

    pub open spec fn same_shape(self, other: Grid) -> bool {
        &&& self.grid_size == other.grid_size
        &&& self.field_width == other.field_width
        &&& self.field_height == other.field_height
        &&& self.columns == other.columns
        &&& self.rows == other.rows
        &&& self.cells@.len() == other.cells@.len()
    }
}

pub proof fn lemma_flat_in_range(columns: int, rows: int, x: int, y: int)
    requires
        0 <= x < columns,
        0 <= y < rows,
    ensures
        0 <= x * rows + y < columns * rows,
{
    assert(0 <= x * rows + y < columns * rows) by (nonlinear_arith)
        requires
            0 <= x < columns,
            0 <= y < rows,
    ;
}

/// Columns and rows of a grid with cells of side `grid_size` over a field of
/// `field_width` by `field_height`, rounded up so that the whole field is covered.
pub fn grid_dimensions(field_width: i64, field_height: i64, grid_size: i64) -> (r: (u64, u64))
    requires
        dims_ok(field_width as int, field_height as int, grid_size as int),
    ensures
        r.0 == ceil_div(field_width as int, grid_size as int),
        r.1 == ceil_div(field_height as int, grid_size as int),
{
    let columns: i64 = (field_width + grid_size - 1) / grid_size;
    let rows: i64 = (field_height + grid_size - 1) / grid_size;
    proof {
        vstd::arithmetic::div_mod::lemma_div_is_ordered(
            0,
            (field_width + grid_size - 1) as int,
            grid_size as int,
        );
        vstd::arithmetic::div_mod::lemma_div_is_ordered(
            0,
            (field_height + grid_size - 1) as int,
            grid_size as int,
        );
        vstd::arithmetic::div_mod::lemma_div_is_ordered_by_denominator(
            (field_width + grid_size - 1) as int,
            1,
            grid_size as int,
        );
        vstd::arithmetic::div_mod::lemma_div_is_ordered_by_denominator(
            (field_height + grid_size - 1) as int,
            1,
            grid_size as int,
        );
    }
    (columns as u64, rows as u64)
}

impl Grid {
    /// An empty grid over the field, or `None` when it would need more than
    /// `MAX_GRID_CELLS` cells.
    pub fn new(field_width: i64, field_height: i64, grid_size: i64) -> (r: Option<Grid>)
        requires
            dims_ok(field_width as int, field_height as int, grid_size as int),
        ensures
            r is None <==> ceil_div(field_width as int, grid_size as int) * ceil_div(
                field_height as int,
                grid_size as int,
            ) > MAX_GRID_CELLS,
            r matches Some(g) ==> {
                &&& g.wf()
                &&& g.grid_size == grid_size
                &&& g.field_width == field_width
                &&& g.field_height == field_height
                &&& forall|c: int| 0 <= c < g.cells@.len() ==> (#[trigger] g.cells@[c])@.len() == 0
            },
    {
        let (columns, rows) = grid_dimensions(field_width, field_height, grid_size);
        proof {
            vstd::arithmetic::div_mod::lemma_div_is_ordered(
                grid_size as int,
                (field_height + grid_size - 1) as int,
                grid_size as int,
            );
            vstd::arithmetic::div_mod::lemma_div_is_ordered(
                grid_size as int,
                (field_width + grid_size - 1) as int,
                grid_size as int,
            );
            vstd::arithmetic::div_mod::lemma_div_basics(grid_size as int);
        }
        if columns > MAX_GRID_CELLS as u64 / rows {
            proof {
                vstd::arithmetic::div_mod::lemma_fundamental_div_mod(MAX_GRID_CELLS as int, rows as int);
                let q = MAX_GRID_CELLS as int / rows as int;
                let m = MAX_GRID_CELLS as int % rows as int;
                assert(columns * rows > MAX_GRID_CELLS) by (nonlinear_arith)
                    requires
                        columns >= q + 1,
                        rows > 0,
                        MAX_GRID_CELLS == rows * q + m,
                        m < rows,
                ;
            }
            return None;
        }
        proof {
            vstd::arithmetic::div_mod::lemma_fundamental_div_mod(MAX_GRID_CELLS as int, rows as int);
            let q = MAX_GRID_CELLS as int / rows as int;
            let m = MAX_GRID_CELLS as int % rows as int;
            assert(columns * rows <= MAX_GRID_CELLS && columns <= MAX_GRID_CELLS && rows
                <= MAX_GRID_CELLS) by (nonlinear_arith)
                requires
                    columns <= q,
                    columns >= 1,
                    rows > 0,
                    MAX_GRID_CELLS == rows * q + m,
                    0 <= m,
            ;
        }
        let total: usize = (columns * rows) as usize;
        let columns: usize = columns as usize;
        let rows: usize = rows as usize;
        let mut cells: Vec<Vec<GridEntry>> = Vec::new();
        let mut i: usize = 0;
        while i < total
            invariant
                i <= total,
                cells@.len() == i,
                forall|c: int| 0 <= c < i ==> (#[trigger] cells@[c])@.len() == 0,
            decreases total - i,
        {
            cells.push(Vec::new());
            i = i + 1;
        }
        Some(Grid { cells, grid_size, field_width, field_height, columns, rows })
    }

    /// The cell that holds the field-local point `(local_x, local_y)`. A point
    /// outside the field lands in no cell.
    pub fn cell_index(&self, local_x: i64, local_y: i64) -> (r: Option<(usize, usize)>)
        requires
            self.wf(),
        ensures
            r matches Some(c) ==> c.0 < self.columns && c.1 < self.rows,
            r matches Some(c) ==> cell_spec(
                self.columns as int,
                self.rows as int,
                self.grid_size as int,
                local_x as int,
                local_y as int,
            ) == Some((c.0 as int, c.1 as int)),
            r is None ==> cell_spec(
                self.columns as int,
                self.rows as int,
                self.grid_size as int,
                local_x as int,
                local_y as int,
            ) is None,
    {
        if local_x < 0 || local_y < 0 {
            return None;
        }
        let grid_x: i64 = local_x / self.grid_size;
        let grid_y: i64 = local_y / self.grid_size;
        if grid_x >= self.columns as i64 || grid_y >= self.rows as i64 {
            return None;
        }
        Some((grid_x as usize, grid_y as usize))
    }

    /// The cell that holds the entity at `pos`, seen from a camera at `camera`.
    pub fn position_cell(&self, camera: Pos, pos: Pos) -> (r: Option<(usize, usize)>)
        requires
            self.wf(),
            camera.camera_ok(),
            pos.wf(),
        ensures
            r matches Some(c) ==> c.0 < self.columns && c.1 < self.rows,
            r matches Some(c) ==> self.placement(camera, pos) == Some((c.0 as int, c.1 as int)),
            r is None ==> self.placement(camera, pos) is None,
    {
        let local_x: i64 = pos.x - camera.x + self.field_width / 2;
        let local_y: i64 = pos.y - camera.y + self.field_height / 2;
        self.cell_index(local_x, local_y)
    }

    /// Empties every cell.
    pub fn clear(&mut self)
        requires
            old(self).wf(),
        ensures
            final(self).wf(),
            final(self).same_shape(*old(self)),
            forall|c: int| 0 <= c < final(self).cells@.len() ==> (#[trigger] final(self).cells@[c])@.len() == 0,
    {
        let n: usize = self.cells.len();
        let mut i: usize = 0;
        while i < n
            invariant
                i <= n,
                self.wf(),
                self.same_shape(*old(self)),
                n == self.cells@.len(),
                forall|c: int| 0 <= c < i ==> (#[trigger] self.cells@[c])@.len() == 0,
            decreases n - i,
        {
            self.cells.set(i, Vec::new());
            i = i + 1;
        }
    }

    /// Appends `entry` to the cell at flat index `index`.
    fn push_entry(&mut self, index: usize, entry: GridEntry)
        requires
            old(self).wf(),
            index < old(self).cells@.len(),
        ensures
            final(self).wf(),
            final(self).same_shape(*old(self)),
            forall|c: int|
                0 <= c < final(self).cells@.len() && c != index ==> #[trigger] final(self).cells@[c]
                    == old(self).cells@[c],
            final(self).cells@[index as int]@ == old(self).cells@[index as int]@.push(entry),
    {
        let mut cell: Vec<GridEntry> = self.cells.remove(index);
        cell.push(entry);
        self.cells.insert(index, cell);
    }

    /// Rebuilds the grid from this tick's entities: afterwards each cell holds,
    /// in their order, exactly the entries whose position falls in it.
    pub fn update_grid(&mut self, camera: Pos, entries: &Vec<GridEntry>)
        requires
            old(self).wf(),
            camera.camera_ok(),
            forall|i: int| 0 <= i < entries@.len() ==> (#[trigger] entries@[i]).pos.wf(),
        ensures
            final(self).wf(),
            final(self).same_shape(*old(self)),
            final(self).entries_wf(),
            forall|c: int|
                0 <= c < final(self).cells@.len() ==> (#[trigger] final(self).cells@[c])@
                    == entries@.filter(old(self).in_cell(camera, c)),
    {
        self.clear();
        let ghost g0 = *old(self);
        let n: usize = entries.len();
        let mut i: usize = 0;
        while i < n
            invariant
                i <= n,
                n == entries@.len(),
                self.wf(),
                self.same_shape(g0),
                g0.wf(),
                camera.camera_ok(),
                forall|k: int| 0 <= k < entries@.len() ==> (#[trigger] entries@[k]).pos.wf(),
                forall|c: int|
                    0 <= c < self.cells@.len() ==> (#[trigger] self.cells@[c])@
                        == entries@.take(i as int).filter(g0.in_cell(camera, c)),
            decreases n - i,
        {
            let entry: GridEntry = entries[i];
            let placed = self.position_cell(camera, entry.pos);
            proof {
                assert(entries@.take(i + 1) == entries@.take(i as int).push(entry));
                assert forall|c: int| #[trigger] g0.in_cell(camera, c)(entry) == (g0.flat_placement(camera, entry.pos) == Some(c)) by {}
            }
            match placed {
                Some((x, y)) => {
                    proof {
                        lemma_flat_in_range(self.columns as int, self.rows as int, x as int, y as int);
                    }
                    let index: usize = x * self.rows + y;
                    self.push_entry(index, entry);
                    proof {
                        assert forall|c: int| 0 <= c < self.cells@.len() implies (#[trigger] self.cells@[c])@
                            == entries@.take(i + 1).filter(g0.in_cell(camera, c)) by {
                            entries@.take(i as int).lemma_filter_push(entry, g0.in_cell(camera, c));
                        }
                    }
                },
                None => {
                    proof {
                        assert forall|c: int| 0 <= c < self.cells@.len() implies (#[trigger] self.cells@[c])@
                            == entries@.take(i + 1).filter(g0.in_cell(camera, c)) by {
                            entries@.take(i as int).lemma_filter_push(entry, g0.in_cell(camera, c));
                        }
                    }
                },
            }
            i = i + 1;
        }
        proof {
            assert(entries@.take(n as int) == entries@);
            assert forall|c: int, j: int|
                0 <= c < self.cells@.len() && 0 <= j < self.cells@[c]@.len() implies (#[trigger] self.cells@[c]@[j]).pos.wf() by {
                let f = entries@.filter(g0.in_cell(camera, c));
                assert(f.contains(f[j]));
                entries@.lemma_filter_contains_rev(g0.in_cell(camera, c), f[j]);
            }
        }
    }
}

} // verus!
