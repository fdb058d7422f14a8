use vstd::prelude::*;
use vstd::arithmetic::mul::lemma_mul_inequality;
use vstd::arithmetic::mul::lemma_mul_is_distributive_sub_other_way;
use vstd::pervasive::VecAdditionalExecFns;
use crate::vec3::Vec3;

verus! {

/// Width of one grid cell in world units (pixels).
pub const CELL_WIDTH: i64 = 32;

/// Height of one grid cell in world units (pixels).
pub const CELL_HEIGHT: i64 = 32;

/// Largest grid dimension the motion entry points accept; keeps the snap
/// arithmetic inside `i64`.
pub const MAX_DIM: usize = 0x1000_0000;

/// Marker for a wall entity spawned by the host when it reads the level text.
pub struct Wall;

/// The static tile map: a row-major grid of wall occupancy, fixed after the
/// level is loaded.
pub struct Level {
    width: usize,
    height: usize,
    walls: Vec<bool>,
}

impl Level {
    pub closed spec fn spec_width(self) -> int {
        self.width as int
    }

    pub closed spec fn spec_height(self) -> int {
        self.height as int
    }

    /// Row-major index of the cell in column `x`, row `y`.
    pub open spec fn spec_index(self, x: int, y: int) -> int {
        y * self.spec_width() + x
    }

    pub closed spec fn walls_view(self) -> Seq<bool> {
        self.walls@
    }

    pub closed spec fn wf(self) -> bool {
        &&& self.walls@.len() == self.width * self.height
        &&& self.width * self.height <= usize::MAX
    }

    pub open spec fn in_bounds(self, x: int, y: int) -> bool {
        0 <= x < self.spec_width() && 0 <= y < self.spec_height()
    }

    pub open spec fn wall_at(self, x: int, y: int) -> bool {
        self.walls_view()[self.spec_index(x, y)]
    }

    /// An all-clear grid of the given dimensions.
    pub fn new(width: usize, height: usize) -> (l: Level)
        requires
            width * height <= usize::MAX,
        ensures
            l.wf(),
            l.spec_width() == width,
            l.spec_height() == height,
            forall|x: int, y: int| l.in_bounds(x, y) ==> !l.wall_at(x, y),
    {
        let count: usize = width * height;
        let mut walls: Vec<bool> = Vec::new();
        let mut i: usize = 0;
        while i < count
            invariant
                i <= count,
                walls@.len() == i,
                forall|k: int| 0 <= k < i ==> !walls@[k],
            decreases count - i,
        {
            walls.push(false);
            i = i + 1;
        }
        let l = Level { width, height, walls };
        proof {
            assert forall|x: int, y: int| l.in_bounds(x, y) implies !l.wall_at(x, y) by {
                lemma_index_in_range(l, x, y);
            }
        }
        l
    }

    pub fn width(&self) -> (w: usize)
        ensures
            w as int == self.spec_width(),
    {
        self.width
    }

    pub fn height(&self) -> (h: usize)
        ensures
            h as int == self.spec_height(),
    {
        self.height
    }

    /// Row-major index of cell (x, y); the coordinates must lie on the grid.
    pub fn xy_to_index(&self, x: usize, y: usize) -> (i: usize)
        requires
            self.wf(),
            self.in_bounds(x as int, y as int),
        ensures
            i as int == self.spec_index(x as int, y as int),
            (i as int) < self.spec_width() * self.spec_height(),
    {
        proof {
            lemma_index_in_range(*self, x as int, y as int);
        }
        y * self.width + x
    }

    /// Marks the cell (x, y) as a wall; walls are write-once, never cleared.
    pub fn set_wall(&mut self, x: usize, y: usize)
        requires
            old(self).wf(),
            old(self).in_bounds(x as int, y as int),
        ensures
            final(self).wf(),
            final(self).spec_width() == old(self).spec_width(),
            final(self).spec_height() == old(self).spec_height(),
            final(self).walls_view() == old(self).walls_view().update(
                old(self).spec_index(x as int, y as int),
                true,
            ),
            final(self).wall_at(x as int, y as int),
            forall|i: int, j: int|
                old(self).in_bounds(i, j) && !(i == x as int && j == y as int)
                    ==> final(self).wall_at(i, j) == old(self).wall_at(i, j),
    {
        let index = self.xy_to_index(x, y);
        self.walls.set(index, true);
        proof {
            assert forall|i: int, j: int|
                old(self).in_bounds(i, j) && !(i == x as int && j == y as int)
                    implies final(self).wall_at(i, j) == old(self).wall_at(i, j) by {
                lemma_index_in_range(*old(self), i, j);
                if old(self).spec_index(i, j) == old(self).spec_index(x as int, y as int) {
                    lemma_index_injective(*old(self), i, j, x as int, y as int);
                }
            }
        }
    }

    /// Whether the cell (x, y) holds a wall.
    pub fn is_wall(&self, x: usize, y: usize) -> (r: bool)
        requires
            self.wf(),
            self.in_bounds(x as int, y as int),
        ensures
            r == self.wall_at(x as int, y as int),
    {
        let index = self.xy_to_index(x, y);
        self.walls[index]
    }
}

/// On the grid, the row-major index stays inside the wall sequence.
pub proof fn lemma_index_in_range(l: Level, x: int, y: int)
    requires
        l.in_bounds(x, y),
    ensures
        0 <= l.spec_index(x, y) < l.spec_width() * l.spec_height(),
{
    let w = l.spec_width();
    let h = l.spec_height();
    lemma_mul_inequality(y, h - 1, w);
    lemma_mul_is_distributive_sub_other_way(w, h, 1);
    assert(y * w >= 0) by (nonlinear_arith)
        requires
            y >= 0,
            w > 0,
    ;
}

/// Index bijection: within the grid, the row-major index determines the cell.
pub proof fn lemma_index_injective(l: Level, x1: int, y1: int, x2: int, y2: int)
    requires
        l.in_bounds(x1, y1),
        l.in_bounds(x2, y2),
        l.spec_index(x1, y1) == l.spec_index(x2, y2),
    ensures
        x1 == x2,
        y1 == y2,
{
    let w = l.spec_width();
    assert(y1 == y2 && x1 == x2) by (nonlinear_arith)
        requires
            0 <= x1 < w,
            0 <= x2 < w,
            y1 * w + x1 == y2 * w + x2,
    ;
}

/// Wall updates commute: marking (x1, y1) and then (x2, y2) leaves the same
/// grid as marking them in the other order.
pub proof fn lemma_set_wall_commutes(l: Level, x1: int, y1: int, x2: int, y2: int)
    requires
        l.wf(),
        l.in_bounds(x1, y1),
        l.in_bounds(x2, y2),
    ensures
        l.walls_view().update(l.spec_index(x1, y1), true).update(l.spec_index(x2, y2), true)
            =~= l.walls_view().update(l.spec_index(x2, y2), true).update(l.spec_index(x1, y1), true),
{
    lemma_index_in_range(l, x1, y1);
    lemma_index_in_range(l, x2, y2);
}

/// World position of the cell in text column `i`, row `j`: rows of the level
/// text grow downward while world Y grows upward.
pub fn row_col_to_world(i: usize, j: usize) -> (v: Vec3)
    requires
        i <= MAX_DIM,
        j <= MAX_DIM,
    ensures
        v.x == i as int * CELL_WIDTH,
        v.y == -(j as int * CELL_HEIGHT),
        v.z == 0,
{
    Vec3 { x: (i as i64) * CELL_WIDTH, y: -((j as i64) * CELL_HEIGHT), z: 0 }
}

} // verus!
