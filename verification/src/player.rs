use vstd::prelude::*;
use vstd::arithmetic::div_mod::{lemma_fundamental_div_mod, lemma_mod_division_less_than_divisor};
use crate::level::{CELL_HEIGHT, CELL_WIDTH};
use crate::vec3::{spec_abs, Vec3, MAX_WORLD};

verus! {

/// Player movement speed, in world units per second.
pub const PLAYER_SPEED: u64 = 100;

/// Marker for the player entity.
pub struct Player;

/// Movement speed of an entity, in world units per second.
pub struct Speed(pub u64);

/// The four directions an entity can travel in.
#[derive(Clone, Copy, Debug, PartialEq, Eq, Structural)]
pub enum MoveDirection {
    Up,
    Down,
    Left,
    Right,
}

impl MoveDirection {
    /// The unit vector of this direction: world Y grows upward, so `Up` is +Y.
    pub open spec fn spec_to_vec3(self) -> Vec3 {
        match self {
            MoveDirection::Up => (Vec3 { x: 0, y: 1, z: 0 }),
            MoveDirection::Down => (Vec3 { x: 0, y: -1i64, z: 0 }),
            MoveDirection::Left => (Vec3 { x: -1i64, y: 0, z: 0 }),
            MoveDirection::Right => (Vec3 { x: 1, y: 0, z: 0 }),
        }
    }

    pub fn to_vec3(self) -> (v: Vec3)
        ensures
            v == self.spec_to_vec3(),
    {
        match self {
            MoveDirection::Up => Vec3 { x: 0, y: 1, z: 0 },
            MoveDirection::Down => Vec3 { x: 0, y: -1, z: 0 },
            MoveDirection::Left => Vec3 { x: -1, y: 0, z: 0 },
            MoveDirection::Right => Vec3 { x: 1, y: 0, z: 0 },
        }
    }

    /// Whether `other` is the exact reversal of this direction.
    pub open spec fn spec_is_opposite(self, other: MoveDirection) -> bool {
        match (self, other) {
            (MoveDirection::Up, MoveDirection::Down) => true,
            (MoveDirection::Down, MoveDirection::Up) => true,
            (MoveDirection::Left, MoveDirection::Right) => true,
            (MoveDirection::Right, MoveDirection::Left) => true,
            _ => false,
        }
    }

    pub fn is_opposite(&self, other: &MoveDirection) -> (r: bool)
        ensures
            r == self.spec_is_opposite(*other),
    {
        match (self, other) {
            (MoveDirection::Up, MoveDirection::Down) => true,
            (MoveDirection::Down, MoveDirection::Up) => true,
            (MoveDirection::Left, MoveDirection::Right) => true,
            (MoveDirection::Right, MoveDirection::Left) => true,
            _ => false,
        }
    }
}

/// Direction opposition pairs Left with Right and Up with Down, and nothing
/// else: it is symmetric, no direction opposes itself, and two directions are
/// opposite exactly when their unit vectors cancel.
pub proof fn lemma_opposite(a: MoveDirection, b: MoveDirection)
    ensures
        a.spec_is_opposite(b) == b.spec_is_opposite(a),
        !a.spec_is_opposite(a),
        a.spec_is_opposite(b) <==> {
            &&& a.spec_to_vec3().x + b.spec_to_vec3().x == 0
            &&& a.spec_to_vec3().y + b.spec_to_vec3().y == 0
        },
{
}

/// The single pending direction change: each new request overwrites the slot,
/// so only the most recent one survives.
#[derive(Clone, Copy, Debug)]
pub struct NextDirection(Option<MoveDirection>);

impl NextDirection {
    pub closed spec fn pending(self) -> Option<MoveDirection> {
        self.0
    }

    /// Overwrites the slot; `None` (an unrecognized key) clears it.
    pub fn request(&mut self, dir: Option<MoveDirection>)
        ensures
            final(self).pending() == dir,
    {
        self.0 = dir;
    }

    pub fn peek(&self) -> (d: Option<MoveDirection>)
        ensures
            d == self.pending(),
    {
        self.0
    }
}

impl Default for NextDirection {
    fn default() -> (d: NextDirection)
        ensures
            d.pending() == None::<MoveDirection>,
    {
        NextDirection(None)
    }
}

/// The identity of a pressed key, as far as the simulation cares; every key
/// other than the four movement keys counts as `Other`.
#[derive(Clone, Copy, Debug, PartialEq, Eq, Structural)]
pub enum GameKey {
    W,
    A,
    S,
    D,
    Other,
}

/// One keyboard event the host captured since the previous tick.
#[derive(Clone, Copy, Debug)]
pub struct KeyEvent {
    pub pressed: bool,
    pub key: GameKey,
}

pub open spec fn spec_direction_for_key(k: GameKey) -> Option<MoveDirection> {
    match k {
        GameKey::W => Some(MoveDirection::Up),
        GameKey::S => Some(MoveDirection::Down),
        GameKey::A => Some(MoveDirection::Left),
        GameKey::D => Some(MoveDirection::Right),
        GameKey::Other => None,
    }
}

pub fn direction_for_key(k: GameKey) -> (d: Option<MoveDirection>)
    ensures
        d == spec_direction_for_key(k),
{
    match k {
        GameKey::W => Some(MoveDirection::Up),
        GameKey::S => Some(MoveDirection::Down),
        GameKey::A => Some(MoveDirection::Left),
        GameKey::D => Some(MoveDirection::Right),
        GameKey::Other => None,
    }
}

/// The pending slot after draining `events` in arrival order on top of `init`:
/// every pressed event overwrites the slot (last writer wins, an unrecognized
/// key clears it), releases are ignored.
pub open spec fn spec_drained(events: Seq<KeyEvent>, init: Option<MoveDirection>) -> Option<
    MoveDirection,
>
    decreases events.len(),
{
    if events.len() == 0 {
        init
    } else {
        let e = events.last();
        if e.pressed {
            spec_direction_for_key(e.key)
        } else {
            spec_drained(events.drop_last(), init)
        }
    }
}

/// Feeds one tick's keyboard events into the pending-direction slot.
pub fn drain_input(events: &Vec<KeyEvent>, next: &mut NextDirection)
    ensures
        final(next).pending() == spec_drained(events@, old(next).pending()),
{
    let ghost init = old(next).pending();
    let mut idx: usize = 0;
    while idx < events.len()
        invariant
            idx <= events@.len(),
            next.pending() == spec_drained(events@.take(idx as int), init),
        decreases events@.len() - idx,
    {
        let e = events[idx];
        if e.pressed {
            next.0 = direction_for_key(e.key);
        }
        proof {
            let pre = events@.take(idx as int);
            let post = events@.take(idx + 1);
            assert(post.last() == events@[idx as int]);
            assert(post.drop_last() =~= pre);
        }
        idx = idx + 1;
    }
    proof {
        assert(events@.take(events@.len() as int) =~= events@);
    }
}

/// A derived, observational grid coordinate: the cell nearest to a world
/// position.
#[derive(Clone, Copy, Debug, PartialEq, Eq, Structural)]
pub struct GridPosition {
    pub x: i32,
    pub y: i32,
}

impl Default for GridPosition {
    fn default() -> (g: GridPosition)
        ensures
            g.x == 0,
            g.y == 0,
    {
        GridPosition { x: 0, y: 0 }
    }
}

/// World position of the center of a grid cell (the host's debug overlay
/// places its marker there).
pub fn grid_to_world(g: &GridPosition) -> (v: Vec3)
    ensures
        v.x == g.x as int * CELL_WIDTH,
        v.y == g.y as int * CELL_HEIGHT,
        v.z == 0,
{
    Vec3 { x: (g.x as i64) * CELL_WIDTH, y: (g.y as i64) * CELL_HEIGHT, z: 0 }
}

/// The grid coordinate nearest to a world coordinate: round to nearest, ties
/// away from zero.
pub open spec fn spec_round_to_cell(v: int, cell: int) -> int {
    if v >= 0 {
        (v + cell / 2) / cell
    } else {
        -((-v + cell / 2) / cell)
    }
}

/// The cell nearest to a world position, recomputed from the continuous
/// position every tick.
pub fn world_to_grid(p: &Vec3) -> (g: GridPosition)
    requires
        -MAX_WORLD <= p.x <= MAX_WORLD,
        -MAX_WORLD <= p.y <= MAX_WORLD,
    ensures
        g.x as int == spec_round_to_cell(p.x as int, CELL_WIDTH as int),
        g.y as int == spec_round_to_cell(p.y as int, CELL_HEIGHT as int),
{
    let x: i64 = if p.x >= 0 {
        (p.x + CELL_WIDTH / 2) / CELL_WIDTH
    } else {
        -((-p.x + CELL_WIDTH / 2) / CELL_WIDTH)
    };
    let y: i64 = if p.y >= 0 {
        (p.y + CELL_HEIGHT / 2) / CELL_HEIGHT
    } else {
        -((-p.y + CELL_HEIGHT / 2) / CELL_HEIGHT)
    };
    GridPosition { x: x as i32, y: y as i32 }
}

/// Rounding a world coordinate to the grid picks the nearest cell: the chosen
/// cell's center is within half a cell of the position on either side (a tie
/// lands away from zero).
pub proof fn lemma_round_to_cell_nearest(v: int, cell: int)
    requires
        cell > 0,
        cell % 2 == 0,
    ensures
        2 * spec_abs(v - cell * spec_round_to_cell(v, cell)) <= cell,
{
    if v >= 0 {
        lemma_fundamental_div_mod(v + cell / 2, cell);
        lemma_mod_division_less_than_divisor(v + cell / 2, cell);
    } else {
        let q = (-v + cell / 2) / cell;
        lemma_fundamental_div_mod(-v + cell / 2, cell);
        lemma_mod_division_less_than_divisor(-v + cell / 2, cell);
        assert(cell * -q == -(cell * q)) by (nonlinear_arith);
    }
}

/// Whether a world coordinate sits exactly on a cell boundary.
pub open spec fn spec_axis_aligned(v: int, cell: int) -> bool {
    (if v >= 0 {
        v
    } else {
        -v
    }) % cell == 0
}

/// Whether a position sits exactly on the grid on both axes.
pub open spec fn spec_grid_aligned(p: Vec3) -> bool {
    spec_axis_aligned(p.x as int, CELL_WIDTH as int) && spec_axis_aligned(
        p.y as int,
        CELL_HEIGHT as int,
    )
}

/// The turn gate, run once per tick before movement: a pending direction takes
/// effect immediately when it reverses the current one, otherwise only at a
/// grid-aligned position; on success the slot clears, otherwise it persists.
pub fn apply_direction_change(position: &Vec3, direction: &mut MoveDirection, next: &mut NextDirection)
    requires
        i64::MIN < position.x,
        i64::MIN < position.y,
    ensures
        match old(next).pending() {
            Some(d) => {
                if old(direction).spec_is_opposite(d) || spec_grid_aligned(*position) {
                    &&& *final(direction) == d
                    &&& final(next).pending() == None::<MoveDirection>
                } else {
                    &&& *final(direction) == *old(direction)
                    &&& final(next).pending() == Some(d)
                }
            },
            None => *final(direction) == *old(direction) && final(next).pending()
                == None::<MoveDirection>,
        },
{
    if let Some(dir) = next.0 {
        let xa: i64 = if position.x >= 0 {
            position.x
        } else {
            -position.x
        };
        let ya: i64 = if position.y >= 0 {
            position.y
        } else {
            -position.y
        };
        let is_x_aligned = xa % CELL_WIDTH == 0;
        let is_y_aligned = ya % CELL_HEIGHT == 0;
        let is_opposite = direction.is_opposite(&dir);
        if is_opposite || (is_x_aligned && is_y_aligned) {
            *direction = dir;
            next.0 = None;
        }
    }
}

} // verus!
