use vstd::prelude::*;
use vstd::arithmetic::mul::lemma_mul_upper_bound;
use crate::level::{Level, CELL_HEIGHT, CELL_WIDTH, MAX_DIM};
use crate::player::{MoveDirection, Speed};
use crate::vec3::{spec_abs, Vec3, MAX_WORLD};

verus! {

/// Largest speed, in world units per second, the motion tick accepts.
pub const MAX_SPEED: u64 = 1_000_000;

/// Largest tick length, in milliseconds, the motion tick accepts.
pub const MAX_DT_MS: u64 = 1_000_000;

/// Whole world units travelled in one tick of `dt_ms` milliseconds.
pub open spec fn spec_step(speed: u64, dt_ms: u64) -> int {
    (speed * dt_ms) / 1000
}

/// X of the candidate position: the current position advanced by
/// direction x speed x dt, before any collision is resolved.
pub open spec fn spec_candidate_x(p: Vec3, direction: MoveDirection, speed: u64, dt_ms: u64) -> int {
    p.x + direction.spec_to_vec3().x * spec_step(speed, dt_ms)
}

/// Y of the candidate position.
pub open spec fn spec_candidate_y(p: Vec3, direction: MoveDirection, speed: u64, dt_ms: u64) -> int {
    p.y + direction.spec_to_vec3().y * spec_step(speed, dt_ms)
}

/// Column of the candidate's left edge.
pub open spec fn left_col(cx: int) -> int {
    cx / (CELL_WIDTH as int)
}

/// Column of the candidate's right edge, one cell width minus one unit along.
pub open spec fn right_col(cx: int) -> int {
    (cx + CELL_WIDTH - 1) / (CELL_WIDTH as int)
}

/// Row of the candidate's top edge; the absolute value compensates for rows
/// growing downward while world Y grows upward.
pub open spec fn top_row(cy: int) -> int {
    spec_abs(cy) / (CELL_HEIGHT as int)
}

/// Row of the candidate's bottom edge.
pub open spec fn bottom_row(cy: int) -> int {
    spec_abs(cy - (CELL_HEIGHT - 1)) / (CELL_HEIGHT as int)
}

/// Whether all four corner probes of the candidate position land on the map.
pub open spec fn probes_in_bounds(map: Level, cx: int, cy: int) -> bool {
    &&& cx >= 0
    &&& map.in_bounds(left_col(cx), top_row(cy))
    &&& map.in_bounds(right_col(cx), top_row(cy))
    &&& map.in_bounds(left_col(cx), bottom_row(cy))
    &&& map.in_bounds(right_col(cx), bottom_row(cy))
}

/// Whether the candidate position runs into a wall: only the two tiles at the
/// leading edge of the direction of travel are probed.
pub open spec fn collides(map: Level, cx: int, cy: int, direction: MoveDirection) -> bool {
    match direction {
        MoveDirection::Up => map.wall_at(left_col(cx), top_row(cy)) || map.wall_at(
            right_col(cx),
            top_row(cy),
        ),
        MoveDirection::Down => map.wall_at(left_col(cx), bottom_row(cy)) || map.wall_at(
            right_col(cx),
            bottom_row(cy),
        ),
        MoveDirection::Left => map.wall_at(left_col(cx), top_row(cy)) || map.wall_at(
            left_col(cx),
            bottom_row(cy),
        ),
        MoveDirection::Right => map.wall_at(right_col(cx), top_row(cy)) || map.wall_at(
            right_col(cx),
            bottom_row(cy),
        ),
    }
}

/// X after a collision snap: the boundary of the last free cell along the
/// direction of travel; the perpendicular axis keeps the candidate value.
pub open spec fn snap_x(cx: int, direction: MoveDirection) -> int {
    match direction {
        MoveDirection::Left => (left_col(cx) + 1) * CELL_WIDTH,
        MoveDirection::Right => (right_col(cx) - 1) * CELL_WIDTH,
        _ => cx,
    }
}

/// Y after a collision snap.
pub open spec fn snap_y(cy: int, direction: MoveDirection) -> int {
    match direction {
        MoveDirection::Up => -(top_row(cy) + 1) * CELL_HEIGHT,
        MoveDirection::Down => -(bottom_row(cy) - 1) * CELL_HEIGHT,
        _ => cy,
    }
}

/// Whether a collision snap at the candidate position stays clear of the
/// map's edge: snapping down or right steps one row or column back, so the
/// blocked row or column must not be the zeroth.
pub open spec fn snap_indices_safe(map: Level, cx: int, cy: int, direction: MoveDirection) -> bool {
    &&& (direction == MoveDirection::Down && collides(map, cx, cy, direction) ==> bottom_row(cy)
        >= 1)
    &&& (direction == MoveDirection::Right && collides(map, cx, cy, direction) ==> right_col(cx)
        >= 1)
}

/// What one movement tick does to a position: commit the candidate, unless it
/// collides, in which case snap the axis of travel and zero Z.
pub open spec fn motion_post(
    map: Level,
    pre: Vec3,
    post: Vec3,
    direction: MoveDirection,
    speed: u64,
    dt_ms: u64,
) -> bool {
    let cx = spec_candidate_x(pre, direction, speed, dt_ms);
    let cy = spec_candidate_y(pre, direction, speed, dt_ms);
    if collides(map, cx, cy, direction) {
        post.x == snap_x(cx, direction) && post.y == snap_y(cy, direction) && post.z == 0
    } else {
        post.x == cx && post.y == cy && post.z == pre.z
    }
}

/// One movement tick: advance the position by direction x speed x dt, probe
/// the two leading-edge corner tiles, and on a hit snap the axis of travel to
/// the boundary of the last free cell. A snap also zeroes Z, and the
/// perpendicular axis is deliberately never corrected: an entity that is
/// off-grid on that axis may clip along the blocked one.
pub fn advance_motion(
    map: &Level,
    position: &mut Vec3,
    direction: MoveDirection,
    speed: &Speed,
    dt_ms: u64,
)
    requires
        map.wf(),
        map.spec_width() <= MAX_DIM,
        map.spec_height() <= MAX_DIM,
        -MAX_WORLD <= old(position).x <= MAX_WORLD,
        -MAX_WORLD <= old(position).y <= MAX_WORLD,
        speed.0 <= MAX_SPEED,
        dt_ms <= MAX_DT_MS,
        probes_in_bounds(
            *map,
            spec_candidate_x(*old(position), direction, speed.0, dt_ms),
            spec_candidate_y(*old(position), direction, speed.0, dt_ms),
        ),
        snap_indices_safe(
            *map,
            spec_candidate_x(*old(position), direction, speed.0, dt_ms),
            spec_candidate_y(*old(position), direction, speed.0, dt_ms),
            direction,
        ),
    ensures
        motion_post(*map, *old(position), *final(position), direction, speed.0, dt_ms),
{
    proof {
        lemma_mul_upper_bound(speed.0 as int, MAX_SPEED as int, dt_ms as int, MAX_DT_MS as int);
    }
    let step: i64 = (speed.0 * dt_ms / 1000) as i64;
    let unit = direction.to_vec3();
    proof {
        assert(unit.x == -1 || unit.x == 0 || unit.x == 1);
        assert(unit.y == -1 || unit.y == 0 || unit.y == 1);
        assert(-step <= unit.x * step <= step) by (nonlinear_arith)
            requires
                -1 <= unit.x <= 1,
                step >= 0,
        ;
        assert(-step <= unit.y * step <= step) by (nonlinear_arith)
            requires
                -1 <= unit.y <= 1,
                step >= 0,
        ;
    }
    let cx: i64 = position.x + unit.x * step;
    let cy: i64 = position.y + unit.y * step;

    let right: i64 = cx + CELL_WIDTH - 1;
    let top: i64 = if cy >= 0 {
        cy
    } else {
        -cy
    };
    let bottom: i64 = if cy - (CELL_HEIGHT - 1) >= 0 {
        cy - (CELL_HEIGHT - 1)
    } else {
        -(cy - (CELL_HEIGHT - 1))
    };

    let left_column: usize = (cx / CELL_WIDTH) as usize;
    let right_column: usize = (right / CELL_WIDTH) as usize;
    let top_row_i: usize = (top / CELL_HEIGHT) as usize;
    let bottom_row_i: usize = (bottom / CELL_HEIGHT) as usize;

    let top_left = map.is_wall(left_column, top_row_i);
    let bottom_left = map.is_wall(left_column, bottom_row_i);
    let top_right = map.is_wall(right_column, top_row_i);
    let bottom_right = map.is_wall(right_column, bottom_row_i);

    let has_collision = match direction {
        MoveDirection::Up => top_left || top_right,
        MoveDirection::Down => bottom_left || bottom_right,
        MoveDirection::Left => top_left || bottom_left,
        MoveDirection::Right => top_right || bottom_right,
    };

    if has_collision {
        match direction {
            MoveDirection::Up => {
                position.x = cx;
                position.y = -(((top_row_i + 1) as i64) * CELL_HEIGHT);
            },
            MoveDirection::Down => {
                position.x = cx;
                position.y = -(((bottom_row_i - 1) as i64) * CELL_HEIGHT);
            },
            MoveDirection::Left => {
                position.x = ((left_column + 1) as i64) * CELL_WIDTH;
                position.y = cy;
            },
            MoveDirection::Right => {
                position.x = ((right_column - 1) as i64) * CELL_WIDTH;
                position.y = cy;
            },
        }
        position.z = 0;
    } else {
        position.x = cx;
        position.y = cy;
    }
}

/// Like `advance_motion`, but first checks that the candidate's corner probes
/// stay on the map and that a snap cannot step off its edge; when they do not,
/// it reports failure and leaves the position untouched. The host calls this
/// so that a corrupt map or a runaway position is caught rather than probed.
#[verifier::rlimit(60)]
pub fn advance_motion_checked(
    map: &Level,
    position: &mut Vec3,
    direction: MoveDirection,
    speed: &Speed,
    dt_ms: u64,
) -> (ok: bool)
    requires
        map.wf(),
        map.spec_width() <= MAX_DIM,
        map.spec_height() <= MAX_DIM,
        -MAX_WORLD <= old(position).x <= MAX_WORLD,
        -MAX_WORLD <= old(position).y <= MAX_WORLD,
        speed.0 <= MAX_SPEED,
        dt_ms <= MAX_DT_MS,
    ensures
        ({
            let cx = spec_candidate_x(*old(position), direction, speed.0, dt_ms);
            let cy = spec_candidate_y(*old(position), direction, speed.0, dt_ms);
            if probes_in_bounds(*map, cx, cy) && snap_indices_safe(*map, cx, cy, direction) {
                ok && motion_post(*map, *old(position), *final(position), direction, speed.0, dt_ms)
            } else {
                !ok && *final(position) == *old(position)
            }
        }),
{
    proof {
        lemma_mul_upper_bound(speed.0 as int, MAX_SPEED as int, dt_ms as int, MAX_DT_MS as int);
    }
    let step: i64 = (speed.0 * dt_ms / 1000) as i64;
    let unit = direction.to_vec3();
    proof {
        assert(unit.x == -1 || unit.x == 0 || unit.x == 1);
        assert(unit.y == -1 || unit.y == 0 || unit.y == 1);
        assert(-step <= unit.x * step <= step) by (nonlinear_arith)
            requires
                -1 <= unit.x <= 1,
                step >= 0,
        ;
        assert(-step <= unit.y * step <= step) by (nonlinear_arith)
            requires
                -1 <= unit.y <= 1,
                step >= 0,
        ;
    }
    let cx: i64 = position.x + unit.x * step;
    let cy: i64 = position.y + unit.y * step;

    if cx < 0 {
        return false;
    }
    let right: i64 = cx + CELL_WIDTH - 1;
    let top: i64 = if cy >= 0 {
        cy
    } else {
        -cy
    };
    let bottom: i64 = if cy - (CELL_HEIGHT - 1) >= 0 {
        cy - (CELL_HEIGHT - 1)
    } else {
        -(cy - (CELL_HEIGHT - 1))
    };

    let left_column: i64 = cx / CELL_WIDTH;
    let right_column: i64 = right / CELL_WIDTH;
    let top_row_i: i64 = top / CELL_HEIGHT;
    let bottom_row_i: i64 = bottom / CELL_HEIGHT;

    let w: i64 = map.width() as i64;
    let h: i64 = map.height() as i64;
    if !(left_column < w && right_column < w && top_row_i < h && bottom_row_i < h) {
        return false;
    }

    let has_collision = match direction {
        MoveDirection::Up => map.is_wall(left_column as usize, top_row_i as usize) || map.is_wall(
            right_column as usize,
            top_row_i as usize,
        ),
        MoveDirection::Down => map.is_wall(left_column as usize, bottom_row_i as usize)
            || map.is_wall(right_column as usize, bottom_row_i as usize),
        MoveDirection::Left => map.is_wall(left_column as usize, top_row_i as usize) || map.is_wall(
            left_column as usize,
            bottom_row_i as usize,
        ),
        MoveDirection::Right => map.is_wall(right_column as usize, top_row_i as usize)
            || map.is_wall(right_column as usize, bottom_row_i as usize),
    };
    if has_collision {
        match direction {
            MoveDirection::Down => {
                if bottom_row_i < 1 {
                    return false;
                }
            },
            MoveDirection::Right => {
                if right_column < 1 {
                    return false;
                }
            },
            _ => {},
        }
    }

    advance_motion(map, position, direction, speed, dt_ms);
    true
}

/// Collision snap while moving right: once the candidate's right edge enters a
/// blocked column, the committed X is the left edge of the column before it,
/// Y keeps the candidate value, the entity never moves past the candidate, and
/// its right edge no longer reaches the blocked column.
pub proof fn lemma_collision_snap_right(map: Level, cx: int, cy: int)
    requires
        probes_in_bounds(map, cx, cy),
        right_col(cx) >= 1,
        map.wall_at(right_col(cx), top_row(cy)) || map.wall_at(right_col(cx), bottom_row(cy)),
    ensures
        collides(map, cx, cy, MoveDirection::Right),
        snap_x(cx, MoveDirection::Right) == (right_col(cx) - 1) * CELL_WIDTH,
        snap_y(cy, MoveDirection::Right) == cy,
        snap_x(cx, MoveDirection::Right) <= cx,
        snap_x(cx, MoveDirection::Right) + CELL_WIDTH - 1 < right_col(cx) * CELL_WIDTH,
{
    vstd::arithmetic::div_mod::lemma_fundamental_div_mod(cx + CELL_WIDTH - 1, CELL_WIDTH as int);
    vstd::arithmetic::div_mod::lemma_mod_division_less_than_divisor(
        cx + CELL_WIDTH - 1,
        CELL_WIDTH as int,
    );
}

} // verus!
