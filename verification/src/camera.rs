use vstd::prelude::*;
use vstd::arithmetic::div_mod::{
    lemma_div_is_ordered,
    lemma_div_multiples_vanish,
    lemma_div_pos_is_pos,
};
use vstd::arithmetic::mul::lemma_mul_inequality;
use crate::vec3::{Vec3, MAX_WORLD};

verus! {

/// Largest easing denominator the camera tick accepts.
pub const MAX_LERP_DEN: i64 = 0x10_0000;

/// The soft bounding box a camera is eased toward: offsets relative to the
/// tracked entity's position, plus the per-tick easing strength as the
/// fraction `lerp_num / lerp_den` in (0, 1].
#[derive(Clone, Copy, Debug)]
pub struct CameraTarget {
    left: i64,
    right: i64,
    top: i64,
    bottom: i64,
    lerp_num: i64,
    lerp_den: i64,
}

impl CameraTarget {
    pub closed spec fn spec_left(self) -> int {
        self.left as int
    }

    pub closed spec fn spec_right(self) -> int {
        self.right as int
    }

    pub closed spec fn spec_top(self) -> int {
        self.top as int
    }

    pub closed spec fn spec_bottom(self) -> int {
        self.bottom as int
    }

    pub closed spec fn spec_lerp_num(self) -> int {
        self.lerp_num as int
    }

    pub closed spec fn spec_lerp_den(self) -> int {
        self.lerp_den as int
    }

    pub open spec fn wf(self) -> bool {
        &&& self.spec_left() <= self.spec_right()
        &&& self.spec_top() <= self.spec_bottom()
        &&& 0 < self.spec_lerp_num() <= self.spec_lerp_den() <= MAX_LERP_DEN
        &&& -MAX_WORLD <= self.spec_left()
        &&& self.spec_right() <= MAX_WORLD
        &&& -MAX_WORLD <= self.spec_top()
        &&& self.spec_bottom() <= MAX_WORLD
    }

    /// A soft box with the given offsets; a box with `left > right` or
    /// `top > bottom`, or an easing fraction outside (0, 1], is a
    /// misconfiguration and is refused outright.
    pub fn new(left: i64, right: i64, top: i64, bottom: i64, lerp_num: i64, lerp_den: i64) -> (t:
        CameraTarget)
        requires
            left <= right,
            top <= bottom,
            0 < lerp_num <= lerp_den <= MAX_LERP_DEN,
            -MAX_WORLD <= left,
            right <= MAX_WORLD,
            -MAX_WORLD <= top,
            bottom <= MAX_WORLD,
        ensures
            t.wf(),
            t.spec_left() == left,
            t.spec_right() == right,
            t.spec_top() == top,
            t.spec_bottom() == bottom,
            t.spec_lerp_num() == lerp_num,
            t.spec_lerp_den() == lerp_den,
    {
        CameraTarget { left, right, top, bottom, lerp_num, lerp_den }
    }
}

/// A value clamped into the closed interval [lo, hi].
pub open spec fn spec_clamp(v: int, lo: int, hi: int) -> int {
    if v < lo {
        lo
    } else if v > hi {
        hi
    } else {
        v
    }
}

/// One axis of the easing step: move from `cur` toward `target` by the
/// fraction num/den of the gap, the fractional part truncated toward zero.
pub open spec fn spec_ease(cur: int, target: int, num: int, den: int) -> int {
    if target >= cur {
        cur + ((target - cur) * num) / den
    } else {
        cur - ((cur - target) * num) / den
    }
}

/// The camera coordinate after one tick on one axis: clamp the current value
/// into the box, then ease toward the clamped point.
pub open spec fn spec_follow_axis(cur: int, lo: int, hi: int, num: int, den: int) -> int {
    spec_ease(cur, spec_clamp(cur, lo, hi), num, den)
}

fn ease_axis(cur: i64, lo: i64, hi: i64, num: i64, den: i64) -> (r: i64)
    requires
        lo <= hi,
        0 < num <= den <= MAX_LERP_DEN,
        -2 * MAX_WORLD <= cur <= 2 * MAX_WORLD,
        -2 * MAX_WORLD <= lo <= 2 * MAX_WORLD,
        -2 * MAX_WORLD <= hi <= 2 * MAX_WORLD,
    ensures
        r == spec_follow_axis(cur as int, lo as int, hi as int, num as int, den as int),
{
    let target: i64 = if cur < lo {
        lo
    } else if cur > hi {
        hi
    } else {
        cur
    };
    if target >= cur {
        let diff: i64 = target - cur;
        proof {
            lemma_mul_inequality(diff as int, 4 * MAX_WORLD, num as int);
            assert(4 * MAX_WORLD * num <= 4 * MAX_WORLD * MAX_LERP_DEN) by (nonlinear_arith)
                requires
                    0 < num <= MAX_LERP_DEN,
            ;
            lemma_mul_inequality(0, diff as int, num as int);
        }
        cur + (diff * num) / den
    } else {
        let diff: i64 = cur - target;
        proof {
            lemma_mul_inequality(diff as int, 4 * MAX_WORLD, num as int);
            assert(4 * MAX_WORLD * num <= 4 * MAX_WORLD * MAX_LERP_DEN) by (nonlinear_arith)
                requires
                    0 < num <= MAX_LERP_DEN,
            ;
            lemma_mul_inequality(0, diff as int, num as int);
        }
        cur - (diff * num) / den
    }
}

/// One camera tick: clamp the camera's current position into the soft box
/// built around the tracked position, then ease toward that clamped point.
/// The clamp is two-dimensional; Z never changes.
pub fn follow_camera(camera: &mut Vec3, subject: &Vec3, target: &CameraTarget)
    requires
        target.wf(),
        -MAX_WORLD <= old(camera).x <= MAX_WORLD,
        -MAX_WORLD <= old(camera).y <= MAX_WORLD,
        -MAX_WORLD <= subject.x <= MAX_WORLD,
        -MAX_WORLD <= subject.y <= MAX_WORLD,
    ensures
        final(camera).x == spec_follow_axis(
            old(camera).x as int,
            subject.x + target.spec_left(),
            subject.x + target.spec_right(),
            target.spec_lerp_num(),
            target.spec_lerp_den(),
        ),
        final(camera).y == spec_follow_axis(
            old(camera).y as int,
            subject.y + target.spec_top(),
            subject.y + target.spec_bottom(),
            target.spec_lerp_num(),
            target.spec_lerp_den(),
        ),
        final(camera).z == old(camera).z,
{
    let min_x: i64 = subject.x + target.left;
    let max_x: i64 = subject.x + target.right;
    let min_y: i64 = subject.y + target.top;
    let max_y: i64 = subject.y + target.bottom;
    camera.x = ease_axis(camera.x, min_x, max_x, target.lerp_num, target.lerp_den);
    camera.y = ease_axis(camera.y, min_y, max_y, target.lerp_num, target.lerp_den);
}

/// Distance from a value to the closed interval [lo, hi]; zero inside it.
pub open spec fn spec_box_dist(v: int, lo: int, hi: int) -> int {
    if v < lo {
        lo - v
    } else if v > hi {
        v - hi
    } else {
        0
    }
}

/// Camera easing converges without overshooting: on each axis, one tick never
/// moves the camera past the box edge or away from it, a camera already inside
/// the box stays put, and while the gap is at least den/num the distance to
/// the box strictly shrinks.
pub proof fn lemma_ease_converges(cur: int, lo: int, hi: int, num: int, den: int)
    requires
        lo <= hi,
        0 < num <= den,
    ensures
        ({
            let next = spec_follow_axis(cur, lo, hi, num, den);
            &&& spec_box_dist(next, lo, hi) <= spec_box_dist(cur, lo, hi)
            &&& (cur < lo ==> cur <= next <= lo)
            &&& (cur > hi ==> hi <= next <= cur)
            &&& (lo <= cur <= hi ==> next == cur)
            &&& (spec_box_dist(cur, lo, hi) * num >= den ==> spec_box_dist(next, lo, hi)
                < spec_box_dist(cur, lo, hi))
        }),
{
    if cur < lo {
        let diff = lo - cur;
        lemma_step_bounds(diff, num, den);
    } else if cur > hi {
        let diff = cur - hi;
        lemma_step_bounds(diff, num, den);
    }
}

/// The truncated easing step is between zero and the whole gap, and is at
/// least one once the gap times num reaches den.
proof fn lemma_step_bounds(diff: int, num: int, den: int)
    requires
        diff >= 0,
        0 < num <= den,
    ensures
        0 <= (diff * num) / den <= diff,
        diff * num >= den ==> (diff * num) / den >= 1,
{
    lemma_mul_inequality(0, diff, num);
    lemma_div_pos_is_pos(diff * num, den);
    lemma_mul_inequality(num, den, diff);
    assert(diff * num == num * diff) by (nonlinear_arith);
    assert(diff * den == den * diff) by (nonlinear_arith);
    lemma_div_is_ordered(diff * num, diff * den, den);
    lemma_div_multiples_vanish(diff, den);
    if diff * num >= den {
        lemma_div_is_ordered(den, diff * num, den);
        assert(den / den == 1) by {
            lemma_div_multiples_vanish(1, den);
        }
    }
}

} // verus!
