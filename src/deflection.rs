//! The paddle-bounce deflection model.
//!
//! With `dx`, `dy` the offsets of the ball's center from the paddle's center
//! and `s = |dy / (SLOPE_SCALE * dx)|`, the ball leaves at
//! `(sign(dx) * V / sqrt(s² + 1), sign(dy) * V * s / sqrt(s² + 1))`, each
//! component rounded to the nearest integer (halves away from zero), where
//! `V` is `BALL_VELOCITY`. Written without the slope, the magnitudes are
//! `sqrt(V² * SLOPE_SCALE² * dx² / D)` and `sqrt(V² * dy² / D)` with
//! `D = SLOPE_SCALE² * dx² + dy²`; this module evaluates them exactly in
//! integers.
use vstd::prelude::*;

verus! {

/// The speed of a served ball, and of a ball leaving a paddle.
pub const BALL_VELOCITY: i32 = 17;

/// Flattens the deflection angle, so that a hit near a paddle's end does not
/// send the ball off almost vertically.
pub const SLOPE_SCALE: i32 = 5;

pub open spec fn sign(v: int) -> int {
    if v > 0 {
        1
    } else if v < 0 {
        -1
    } else {
        0
    }
}

/// `n` is `sqrt(num / den)` rounded to the nearest integer, a half rounded up.
pub open spec fn is_rounded_root(n: int, num: int, den: int) -> bool {
    &&& 0 <= n
    &&& n == 0 || (2 * n - 1) * (2 * n - 1) * den <= 4 * num
    &&& 4 * num < (2 * n + 1) * (2 * n + 1) * den
}

/// `sqrt(num / den)` rounded to the nearest integer, a half rounded up
/// (unique where it exists: see `lemma_rounded_root_unique`).
pub open spec fn nearest_root(num: int, den: int) -> int {
    choose|n: int| is_rounded_root(n, num, den)
}

/// `D`: the squared length of the offset with its horizontal part scaled.
pub open spec fn spread(dx: int, dy: int) -> int {
    SLOPE_SCALE * SLOPE_SCALE * dx * dx + dy * dy
}

/// The velocity of a ball that leaves a paddle, given the offset `(dx, dy)`
/// of its center from the paddle's center and the velocity `v` it came with.
/// Where the offset has no horizontal part the ball leaves straight up or
/// down at `BALL_VELOCITY` (with no horizontal velocity such a ball cannot
/// reach a side and score). Where the centers coincide the angle is
/// undefined: the ball is sent back horizontally at full speed, against its
/// incoming direction.
pub open spec fn bounce_spec(dx: int, dy: int, v: (i32, i32)) -> (int, int) {
    if dx == 0 && dy == 0 {
        (if v.0 > 0 { -BALL_VELOCITY as int } else { BALL_VELOCITY as int }, 0)
    } else {
        let d = spread(dx, dy);
        (
            sign(dx) * nearest_root(
                BALL_VELOCITY * BALL_VELOCITY * SLOPE_SCALE * SLOPE_SCALE * dx * dx,
                d,
            ),
            sign(dy) * nearest_root(BALL_VELOCITY * BALL_VELOCITY * dy * dy, d),
        )
    }
}

/// At most one integer is the rounded root of a ratio.
pub proof fn lemma_rounded_root_unique(a: int, b: int, num: int, den: int)
    requires
        den > 0,
        is_rounded_root(a, num, den),
        is_rounded_root(b, num, den),
    ensures
        a == b,
{
    if a < b {
        lemma_square_grows(a, b, den);
    } else if b < a {
        lemma_square_grows(b, a, den);
    }
}

proof fn lemma_square_grows(a: int, b: int, den: int)
    requires
        den > 0,
        0 <= a < b,
    ensures
        (2 * a + 1) * (2 * a + 1) * den <= (2 * b - 1) * (2 * b - 1) * den,
{
    assert((2 * a + 1) * (2 * a + 1) * den <= (2 * b - 1) * (2 * b - 1) * den) by (nonlinear_arith)
        requires
            den > 0,
            0 <= a < b,
    ;
}

/// The rounded root that `is_rounded_root` describes is `nearest_root`.
proof fn lemma_nearest_root_is(n: int, num: int, den: int)
    requires
        den > 0,
        is_rounded_root(n, num, den),
    ensures
        nearest_root(num, den) == n,
{
    let m = nearest_root(num, den);
    assert(is_rounded_root(m, num, den));
    lemma_rounded_root_unique(m, n, num, den);
}

proof fn lemma_scaled_square_bound(k: int, den: int)
    requires
        1 <= k <= 35,
        den > 0,
    ensures
        k * k <= 1225,
        k * k * den <= 1225 * den,
        k == 35 ==> k * k * den == 1225 * den,
{
    assert(k * k <= 1225) by (nonlinear_arith)
        requires
            1 <= k <= 35,
    ;
    assert(k * k * den <= 1225 * den) by (nonlinear_arith)
        requires
            k * k <= 1225,
            den > 0,
    ;
}

/// Rounds `sqrt(num / den)` for a ratio of at most `BALL_VELOCITY²`.
fn rounded_root(num: u128, den: u128) -> (r: i32)
    requires
        den > 0,
        den < 0x1_0000_0000_0000_0000_0000,
        num <= BALL_VELOCITY * BALL_VELOCITY * den,
    ensures
        0 <= r <= BALL_VELOCITY,
        r == nearest_root(num as int, den as int),
{
    let mut n: u128 = 0;
    let mut done = false;
    while !done
        invariant
            0 <= n <= 17,
            0 < den < 0x1_0000_0000_0000_0000_0000,
            num <= 289 * den,
            n == 0 || (2 * n - 1) * (2 * n - 1) * den <= 4 * num,
            done ==> 4 * num < (2 * n + 1) * (2 * n + 1) * den,
        decreases 17 - n + if done { 0int } else { 1int },
    {
        let k: u128 = 2 * n + 1;
        proof {
            lemma_scaled_square_bound(k as int, den as int);
        }
        let kk: u128 = k * k;
        if 4 * num < kk * den {
            done = true;
        } else {
            assert(n < 17);
            n = n + 1;
        }
    }
    proof {
        lemma_nearest_root_is(n as int, num as int, den as int);
    }
    n as i32
}

/// Some integer is the rounded root of a ratio of at most `BALL_VELOCITY²`,
/// found by counting up from `n`.
proof fn lemma_rounded_root_exists(n: int, num: int, den: int)
    requires
        0 <= n <= 17,
        den > 0,
        0 <= num <= 289 * den,
        n == 0 || (2 * n - 1) * (2 * n - 1) * den <= 4 * num,
    ensures
        is_rounded_root(nearest_root(num, den), num, den),
    decreases 17 - n,
{
    lemma_scaled_square_bound(2 * n + 1, den);
    if 4 * num < (2 * n + 1) * (2 * n + 1) * den {
        assert(is_rounded_root(n, num, den));
    } else {
        lemma_rounded_root_exists(n + 1, num, den);
    }
}

/// Sums the defining bounds of the two rounded components over the shared
/// denominator `d`, where the two numerators add up to `289 * d`.
proof fn lemma_component_bounds(a: int, b: int, nx: int, ny: int, d: int)
    requires
        d > 0,
        nx >= 0,
        ny >= 0,
        nx + ny == 289 * d,
        is_rounded_root(a, nx, d),
        is_rounded_root(b, ny, d),
    ensures
        (2 * a + 1) * (2 * a + 1) + (2 * b + 1) * (2 * b + 1) > 1156,
        4 * (a * a) - 4 * a + 4 * (b * b) - 4 * b <= 1156,
{
    let hi = (2 * a + 1) * (2 * a + 1) + (2 * b + 1) * (2 * b + 1);
    assert(hi * d == (2 * a + 1) * (2 * a + 1) * d + (2 * b + 1) * (2 * b + 1) * d)
        by (nonlinear_arith)
        requires
            hi == (2 * a + 1) * (2 * a + 1) + (2 * b + 1) * (2 * b + 1),
    ;
    assert(hi > 1156) by (nonlinear_arith)
        requires
            d > 0,
            hi * d > 1156 * d,
    ;
    let la = if a == 0 { 0 } else { (2 * a - 1) * (2 * a - 1) };
    let lb = if b == 0 { 0 } else { (2 * b - 1) * (2 * b - 1) };
    if a == 0 {
        assert(la * d == 0);
    }
    if b == 0 {
        assert(lb * d == 0);
    }
    assert(la * d <= 4 * nx);
    assert(lb * d <= 4 * ny);
    assert((la + lb) * d == la * d + lb * d) by (nonlinear_arith)
        requires
            true,
    ;
    assert(la + lb <= 1156) by (nonlinear_arith)
        requires
            d > 0,
            (la + lb) * d <= 1156 * d,
    ;
    assert(la >= 4 * (a * a) - 4 * a) by (nonlinear_arith)
        requires
            a >= 0,
            la == if a == 0 { 0 } else { (2 * a - 1) * (2 * a - 1) },
    ;
    assert(lb >= 4 * (b * b) - 4 * b) by (nonlinear_arith)
        requires
            b >= 0,
            lb == if b == 0 { 0 } else { (2 * b - 1) * (2 * b - 1) },
    ;
}

/// Two non-negative integers whose rounding bounds fit a circle of radius
/// `BALL_VELOCITY` lie within one unit of that circle.
proof fn lemma_rounded_circle(a: int, b: int)
    requires
        a >= 0,
        b >= 0,
        (2 * a + 1) * (2 * a + 1) + (2 * b + 1) * (2 * b + 1) > 1156,
        4 * (a * a) - 4 * a + 4 * (b * b) - 4 * b <= 1156,
    ensures
        16 * 16 <= a * a + b * b <= 18 * 18,
{
    let s = a * a + b * b;
    let t = a + b;
    assert((2 * a + 1) * (2 * a + 1) + (2 * b + 1) * (2 * b + 1) == 4 * s + 4 * t + 2)
        by (nonlinear_arith)
        requires
            s == a * a + b * b,
            t == a + b,
    ;
    assert(t * t <= 2 * s) by (nonlinear_arith)
        requires
            s == a * a + b * b,
            t == a + b,
    ;
    assert(s + t >= 289);
    assert(s - t <= 289);
    if s < 256 {
        assert(t <= 22) by (nonlinear_arith)
            requires
                t * t <= 510,
                t >= 0,
        ;
    }
    if s > 324 {
        let u = s - 289;
        assert(u >= 36);
        assert(t >= u);
        assert(t * t >= u * u) by (nonlinear_arith)
            requires
                t >= u,
                u >= 0,
        ;
        assert(u * u >= 36 * u) by (nonlinear_arith)
            requires
                u >= 36,
        ;
    }
}

/// A ball leaving a paddle moves at `BALL_VELOCITY`, within one unit of
/// rounding: its squared speed lies between `16²` and `18²`.
pub proof fn lemma_bounce_keeps_speed(dx: int, dy: int, v: (i32, i32))
    ensures
        16 * 16 <= bounce_spec(dx, dy, v).0 * bounce_spec(dx, dy, v).0 + bounce_spec(
            dx,
            dy,
            v,
        ).1 * bounce_spec(dx, dy, v).1 <= 18 * 18,
{
    if !(dx == 0 && dy == 0) {
        let d = spread(dx, dy);
        let xx = dx * dx;
        let yy = dy * dy;
        assert(xx >= 0 && yy >= 0 && (xx > 0 || yy > 0)) by (nonlinear_arith)
            requires
                xx == dx * dx,
                yy == dy * dy,
                !(dx == 0 && dy == 0),
        ;
        let nx = BALL_VELOCITY * BALL_VELOCITY * SLOPE_SCALE * SLOPE_SCALE * dx * dx;
        let ny = BALL_VELOCITY * BALL_VELOCITY * dy * dy;
        assert(nx == 7225 * xx && ny == 289 * yy && d == 25 * xx + yy) by (nonlinear_arith)
            requires
                xx == dx * dx,
                yy == dy * dy,
                nx == BALL_VELOCITY * BALL_VELOCITY * SLOPE_SCALE * SLOPE_SCALE * dx * dx,
                ny == BALL_VELOCITY * BALL_VELOCITY * dy * dy,
                d == spread(dx, dy),
        ;
        assert(d > 0);
        assert((2 * 0 + 1) * (2 * 0 + 1) * d == d) by (nonlinear_arith);
        if dx == 0 {
            assert(xx == 0 && nx == 0);
            assert(is_rounded_root(0, nx, d));
            lemma_nearest_root_is(0, nx, d);
        }
        if dy == 0 {
            assert(yy == 0 && ny == 0);
            assert(is_rounded_root(0, ny, d));
            lemma_nearest_root_is(0, ny, d);
        }
        lemma_rounded_root_exists(0, nx, d);
        lemma_rounded_root_exists(0, ny, d);
        let a = nearest_root(nx, d);
        let b = nearest_root(ny, d);
        lemma_component_bounds(a, b, nx, ny, d);
        lemma_rounded_circle(a, b);
        let r = bounce_spec(dx, dy, v);
        assert(r.0 * r.0 == a * a && r.1 * r.1 == b * b) by (nonlinear_arith)
            requires
                r.0 == sign(dx) * a,
                r.1 == sign(dy) * b,
                sign(dx) == 1 || sign(dx) == -1 || sign(dx) == 0,
                sign(dy) == 1 || sign(dy) == -1 || sign(dy) == 0,
                sign(dx) == 0 ==> a == 0,
                sign(dy) == 0 ==> b == 0,
        ;
    }
}

/// The magnitude `m` with the sign of `v`.
fn with_sign_of(m: i32, v: i64) -> (r: i32)
    requires
        0 <= m <= BALL_VELOCITY,
    ensures
        r == sign(v as int) * m,
        -m <= r <= m,
{
    if v > 0 {
        m
    } else if v < 0 {
        -m
    } else {
        0
    }
}

/// Bound on the coordinates of a rectangle's center: an `i32` corner plus
/// half of a `u32` extent stays within it.
pub const CENTER_LIMIT: i64 = 0x1_0000_0000;

proof fn lemma_offset_square(v: i64, a: u128)
    requires
        -2 * CENTER_LIMIT <= v <= 2 * CENTER_LIMIT,
        a == if v < 0 { -v } else { v as int },
    ensures
        a * a == v * v,
        a * a <= 4 * CENTER_LIMIT * CENTER_LIMIT,
{
    assert(a * a == v * v) by (nonlinear_arith)
        requires
            a == if v < 0 { -v } else { v as int },
    ;
    assert(a * a <= 4 * CENTER_LIMIT * CENTER_LIMIT) by (nonlinear_arith)
        requires
            0 <= a <= 2 * CENTER_LIMIT,
    ;
}

/// The velocity of a ball whose center is at `ball_center` as it leaves a
/// paddle whose center is at `paddle_center`, having come in at `velocity`.
pub fn bounce_velocity(ball_center: (i64, i64), paddle_center: (i64, i64), velocity: (i32, i32)) -> (r: (i32, i32))
    requires
        -CENTER_LIMIT <= ball_center.0 <= CENTER_LIMIT,
        -CENTER_LIMIT <= ball_center.1 <= CENTER_LIMIT,
        -CENTER_LIMIT <= paddle_center.0 <= CENTER_LIMIT,
        -CENTER_LIMIT <= paddle_center.1 <= CENTER_LIMIT,
    ensures
        r.0 == bounce_spec(
            ball_center.0 - paddle_center.0,
            ball_center.1 - paddle_center.1,
            velocity,
        ).0,
        r.1 == bounce_spec(
            ball_center.0 - paddle_center.0,
            ball_center.1 - paddle_center.1,
            velocity,
        ).1,
        -BALL_VELOCITY <= r.0 <= BALL_VELOCITY,
        -BALL_VELOCITY <= r.1 <= BALL_VELOCITY,
{
    let dx: i64 = ball_center.0 - paddle_center.0;
    let dy: i64 = ball_center.1 - paddle_center.1;
    if dx == 0 && dy == 0 {
        if velocity.0 > 0 {
            (-BALL_VELOCITY, 0)
        } else {
            (BALL_VELOCITY, 0)
        }
    } else {
        let ax: u128 = if dx < 0 {
            (-dx) as u128
        } else {
            dx as u128
        };
        let ay: u128 = if dy < 0 {
            (-dy) as u128
        } else {
            dy as u128
        };
        proof {
            lemma_offset_square(dx, ax);
            lemma_offset_square(dy, ay);
        }
        let xx: u128 = ax * ax;
        let yy: u128 = ay * ay;
        let den: u128 = (SLOPE_SCALE * SLOPE_SCALE) as u128 * xx + yy;
        let speed_sq: u128 = (BALL_VELOCITY * BALL_VELOCITY) as u128;
        let nx: u128 = speed_sq * (SLOPE_SCALE * SLOPE_SCALE) as u128 * xx;
        let ny: u128 = speed_sq * yy;
        proof {
            assert(xx > 0 || yy > 0) by (nonlinear_arith)
                requires
                    xx == dx * dx,
                    yy == dy * dy,
                    !(dx == 0 && dy == 0),
            ;
            assert(spread(dx as int, dy as int) == den) by (nonlinear_arith)
                requires
                    xx == dx * dx,
                    yy == dy * dy,
                    den == 25 * xx + yy,
            ;
            assert(nx == BALL_VELOCITY * BALL_VELOCITY * SLOPE_SCALE * SLOPE_SCALE * dx * dx)
                by (nonlinear_arith)
                requires
                    xx == dx * dx,
                    nx == 7225 * xx,
            ;
            assert(ny == BALL_VELOCITY * BALL_VELOCITY * dy * dy) by (nonlinear_arith)
                requires
                    yy == dy * dy,
                    ny == 289 * yy,
            ;
        }
        let vx = with_sign_of(rounded_root(nx, den), dx);
        let vy = with_sign_of(rounded_root(ny, den), dy);
        (vx, vy)
    }
}

} // verus!
