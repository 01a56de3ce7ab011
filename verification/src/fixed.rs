//! Integer arithmetic for lengths, speeds and time steps.

use vstd::arithmetic::div_mod::lemma_fundamental_div_mod;
use vstd::prelude::*;

verus! {

/// World units in one pixel.
pub const PIXEL: i32 = 1024;

/// Microseconds in one second.
pub const SECOND: i64 = 1_000_000;

/// The value of `i32` nearest to `v`.
pub open spec fn saturate(v: int) -> int {
    if v < i32::MIN {
        i32::MIN as int
    } else if v > i32::MAX {
        i32::MAX as int
    } else {
        v
    }
}

/// The quotient of `a` by `b`, rounded towards zero.
pub open spec fn trunc_div(a: int, b: int) -> int {
    if a >= 0 {
        a / b
    } else {
        -((-a) / b)
    }
}

/// Rounding a quotient towards zero never takes it further from zero than
/// its numerator.
pub proof fn lemma_trunc_div_bound(a: int, b: int)
    requires
        b != 0,
    ensures
        a >= 0 ==> -a <= trunc_div(a, b) <= a,
        a <= 0 ==> a <= trunc_div(a, b) <= -a,
{
    let n = if a >= 0 { a } else { -a };
    let q = n / b;
    let r = n % b;
    assert(n == b * q + r && 0 <= r && (b > 0 ==> r < b) && (b < 0 ==> r < -b)) by (nonlinear_arith)
        requires
            b != 0,
            q == n / b,
            r == n % b,
    ;
    assert(-n <= q <= n) by (nonlinear_arith)
        requires
            n >= 0,
            b != 0,
            n == b * q + r,
            0 <= r,
            b > 0 ==> r < b,
            b < 0 ==> r < -b,
    ;
}

/// A product divided by one of its factors gives the other.
pub proof fn lemma_trunc_div_cancels(a: int, d: int)
    requires
        d != 0,
    ensures
        trunc_div(d * a, d) == a,
{
    let n = if d * a >= 0 { d * a } else { -(d * a) };
    let b = if d * a >= 0 { a } else { -a };
    assert(n == d * b) by (nonlinear_arith)
        requires
            n == (if d * a >= 0 { d * a } else { -(d * a) }),
            b == (if d * a >= 0 { a } else { -a }),
    ;
    let q = n / d;
    let r = n % d;
    assert(n == d * q + r && 0 <= r && (d > 0 ==> r < d) && (d < 0 ==> r < -d)) by (nonlinear_arith)
        requires
            d != 0,
            q == n / d,
            r == n % d,
    ;
    assert(q == b) by (nonlinear_arith)
        requires
            d * b == d * q + r,
            0 <= r,
            d > 0 ==> r < d,
            d < 0 ==> r < -d,
            d != 0,
    ;
}

/// The distance covered in `dt` microseconds at `velocity` units per second,
/// rounded towards zero.
pub open spec fn travel(velocity: int, dt: int) -> int {
    trunc_div(velocity * dt, SECOND as int)
}

/// Half of a full extent, rounded towards zero.
pub open spec fn half(extent: int) -> int {
    trunc_div(extent, 2)
}

/// Brings a wide intermediate result back into the range of a coordinate.
pub fn saturate_i64(v: i64) -> (r: i32)
    ensures
        r == saturate(v as int),
{
    if v < i32::MIN as i64 {
        i32::MIN
    } else if v > i32::MAX as i64 {
        i32::MAX
    } else {
        v as i32
    }
}

/// Computes [`travel`].
pub fn travel_exec(velocity: i32, dt: u32) -> (d: i64)
    ensures
        d == travel(velocity as int, dt as int),
        -0x1000_0000_0000 <= d <= 0x1000_0000_0000,
{
    let v: i64 = velocity as i64;
    let t: i64 = dt as i64;
    assert(-0x8000_0000 * 0x1_0000_0000 <= v * t <= 0x8000_0000 * 0xffff_ffff) by (nonlinear_arith)
        requires
            -0x8000_0000 <= v <= 0x8000_0000,
            0 <= t <= 0xffff_ffff,
    ;
    (v * t) / SECOND
}

/// Computes [`half`].
pub fn half_exec(extent: i32) -> (h: i32)
    ensures
        h == half(extent as int),
{
    extent / 2
}

/// Whether `n` is the least natural number whose square is at least `m`.
pub open spec fn is_ceil_sqrt(m: int, n: int) -> bool {
    &&& 0 <= n
    &&& m <= n * n
    &&& n > 0 ==> (n - 1) * (n - 1) < m
}

/// The square root of `m`, rounded up; zero where `m` is not positive.
pub open spec fn ceil_sqrt(m: int) -> int {
    choose|n: int| is_ceil_sqrt(m, n)
}

/// At most one number is the rounded-up square root of `m`.
pub proof fn lemma_ceil_sqrt_unique(m: int, a: int, b: int)
    requires
        is_ceil_sqrt(m, a),
        is_ceil_sqrt(m, b),
    ensures
        a == b,
{
    if a < b {
        assert(a * a <= (b - 1) * (b - 1)) by (nonlinear_arith)
            requires
                0 <= a <= b - 1,
        ;
    }
    if b < a {
        assert(b * b <= (a - 1) * (a - 1)) by (nonlinear_arith)
            requires
                0 <= b <= a - 1,
        ;
    }
}

/// Computes [`ceil_sqrt`] by bisection.
pub fn ceil_sqrt_exec(m: u128) -> (n: u64)
    requires
        m <= 0x10_0000_0000_0000_0000,
    ensures
        n == ceil_sqrt(m as int),
        is_ceil_sqrt(m as int, n as int),
        n <= 0x4_0000_0000,
{
    if m == 0 {
        proof {
            assert(is_ceil_sqrt(0, 0));
            lemma_ceil_sqrt_unique(0, 0, ceil_sqrt(0));
        }
        return 0;
    }
    let mut lo: u64 = 0;
    let mut hi: u64 = 0x4_0000_0000;
    while hi - lo > 1
        invariant
            lo < hi <= 0x4_0000_0000,
            lo * lo < m,
            m <= hi * hi,
        decreases hi - lo,
    {
        let mid: u64 = lo + (hi - lo) / 2;
        assert(mid * mid <= 0x4_0000_0000 * 0x4_0000_0000) by (nonlinear_arith)
            requires
                0 <= mid <= 0x4_0000_0000,
        ;
        let wide: u128 = mid as u128;
        let square: u128 = wide * wide;
        if square >= m {
            hi = mid;
        } else {
            lo = mid;
        }
    }
    proof {
        assert(is_ceil_sqrt(m as int, hi as int));
        lemma_ceil_sqrt_unique(m as int, hi as int, ceil_sqrt(m as int));
    }
    hi
}

/// One coordinate of the vector that points the way of `(d, other)` and is
/// as long as `speed`: `speed * d` over the rounded-up length of
/// `(d, other)`, rounded towards zero. Zero where the direction is zero.
pub open spec fn aim_component(d: int, other: int, speed: int) -> int {
    if d == 0 && other == 0 {
        0
    } else {
        saturate(trunc_div(speed * d, ceil_sqrt(d * d + other * other)))
    }
}

/// The greatest size of a direction coordinate that [`aim_component_exec`] takes.
pub const DIRECTION_MAX: i64 = 0x2_0000_0000;

/// Brings a wide intermediate result back into the range of a coordinate.
pub fn saturate_i128(v: i128) -> (r: i32)
    ensures
        r == saturate(v as int),
{
    if v < i32::MIN as i128 {
        i32::MIN
    } else if v > i32::MAX as i128 {
        i32::MAX
    } else {
        v as i32
    }
}

/// Computes [`aim_component`].
pub fn aim_component_exec(d: i64, other: i64, speed: i32) -> (r: i32)
    requires
        -DIRECTION_MAX <= d <= DIRECTION_MAX,
        -DIRECTION_MAX <= other <= DIRECTION_MAX,
    ensures
        r == aim_component(d as int, other as int, speed as int),
{
    if d == 0 && other == 0 {
        return 0;
    }
    let a: i128 = d as i128;
    let b: i128 = other as i128;
    assert(0 <= a * a <= 0x2_0000_0000 * 0x2_0000_0000) by (nonlinear_arith)
        requires
            -0x2_0000_0000 <= a <= 0x2_0000_0000,
    ;
    assert(0 <= b * b <= 0x2_0000_0000 * 0x2_0000_0000) by (nonlinear_arith)
        requires
            -0x2_0000_0000 <= b <= 0x2_0000_0000,
    ;
    assert(a * a + b * b > 0) by (nonlinear_arith)
        requires
            a != 0 || b != 0,
    ;
    let m: i128 = a * a + b * b;
    let n: u64 = ceil_sqrt_exec(m as u128);
    assert(n != 0) by (nonlinear_arith)
        requires
            0 < m <= n * n,
    ;
    let s: i128 = speed as i128;
    assert(-0x8000_0000 * 0x2_0000_0000 <= s * a <= 0x8000_0000 * 0x2_0000_0000) by (nonlinear_arith)
        requires
            -0x8000_0000 <= s <= 0x8000_0000,
            -0x2_0000_0000 <= a <= 0x2_0000_0000,
    ;
    let q: i128 = (s * a) / (n as i128);
    saturate_i128(q)
}

/// Every number has a rounded-up square root: [`ceil_sqrt`] is one.
pub proof fn lemma_ceil_sqrt_exists(m: int)
    ensures
        is_ceil_sqrt(m, ceil_sqrt(m)),
{
    if m <= 0 {
        assert(is_ceil_sqrt(m, 0));
    } else {
        lemma_ceil_sqrt_search(m, 1);
    }
}

/// The search for the rounded-up square root of `m` from `k` upwards ends.
proof fn lemma_ceil_sqrt_search(m: int, k: int)
    requires
        m > 0,
        1 <= k <= m,
        (k - 1) * (k - 1) < m,
    ensures
        exists|n: int| is_ceil_sqrt(m, n),
    decreases m - k,
{
    if k * k >= m {
        assert(is_ceil_sqrt(m, k));
    } else {
        assert(k < m) by (nonlinear_arith)
            requires
                1 <= k <= m,
                k * k < m,
        ;
        lemma_ceil_sqrt_search(m, k + 1);
    }
}

/// A quotient rounded towards zero, times its divisor, is no further from
/// zero than the numerator, and on the same side of it.
pub proof fn lemma_trunc_div_times_divisor(a: int, n: int)
    requires
        n > 0,
    ensures
        a >= 0 ==> 0 <= trunc_div(a, n) * n <= a,
        a <= 0 ==> a <= trunc_div(a, n) * n <= 0,
{
    let b = if a >= 0 { a } else { -a };
    lemma_fundamental_div_mod(b, n);
    let q = b / n;
    let r = b % n;
    assert(0 <= r < n);
    assert(b == n * q + r);
    assert(n * q == q * n) by (nonlinear_arith);
    assert(q >= 0) by (nonlinear_arith)
        requires
            b == n * q + r,
            0 <= r < n,
            b >= 0,
            n > 0,
    ;
    assert((-q) * n == -(q * n)) by (nonlinear_arith);
}

/// The two quotients that [`aim_component`] takes for a direction other
/// than zero, before they are saturated: together no longer than `speed`,
/// and each on the side of zero on which its direction lies.
proof fn lemma_aim_quotients(dx: int, dy: int, speed: int)
    requires
        0 <= speed <= i32::MAX,
        dx != 0 || dy != 0,
    ensures
        ({
            let n = ceil_sqrt(dx * dx + dy * dy);
            let qx = trunc_div(speed * dx, n);
            let qy = trunc_div(speed * dy, n);
            &&& n > 0
            &&& is_ceil_sqrt(dx * dx + dy * dy, n)
            &&& n == ceil_sqrt(dy * dy + dx * dx)
            &&& qx * qx + qy * qy <= speed * speed
            &&& -speed <= qx <= speed
            &&& -speed <= qy <= speed
            &&& dx >= 0 ==> qx >= 0
            &&& dx <= 0 ==> qx <= 0
        }),
{
    let m = dx * dx + dy * dy;
    assert(m > 0 && m == dy * dy + dx * dx) by (nonlinear_arith)
        requires
            m == dx * dx + dy * dy,
            dx != 0 || dy != 0,
    ;
    lemma_ceil_sqrt_exists(m);
    let n = ceil_sqrt(m);
    assert(n > 0) by (nonlinear_arith)
        requires
            0 <= n,
            0 < m <= n * n,
    ;
    let qx = trunc_div(speed * dx, n);
    let qy = trunc_div(speed * dy, n);
    lemma_trunc_div_times_divisor(speed * dx, n);
    lemma_trunc_div_times_divisor(speed * dy, n);
    assert((qx * n) * (qx * n) <= (speed * dx) * (speed * dx)) by (nonlinear_arith)
        requires
            speed * dx >= 0 ==> 0 <= qx * n <= speed * dx,
            speed * dx <= 0 ==> speed * dx <= qx * n <= 0,
    ;
    assert((qy * n) * (qy * n) <= (speed * dy) * (speed * dy)) by (nonlinear_arith)
        requires
            speed * dy >= 0 ==> 0 <= qy * n <= speed * dy,
            speed * dy <= 0 ==> speed * dy <= qy * n <= 0,
    ;
    assert((qx * qx + qy * qy) * (n * n) == (qx * n) * (qx * n) + (qy * n) * (qy * n))
        by (nonlinear_arith);
    assert((speed * dx) * (speed * dx) + (speed * dy) * (speed * dy) == (speed * speed) * m)
        by (nonlinear_arith)
        requires
            m == dx * dx + dy * dy,
    ;
    assert((speed * speed) * m <= (speed * speed) * (n * n)) by (nonlinear_arith)
        requires
            m <= n * n,
    ;
    assert(qx * qx + qy * qy <= speed * speed) by (nonlinear_arith)
        requires
            (qx * qx + qy * qy) * (n * n) <= (speed * speed) * (n * n),
            n > 0,
    ;
    assert(-speed <= qx <= speed && -speed <= qy <= speed) by (nonlinear_arith)
        requires
            qx * qx + qy * qy <= speed * speed,
            0 <= speed,
    ;
    assert(dx >= 0 ==> speed * dx >= 0) by (nonlinear_arith)
        requires
            speed >= 0,
    ;
    assert(dx <= 0 ==> speed * dx <= 0) by (nonlinear_arith)
        requires
            speed >= 0,
    ;
    assert(dx >= 0 ==> qx >= 0) by (nonlinear_arith)
        requires
            dx >= 0 ==> speed * dx >= 0,
            speed * dx >= 0 ==> 0 <= qx * n <= speed * dx,
            n > 0,
    ;
    assert(dx <= 0 ==> qx <= 0) by (nonlinear_arith)
        requires
            dx <= 0 ==> speed * dx <= 0,
            speed * dx <= 0 ==> speed * dx <= qx * n <= 0,
            n > 0,
    ;
}

/// The vector that [`aim_component`] makes is no longer than `speed`, and
/// each of its coordinates lies on the side of zero on which its direction
/// lies.
pub proof fn lemma_aim_within_speed(dx: int, dy: int, speed: int)
    requires
        0 <= speed <= i32::MAX,
    ensures
        aim_component(dx, dy, speed) * aim_component(dx, dy, speed) + aim_component(dy, dx, speed)
            * aim_component(dy, dx, speed) <= speed * speed,
        -speed <= aim_component(dx, dy, speed) <= speed,
        -speed <= aim_component(dy, dx, speed) <= speed,
        dx >= 0 ==> aim_component(dx, dy, speed) >= 0,
        dx <= 0 ==> aim_component(dx, dy, speed) <= 0,
{
    if dx == 0 && dy == 0 {
        assert(speed * speed >= 0) by (nonlinear_arith);
    } else {
        lemma_aim_quotients(dx, dy, speed);
    }
}

/// The size of a number.
pub open spec fn magnitude(v: int) -> int {
    if v >= 0 {
        v
    } else {
        -v
    }
}

/// The vector that [`aim_component`] makes is as long as `speed` as nearly
/// as whole numbers allow: with `n` the rounded-up length of the direction,
/// each coordinate lacks less than one unit, and the whole less than one
/// part in `n`.
pub proof fn lemma_aim_nearly_as_long_as_speed(dx: int, dy: int, speed: int)
    requires
        0 <= speed <= i32::MAX,
        dx != 0 || dy != 0,
    ensures
        ({
            let n = ceil_sqrt(dx * dx + dy * dy);
            let x = magnitude(aim_component(dx, dy, speed));
            let y = magnitude(aim_component(dy, dx, speed));
            &&& n >= 1
            &&& (x + 1) * n > speed * magnitude(dx)
            &&& (y + 1) * n > speed * magnitude(dy)
            &&& ((x + 1) * (x + 1) + (y + 1) * (y + 1)) * (n * n) > (speed * speed) * ((n - 1) * (n
                - 1))
        }),
{
    let m = dx * dx + dy * dy;
    lemma_aim_quotients(dx, dy, speed);
    lemma_aim_quotients(dy, dx, speed);
    let n = ceil_sqrt(m);
    let x = magnitude(aim_component(dx, dy, speed));
    let y = magnitude(aim_component(dy, dx, speed));
    let ax = magnitude(dx);
    let ay = magnitude(dy);
    lemma_magnitude_of_quotient(speed, dx, n);
    lemma_magnitude_of_quotient(speed, dy, n);
    assert(x == (speed * ax) / n);
    assert(y == (speed * ay) / n);
    assert(speed * ax >= 0 && speed * ay >= 0) by (nonlinear_arith)
        requires
            speed >= 0,
            ax >= 0,
            ay >= 0,
    ;
    lemma_fundamental_div_mod(speed * ax, n);
    lemma_fundamental_div_mod(speed * ay, n);
    assert((x + 1) * n > speed * ax) by (nonlinear_arith)
        requires
            speed * ax == n * x + (speed * ax) % n,
            (speed * ax) % n < n,
    ;
    assert((y + 1) * n > speed * ay) by (nonlinear_arith)
        requires
            speed * ay == n * y + (speed * ay) % n,
            (speed * ay) % n < n,
    ;
    assert(((x + 1) * n) * ((x + 1) * n) > (speed * ax) * (speed * ax)) by (nonlinear_arith)
        requires
            (x + 1) * n > speed * ax,
            speed * ax >= 0,
    ;
    assert(((y + 1) * n) * ((y + 1) * n) > (speed * ay) * (speed * ay)) by (nonlinear_arith)
        requires
            (y + 1) * n > speed * ay,
            speed * ay >= 0,
    ;
    assert(((x + 1) * (x + 1) + (y + 1) * (y + 1)) * (n * n) == ((x + 1) * n) * ((x + 1) * n) + ((y
        + 1) * n) * ((y + 1) * n)) by (nonlinear_arith);
    assert((speed * ax) * (speed * ax) + (speed * ay) * (speed * ay) == (speed * speed) * m)
        by (nonlinear_arith)
        requires
            m == dx * dx + dy * dy,
            ax == dx || ax == -dx,
            ay == dy || ay == -dy,
    ;
    assert((speed * speed) * m >= (speed * speed) * ((n - 1) * (n - 1))) by (nonlinear_arith)
        requires
            m > (n - 1) * (n - 1),
    ;
}

/// The size of a quotient rounded towards zero is the quotient of the
/// sizes, rounded down.
proof fn lemma_magnitude_of_quotient(speed: int, d: int, n: int)
    requires
        0 <= speed <= i32::MAX,
        n > 0,
        -speed <= trunc_div(speed * d, n) <= speed,
    ensures
        magnitude(saturate(trunc_div(speed * d, n))) == (speed * magnitude(d)) / n,
{
    assert(speed * (-d) == -(speed * d)) by (nonlinear_arith);
    assert(d >= 0 ==> speed * d >= 0) by (nonlinear_arith)
        requires
            speed >= 0,
    ;
    assert(d <= 0 ==> speed * d <= 0) by (nonlinear_arith)
        requires
            speed >= 0,
    ;
    if speed * d >= 0 {
        lemma_fundamental_div_mod(speed * d, n);
        assert((speed * d) / n >= 0) by (nonlinear_arith)
            requires
                speed * d == n * ((speed * d) / n) + (speed * d) % n,
                0 <= (speed * d) % n < n,
                speed * d >= 0,
                n > 0,
        ;
        if d < 0 {
            assert(speed * d == 0);
            assert(speed * magnitude(d) == 0);
        }
    } else {
        lemma_fundamental_div_mod(-(speed * d), n);
        assert((-(speed * d)) / n >= 0) by (nonlinear_arith)
            requires
                -(speed * d) == n * ((-(speed * d)) / n) + (-(speed * d)) % n,
                0 <= (-(speed * d)) % n < n,
                -(speed * d) >= 0,
                n > 0,
        ;
    }
}

} // verus!
