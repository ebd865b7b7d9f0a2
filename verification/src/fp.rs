use vstd::prelude::*;

verus! {

/// Fixed-point scale: world coordinates, direction components and camera
/// scales are integers carrying this denominator, so a direction of unit
/// length has magnitude `FP`.
pub const FP: i64 = 1000;

/// A 2D vector in fixed-point units.
#[derive(Clone, Copy, PartialEq, Eq, Structural, Debug)]
pub struct Vec2Fp {
    pub x: i64,
    pub y: i64,
}

/// A position in window pixel coordinates, as the host reports the
/// pointer and the window size.
#[derive(Clone, Copy, PartialEq, Eq, Structural, Debug)]
pub struct Vec2Px {
    pub x: i64,
    pub y: i64,
}

/// Squared Euclidean norm of a fixed-point vector.
pub open spec fn norm_sq(v: Vec2Fp) -> int {
    v.x * v.x + v.y * v.y
}

/// Truncating (round-toward-zero) division, the semantics of hardware
/// integer division; on non-negative operands it agrees with Euclidean
/// division.
pub open spec fn tdiv(a: int, b: int) -> int {
    if a >= 0 {
        a / b
    } else {
        -((-a) / b)
    }
}

/// Absolute value.
pub open spec fn iabs(a: int) -> int {
    if a >= 0 {
        a
    } else {
        -a
    }
}

/// Integer square root, rounded down.
pub open spec fn sqrt_floor(n: int) -> int
    decreases n when n >= 0
{
    if n <= 0 {
        0
    } else {
        let r = sqrt_floor(n - 1);
        if (r + 1) * (r + 1) <= n {
            r + 1
        } else {
            r
        }
    }
}

/// `sqrt_floor(n)` is the unique non-negative integer whose square is at
/// most `n` while the next square is beyond it.
pub proof fn lemma_sqrt_floor_char(n: int)
    requires
        n >= 0,
    ensures
        0 <= sqrt_floor(n),
        sqrt_floor(n) * sqrt_floor(n) <= n,
        n < (sqrt_floor(n) + 1) * (sqrt_floor(n) + 1),
    decreases n,
{
    if n == 0 {
    } else {
        lemma_sqrt_floor_char(n - 1);
        let r = sqrt_floor(n - 1);
        assert((r + 1) * (r + 1) < (r + 2) * (r + 2)) by (nonlinear_arith)
            requires
                r >= 0,
        ;
    }
}

pub proof fn lemma_sqrt_floor_unique(n: int, r: int)
    requires
        n >= 0,
        r >= 0,
        r * r <= n,
        n < (r + 1) * (r + 1),
    ensures
        r == sqrt_floor(n),
{
    lemma_sqrt_floor_char(n);
    let s = sqrt_floor(n);
    if r < s {
        assert((r + 1) * (r + 1) <= s * s) by (nonlinear_arith)
            requires
                0 <= r,
                r + 1 <= s,
        ;
    } else if s < r {
        assert((s + 1) * (s + 1) <= r * r) by (nonlinear_arith)
            requires
                0 <= s,
                s + 1 <= r,
        ;
    }
}

/// A window-pixel position within plausible screen bounds; keeps the
/// drag arithmetic far from overflow.
pub const MAX_WINDOW_PX: i64 = 65536;

pub open spec fn px_valid(p: Vec2Px) -> bool {
    -MAX_WINDOW_PX <= p.x <= MAX_WINDOW_PX && -MAX_WINDOW_PX <= p.y <= MAX_WINDOW_PX
}

/// A direction vector with both components within one fixed-point unit.
pub open spec fn dir_valid(v: Vec2Fp) -> bool {
    iabs(v.x as int) <= FP && iabs(v.y as int) <= FP
}

/// Window size in pixels. A window is usable once both dimensions are
/// at least one pixel.
#[derive(Clone, Copy, PartialEq, Eq, Structural, Debug)]
pub struct WindowSize {
    pub width: i64,
    pub height: i64,
}

impl WindowSize {
    pub open spec fn valid(self) -> bool {
        1 <= self.width <= MAX_WINDOW_PX && 1 <= self.height <= MAX_WINDOW_PX
    }
}

/// Length of the window diagonal in whole pixels, rounded down.
pub open spec fn window_diag(w: WindowSize) -> int {
    sqrt_floor(w.width * w.width + w.height * w.height)
}

/// Largest integer whose square does not exceed `n`.
pub fn isqrt(n: u64) -> (r: u64)
    ensures
        r * r <= n < (r + 1) * (r + 1),
        r == sqrt_floor(n as int),
{
    let mut lo: u64 = 0;
    let mut hi: u64 = 0x1_0000_0000u64;
    while hi - lo > 1
        invariant
            lo < hi <= 0x1_0000_0000u64,
            lo * lo <= n,
            n < hi * hi,
        decreases hi - lo,
    {
        let mid: u64 = lo + (hi - lo) / 2;
        assert(mid * mid <= 0xFFFF_FFFFu64 * 0xFFFF_FFFFu64) by (nonlinear_arith)
            requires
                mid <= 0xFFFF_FFFFu64,
        ;
        if mid * mid <= n {
            lo = mid;
        } else {
            hi = mid;
        }
    }
    proof {
        lemma_sqrt_floor_unique(n as int, lo as int);
    }
    lo
}

/// Truncating division by a positive divisor never grows a magnitude.
pub proof fn lemma_tdiv_bound(a: int, b: int)
    requires
        b >= 1,
    ensures
        iabs(tdiv(a, b)) <= iabs(a),
{
    let m = iabs(a);
    let q = m / b;
    vstd::arithmetic::div_mod::lemma_fundamental_div_mod(m, b);
    vstd::arithmetic::div_mod::lemma_mod_bound(m, b);
    assert(0 <= q <= m) by (nonlinear_arith)
        requires
            b * q + m % b == m,
            0 <= m % b < b,
            m >= 0,
            b >= 1,
    ;
}

/// A vector longer than one fixed-point unit is pulled back onto the
/// unit circle by dividing each component by the vector's length; a
/// shorter one passes unchanged.
pub open spec fn clamp_unit_spec(v: Vec2Fp) -> Vec2Fp {
    if norm_sq(v) <= FP * FP {
        v
    } else {
        let len = sqrt_floor(norm_sq(v));
        Vec2Fp { x: tdiv(v.x * FP, len) as i64, y: tdiv(v.y * FP, len) as i64 }
    }
}

/// One component of the clamp: for `0 <= a <= l`, the truncated quotient
/// `a * FP / l` stays within `[0, FP]` and brackets `a * FP`.
proof fn lemma_scale_bounds(a: int, l: int) -> (p: int)
    requires
        0 <= a <= l,
        l >= 1,
    ensures
        p == (a * FP) / l,
        0 <= p <= FP,
        p * l <= a * FP < (p + 1) * l,
{
    let p = (a * FP) / l;
    vstd::arithmetic::div_mod::lemma_fundamental_div_mod(a * FP, l);
    vstd::arithmetic::div_mod::lemma_mod_bound(a * FP, l);
    assert(a * FP >= 0) by (nonlinear_arith)
        requires
            a >= 0,
            FP == 1000,
    ;
    assert(a * FP == l * p + (a * FP) % l);
    assert(p >= 0) by (nonlinear_arith)
        requires
            l * p + (a * FP) % l >= 0,
            0 <= (a * FP) % l < l,
            l >= 1,
    ;
    assert(p * l <= a * FP < (p + 1) * l) by (nonlinear_arith)
        requires
            a * FP == l * p + (a * FP) % l,
            0 <= (a * FP) % l < l,
    ;
    assert(p <= FP) by (nonlinear_arith)
        requires
            p * l <= a * FP,
            a <= l,
            FP >= 0,
            l >= 1,
            p >= 0,
    ;
    p
}

/// The law of the clamp: whatever vector comes in, the one that comes
/// out has squared magnitude within rounding distance of `FP * FP` —
/// the clamped direction is unit length to fixed-point precision.
pub proof fn lemma_clamp_norm(v: Vec2Fp)
    requires
        norm_sq(v) > FP * FP,
        iabs(v.x as int) <= 2_000_000_000,
        iabs(v.y as int) <= 2_000_000_000,
    ensures
        FP * FP - 4 * FP - 1 <= norm_sq(clamp_unit_spec(v)) <= FP * FP + 2 * FP,
        dir_valid(clamp_unit_spec(v)),
{
    let ns = norm_sq(v);
    let a = iabs(v.x as int);
    let b = iabs(v.y as int);
    assert(v.x * v.x == a * a && v.y * v.y == b * b) by (nonlinear_arith)
        requires
            a == iabs(v.x as int),
            b == iabs(v.y as int),
    ;
    lemma_sqrt_floor_char(ns);
    let l = sqrt_floor(ns);
    assert(a <= l && b <= l) by (nonlinear_arith)
        requires
            a >= 0,
            b >= 0,
            l >= 0,
            a * a + b * b < (l + 1) * (l + 1),
    ;
    assert(l >= FP) by (nonlinear_arith)
        requires
            ns > FP * FP,
            ns < (l + 1) * (l + 1),
            l >= 0,
            FP == 1000,
    ;
    let p = lemma_scale_bounds(a, l);
    let q = lemma_scale_bounds(b, l);

    // the clamped components are the signed counterparts of p and q
    let c = clamp_unit_spec(v);
    assert(tdiv(v.x * FP, l) == if v.x >= 0 { p } else { -p }) by (nonlinear_arith)
        requires
            p == (a * FP) / l,
            a == iabs(v.x as int),
    ;
    assert(tdiv(v.y * FP, l) == if v.y >= 0 { q } else { -q }) by (nonlinear_arith)
        requires
            q == (b * FP) / l,
            b == iabs(v.y as int),
    ;
    assert(c.x == tdiv(v.x * FP, l) as i64 && c.y == tdiv(v.y * FP, l) as i64);
    assert(norm_sq(c) == p * p + q * q) by (nonlinear_arith)
        requires
            c.x == p || c.x == -p,
            c.y == q || c.y == -q,
            0 <= p <= FP,
            0 <= q <= FP,
    ;
    let s = p * p + q * q;

    // upper bound: squaring p * l <= a * FP and summing
    assert((p * p) * (l * l) <= (a * a) * (FP * FP)) by (nonlinear_arith)
        requires
            0 <= p * l,
            p * l <= a * FP,
            p >= 0,
            l >= 0,
    ;
    assert((q * q) * (l * l) <= (b * b) * (FP * FP)) by (nonlinear_arith)
        requires
            0 <= q * l,
            q * l <= b * FP,
            q >= 0,
            l >= 0,
    ;
    assert(s * (l * l) <= ns * (FP * FP)) by (nonlinear_arith)
        requires
            (p * p) * (l * l) <= (a * a) * (FP * FP),
            (q * q) * (l * l) <= (b * b) * (FP * FP),
            s == p * p + q * q,
            ns == a * a + b * b,
    ;
    assert(ns <= l * l + 2 * l) by (nonlinear_arith)
        requires
            ns < (l + 1) * (l + 1),
    ;
    assert(s <= FP * FP + 2 * FP) by (nonlinear_arith)
        requires
            s * (l * l) <= ns * (FP * FP),
            ns <= l * l + 2 * l,
            l >= FP,
            FP == 1000,
            s >= 0,
    ;

    // lower bound: squaring a * FP < (p + 1) * l and summing
    assert((a * a) * (FP * FP) < ((p + 1) * (p + 1)) * (l * l)) by (nonlinear_arith)
        requires
            0 <= a * FP,
            a * FP < (p + 1) * l,
            p >= 0,
            l >= 0,
    ;
    assert((b * b) * (FP * FP) < ((q + 1) * (q + 1)) * (l * l)) by (nonlinear_arith)
        requires
            0 <= b * FP,
            b * FP < (q + 1) * l,
            q >= 0,
            l >= 0,
    ;
    assert(((p + 1) * (p + 1) + (q + 1) * (q + 1)) * (l * l) > (FP * FP) * (l * l))
        by (nonlinear_arith)
        requires
            (a * a) * (FP * FP) < ((p + 1) * (p + 1)) * (l * l),
            (b * b) * (FP * FP) < ((q + 1) * (q + 1)) * (l * l),
            ns == a * a + b * b,
            ns > FP * FP,
            l * l <= ns,
            l >= FP,
            FP == 1000,
    ;
    assert((p + 1) * (p + 1) + (q + 1) * (q + 1) > FP * FP) by (nonlinear_arith)
        requires
            ((p + 1) * (p + 1) + (q + 1) * (q + 1)) * (l * l) > (FP * FP) * (l * l),
            l >= 1,
    ;
    assert(s >= FP * FP - 4 * FP - 1) by (nonlinear_arith)
        requires
            (p + 1) * (p + 1) + (q + 1) * (q + 1) > FP * FP,
            s == p * p + q * q,
            0 <= p <= FP,
            0 <= q <= FP,
    ;
}

/// Pull a direction back onto the fixed-point unit circle if it is too
/// long.
pub fn clamp_unit(v: Vec2Fp) -> (r: Vec2Fp)
    requires
        iabs(v.x as int) <= 2_000_000_000,
        iabs(v.y as int) <= 2_000_000_000,
    ensures
        r == clamp_unit_spec(v),
        dir_valid(r),
        norm_sq(r) <= FP * FP + 2 * FP,
{
    proof {
        assert(v.x * v.x <= 2_000_000_000 * 2_000_000_000 && v.x * v.x >= 0) by (nonlinear_arith)
            requires
                iabs(v.x as int) <= 2_000_000_000,
        ;
        assert(v.y * v.y <= 2_000_000_000 * 2_000_000_000 && v.y * v.y >= 0) by (nonlinear_arith)
            requires
                iabs(v.y as int) <= 2_000_000_000,
        ;
    }
    let ns: i64 = v.x * v.x + v.y * v.y;
    if ns <= FP * FP {
        proof {
            assert(iabs(v.x as int) <= FP && iabs(v.y as int) <= FP) by (nonlinear_arith)
                requires
                    v.x * v.x + v.y * v.y <= FP * FP,
                    FP == 1000,
            ;
        }
        v
    } else {
        proof {
            lemma_clamp_norm(v);
            lemma_sqrt_floor_char(ns as int);
        }
        let len: u64 = isqrt(ns as u64);
        proof {
            assert(len >= FP && len <= 3_000_000_000u64) by (nonlinear_arith)
                requires
                    len * len <= ns,
                    ns < (len + 1) * (len + 1),
                    ns > FP * FP,
                    ns <= 2 * 2_000_000_000 * 2_000_000_000,
                    len >= 0,
                    FP == 1000,
            ;
        }
        let rx: i64 = div_trunc(v.x * FP, len as i64);
        let ry: i64 = div_trunc(v.y * FP, len as i64);
        Vec2Fp { x: rx, y: ry }
    }
}

/// Length of the window diagonal in whole pixels, rounded down.
pub fn diagonal(w: &WindowSize) -> (d: i64)
    requires
        w.valid(),
    ensures
        d == window_diag(*w),
        1 <= d <= 92682,
{
    proof {
        assert(1 <= w.width * w.width <= 65536 * 65536) by (nonlinear_arith)
            requires
                1 <= w.width <= 65536,
        ;
        assert(1 <= w.height * w.height <= 65536 * 65536) by (nonlinear_arith)
            requires
                1 <= w.height <= 65536,
        ;
    }
    let n: u64 = (w.width * w.width + w.height * w.height) as u64;
    let d: u64 = isqrt(n);
    proof {
        assert(d <= 92682) by (nonlinear_arith)
            requires
                d * d <= n,
                n <= 2 * 65536 * 65536,
                d >= 0,
        ;
        assert(d >= 1) by (nonlinear_arith)
            requires
                n >= 2,
                n < (d + 1) * (d + 1),
                d >= 0,
        ;
    }
    d as i64
}

/// Truncating division of a possibly negative numerator by a positive
/// divisor, matching `tdiv`.
pub fn div_trunc(a: i64, b: i64) -> (r: i64)
    requires
        b > 0,
        a > i64::MIN,
    ensures
        r == tdiv(a as int, b as int),
{
    if a >= 0 {
        let q: u64 = (a as u64) / (b as u64);
        assert((a as u64) / (b as u64) <= a as u64) by (nonlinear_arith)
            requires
                b as u64 >= 1,
        ;
        q as i64
    } else {
        let m: u64 = (-a) as u64;
        let q: u64 = m / (b as u64);
        assert(m / (b as u64) <= m) by (nonlinear_arith)
            requires
                b as u64 >= 1,
        ;
        -(q as i64)
    }
}

} // verus!
