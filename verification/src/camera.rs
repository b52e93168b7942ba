//! The camera's pure value state and the integer geometry it is reasoned
//! about with.
//!
//! Positions are fixed-point: `SCALE` units stand for one world unit.  The
//! aspect ratio is kept as the exact pair of surface dimensions, so
//! resizing can be reasoned about without rounding.  The perspective
//! projection itself is carried out by the host on the values stored here.

use vstd::prelude::*;

verus! {

/// Fixed-point sub-units per world unit.
pub const SCALE: i64 = 1000;

/// Largest coordinate magnitude the controller arithmetic is proved
/// overflow-free for.
pub const COORD_LIMIT: i64 = 0x4000_0000;

/// A fixed-point position or direction.
#[derive(Clone, Copy, PartialEq, Eq, Structural, Debug)]
pub struct Vec3I {
    pub x: i64,
    pub y: i64,
    pub z: i64,
}

impl Vec3I {
    /// The vector's components, as unbounded integers.
    pub open spec fn s(self) -> (int, int, int) {
        (self.x as int, self.y as int, self.z as int)
    }

    pub open spec fn in_limit(self) -> bool {
        &&& -COORD_LIMIT <= self.x <= COORD_LIMIT
        &&& -COORD_LIMIT <= self.y <= COORD_LIMIT
        &&& -COORD_LIMIT <= self.z <= COORD_LIMIT
    }
}

pub open spec fn add3(a: (int, int, int), b: (int, int, int)) -> (int, int, int) {
    (a.0 + b.0, a.1 + b.1, a.2 + b.2)
}

pub open spec fn sub3(a: (int, int, int), b: (int, int, int)) -> (int, int, int) {
    (a.0 - b.0, a.1 - b.1, a.2 - b.2)
}

pub open spec fn dot3(a: (int, int, int), b: (int, int, int)) -> int {
    a.0 * b.0 + a.1 * b.1 + a.2 * b.2
}

/// Squared Euclidean length.
pub open spec fn norm2(v: (int, int, int)) -> int {
    dot3(v, v)
}

pub open spec fn cross3(a: (int, int, int), b: (int, int, int)) -> (int, int, int) {
    (a.1 * b.2 - a.2 * b.1, a.2 * b.0 - a.0 * b.2, a.0 * b.1 - a.1 * b.0)
}

/// The integer square root: the largest `r` with `r * r <= n`.
pub open spec fn spec_isqrt(n: nat) -> nat
    decreases n,
{
    if n == 0 {
        0
    } else {
        let r = spec_isqrt((n - 1) as nat);
        if (r + 1) * (r + 1) <= n {
            r + 1
        } else {
            r
        }
    }
}

pub proof fn lemma_isqrt_bounds(n: nat)
    ensures
        spec_isqrt(n) * spec_isqrt(n) <= n,
        n < (spec_isqrt(n) + 1) * (spec_isqrt(n) + 1),
    decreases n,
{
    if n > 0 {
        lemma_isqrt_bounds((n - 1) as nat);
        let r = spec_isqrt((n - 1) as nat);
        if (r + 1) * (r + 1) <= n {
            assert(spec_isqrt(n) == r + 1);
            assert((r + 2) * (r + 2) > n) by (nonlinear_arith)
                requires
                    n - 1 < (r + 1) * (r + 1),
            ;
            assert(spec_isqrt(n) * spec_isqrt(n) <= n);
            assert((spec_isqrt(n) + 1) * (spec_isqrt(n) + 1) == (r + 2) * (r + 2));
            assert(n < (spec_isqrt(n) + 1) * (spec_isqrt(n) + 1));
        } else {
            assert(spec_isqrt(n) == r);
            assert(r * r <= n - 1 < n);
            assert(spec_isqrt(n) * spec_isqrt(n) <= n);
            assert(n < (spec_isqrt(n) + 1) * (spec_isqrt(n) + 1));
        }
    } else {
        assert(spec_isqrt(n) == 0);
        assert((spec_isqrt(n) + 1) * (spec_isqrt(n) + 1) == 1) by (nonlinear_arith)
            requires
                spec_isqrt(n) == 0,
        ;
    }
}

/// Any value enclosed by the square bounds is the square root.
pub proof fn lemma_isqrt_unique(n: nat, r: nat)
    requires
        r * r <= n,
        n < (r + 1) * (r + 1),
    ensures
        r == spec_isqrt(n),
{
    lemma_isqrt_bounds(n);
    let q = spec_isqrt(n);
    if r < q {
        assert(false) by (nonlinear_arith)
            requires
                r < q,
                q * q <= n,
                n < (r + 1) * (r + 1),
        ;
    }
    if q < r {
        assert(false) by (nonlinear_arith)
            requires
                q < r,
                r * r <= n,
                n < (q + 1) * (q + 1),
        ;
    }
}

/// Binary-search integer square root.
pub fn isqrt(n: u128) -> (r: u64)
    ensures
        r == spec_isqrt(n as nat),
        (r as int) * (r as int) <= n < (r as int + 1) * (r as int + 1),
{
    let mut lo: u128 = 0;
    let mut hi: u128 = 0xFFFF_FFFF_FFFF_FFFF;
    proof {
        assert((hi as int + 1) * (hi as int + 1) > n) by (nonlinear_arith)
            requires
                hi == 0xFFFF_FFFF_FFFF_FFFFu128,
                n <= 0xFFFF_FFFF_FFFF_FFFF_FFFF_FFFF_FFFF_FFFFu128,
        ;
    }
    while lo < hi
        invariant
            lo <= hi <= 0xFFFF_FFFF_FFFF_FFFF,
            (lo as int) * (lo as int) <= n,
            n < (hi as int + 1) * (hi as int + 1),
        decreases hi - lo,
    {
        let mid = lo + (hi - lo + 1) / 2;
        proof {
            assert(mid * mid <= 0xFFFF_FFFF_FFFF_FFFFu128 * 0xFFFF_FFFF_FFFF_FFFFu128)
                by (nonlinear_arith)
                requires
                    mid <= 0xFFFF_FFFF_FFFF_FFFFu128,
            ;
        }
        if mid * mid <= n {
            lo = mid;
        } else {
            hi = mid - 1;
        }
    }
    proof {
        lemma_isqrt_unique(n as nat, lo as nat);
    }
    lo as u64
}

/// A pure camera value.  `aspect_width / aspect_height` is the exact aspect
/// ratio; `fovy_mdeg` is the vertical field of view in millidegrees;
/// `znear` and `zfar` are fixed-point clip distances.
#[derive(Clone, Copy, PartialEq, Eq, Structural, Debug)]
pub struct Camera {
    pub eye: Vec3I,
    pub target: Vec3I,
    pub up: Vec3I,
    pub aspect_width: u32,
    pub aspect_height: u32,
    pub fovy_mdeg: u32,
    pub znear: i64,
    pub zfar: i64,
}

impl Camera {
    /// The eye-to-target direction, unnormalized.
    pub open spec fn spec_forward(self) -> (int, int, int) {
        sub3(self.target.s(), self.eye.s())
    }

    /// Coordinates within which one controller step cannot overflow.
    pub open spec fn in_bounds(self) -> bool {
        &&& self.eye.in_limit()
        &&& self.target.in_limit()
        &&& self.up.in_limit()
    }
}

} // verus!
