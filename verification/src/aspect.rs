//! Surface sizes and the aspect ratio derived from them.
//!
//! An aspect ratio is kept as the fraction `width : height` in lowest terms, so
//! that two surfaces of the same proportions have the same aspect, and whatever
//! is generated at that aspect is the same for both.

use vstd::prelude::*;
use vstd::arithmetic::div_mod::{
    lemma_fundamental_div_mod,
    lemma_mod_multiples_basic,
    lemma_truncate_middle,
};

verus! {

/// The pixel size of the presentation surface.
#[derive(Clone, Copy, Debug, PartialEq, Eq, Structural)]
pub struct SurfaceSize {
    pub width: u32,
    pub height: u32,
}

impl SurfaceSize {
    /// A surface without area cannot be presented to.
    pub open spec fn spec_is_empty(&self) -> bool {
        self.width == 0 || self.height == 0
    }

    #[verifier::when_used_as_spec(spec_is_empty)]
    pub fn is_empty(&self) -> (empty: bool)
        ensures
            empty == self.spec_is_empty(),
    {
        self.width == 0 || self.height == 0
    }
}

/// The greatest common divisor, by Euclid's recursion; `gcd(a, 0) == a`.
pub open spec fn gcd(a: nat, b: nat) -> nat
    decreases b,
{
    if b == 0 {
        a
    } else {
        gcd(b, a % b)
    }
}

/// The ratio `width / height` of a surface, as a fraction.
#[derive(Clone, Copy, Debug, PartialEq, Eq, Structural)]
pub struct Aspect {
    pub width: u32,
    pub height: u32,
}

impl Aspect {
    /// The ratio is positive and finite.
    pub open spec fn wf(&self) -> bool {
        self.width > 0 && self.height > 0
    }

    /// The fraction is in lowest terms.
    pub open spec fn is_reduced(&self) -> bool {
        gcd(self.width as nat, self.height as nat) == 1
    }

    /// The aspect of a surface of the given size.
    pub open spec fn of(size: SurfaceSize) -> Aspect {
        let g = gcd(size.width as nat, size.height as nat);
        Aspect { width: (size.width as nat / g) as u32, height: (size.height as nat / g) as u32 }
    }

    /// The smallest surface that has this aspect.
    pub open spec fn spec_as_size(&self) -> SurfaceSize {
        SurfaceSize { width: self.width, height: self.height }
    }

    /// Derives the aspect of a surface from its pixel size.
    pub fn from_size(size: SurfaceSize) -> (aspect: Aspect)
        requires
            !size.is_empty(),
        ensures
            aspect == Aspect::of(size),
            aspect.wf(),
            aspect.is_reduced(),
            aspect.width * size.height == aspect.height * size.width,
    {
        proof {
            lemma_aspect_of(size);
        }
        let g: u32 = greatest_common_divisor(size.width, size.height);
        Aspect { width: size.width / g, height: size.height / g }
    }

    #[verifier::when_used_as_spec(spec_as_size)]
    pub fn as_size(&self) -> (size: SurfaceSize)
        ensures
            size == self.spec_as_size(),
    {
        SurfaceSize { width: self.width, height: self.height }
    }
}

/// Euclid's algorithm.
pub fn greatest_common_divisor(a: u32, b: u32) -> (g: u32)
    ensures
        g == gcd(a as nat, b as nat),
{
    let mut x: u32 = a;
    let mut y: u32 = b;
    while y != 0
        invariant
            gcd(x as nat, y as nat) == gcd(a as nat, b as nat),
        decreases y,
    {
        let r: u32 = x % y;
        x = y;
        y = r;
    }
    x
}

/// The greatest common divisor of a positive number and any other is positive.
pub proof fn lemma_gcd_positive(a: nat, b: nat)
    requires
        a > 0 || b > 0,
    ensures
        gcd(a, b) > 0,
    decreases b,
{
    if b != 0 {
        lemma_gcd_positive(b, a % b);
    }
}

/// The greatest common divisor divides both of its arguments.
pub proof fn lemma_gcd_divides(a: nat, b: nat)
    requires
        a > 0 || b > 0,
    ensures
        a == gcd(a, b) * (a / gcd(a, b)),
        b == gcd(a, b) * (b / gcd(a, b)),
    decreases b,
{
    let g = gcd(a, b);
    lemma_gcd_positive(a, b);
    if b == 0 {
        lemma_mod_multiples_basic(1, a as int);
        lemma_mod_multiples_basic(0, a as int);
        lemma_fundamental_div_mod(a as int, a as int);
        lemma_fundamental_div_mod(0, a as int);
    } else {
        let r = a % b;
        lemma_gcd_divides(b, r);
        let x = b / g;
        let y = r / g;
        let q = a / b;
        lemma_fundamental_div_mod(a as int, b as int);
        assert(a == (x * q + y) * g) by (nonlinear_arith)
            requires
                a == b * q + r,
                b == g * x,
                r == g * y,
        ;
        lemma_mod_multiples_basic((x * q + y) as int, g as int);
        lemma_fundamental_div_mod(a as int, g as int);
    }
}

/// A common factor of both arguments is a factor of their greatest common divisor.
pub proof fn lemma_gcd_scales(k: nat, a: nat, b: nat)
    requires
        k > 0,
    ensures
        gcd(k * a, k * b) == k * gcd(a, b),
    decreases b,
{
    if b == 0 {
        assert(k * b == 0) by (nonlinear_arith)
            requires
                b == 0,
        ;
    } else {
        lemma_truncate_middle(a as int, k as int, b as int);
        assert(k * b > 0);
        assert((k * a) % (k * b) == k * (a % b));
        lemma_gcd_scales(k, b, a % b);
    }
}

/// The aspect of a surface with area is a positive fraction in lowest terms
/// that has the proportions of the surface.
pub proof fn lemma_aspect_of(size: SurfaceSize)
    requires
        !size.is_empty(),
    ensures
        Aspect::of(size).wf(),
        Aspect::of(size).is_reduced(),
        Aspect::of(size).width * size.height == Aspect::of(size).height * size.width,
        size.width == gcd(size.width as nat, size.height as nat) * Aspect::of(size).width,
        size.height == gcd(size.width as nat, size.height as nat) * Aspect::of(size).height,
        0 < gcd(size.width as nat, size.height as nat) <= u32::MAX,
{
    let w = size.width as nat;
    let h = size.height as nat;
    let g = gcd(w, h);
    let a = w / g;
    let b = h / g;
    lemma_gcd_positive(w, h);
    lemma_gcd_divides(w, h);
    assert(a > 0 && a <= w && g <= w) by (nonlinear_arith)
        requires
            w == g * a,
            w > 0,
            g > 0,
    ;
    assert(b > 0 && b <= h) by (nonlinear_arith)
        requires
            h == g * b,
            h > 0,
            g > 0,
    ;
    lemma_gcd_scales(g, a, b);
    assert(gcd(a, b) == 1) by (nonlinear_arith)
        requires
            g == g * gcd(a, b),
            g > 0,
    ;
    assert(a * h == b * w) by (nonlinear_arith)
        requires
            w == g * a,
            h == g * b,
    ;
}

/// Deriving the aspect again from an aspect's own width and height gives the
/// same aspect: a derived aspect is a fixed point of the derivation.
pub proof fn lemma_aspect_rederived(size: SurfaceSize)
    requires
        !size.is_empty(),
    ensures
        !Aspect::of(size).as_size().is_empty(),
        Aspect::of(Aspect::of(size).as_size()) == Aspect::of(size),
{
    lemma_aspect_of(size);
    let a = Aspect::of(size);
    assert(a.width as nat / 1 == a.width as nat);
    assert(a.height as nat / 1 == a.height as nat);
}

/// Two surfaces of the same proportions have the same aspect, whatever their
/// sizes.
pub proof fn lemma_same_proportions_same_aspect(first: SurfaceSize, second: SurfaceSize)
    requires
        !first.is_empty(),
        !second.is_empty(),
        first.width * second.height == second.width * first.height,
    ensures
        Aspect::of(first) == Aspect::of(second),
{
    lemma_aspect_of(first);
    lemma_aspect_of(second);
    let g1 = gcd(first.width as nat, first.height as nat);
    let g2 = gcd(second.width as nat, second.height as nat);
    let a1 = Aspect::of(first).width as nat;
    let b1 = Aspect::of(first).height as nat;
    let a2 = Aspect::of(second).width as nat;
    let b2 = Aspect::of(second).height as nat;
    assert(a1 * b2 == a2 * b1) by (nonlinear_arith)
        requires
            (g1 * a1) * (g2 * b2) == (g2 * a2) * (g1 * b1),
            g1 > 0,
            g2 > 0,
    ;
    lemma_gcd_scales(b2, a1, b1);
    lemma_gcd_scales(b1, a2, b2);
    assert(b2 * a1 == b1 * a2 && b2 * b1 == b1 * b2) by (nonlinear_arith)
        requires
            a1 * b2 == a2 * b1,
    ;
    assert(b2 == b1) by (nonlinear_arith)
        requires
            gcd(b2 * a1, b2 * b1) == b2 * 1,
            gcd(b1 * a2, b1 * b2) == b1 * 1,
            gcd(b2 * a1, b2 * b1) == gcd(b1 * a2, b1 * b2),
    ;
    assert(a1 == a2) by (nonlinear_arith)
        requires
            a1 * b2 == a2 * b1,
            b1 == b2,
            b1 > 0,
    ;
}

/// Two surfaces with the same aspect have the same proportions.
pub proof fn lemma_same_aspect_same_proportions(first: SurfaceSize, second: SurfaceSize)
    requires
        !first.is_empty(),
        !second.is_empty(),
        Aspect::of(first) == Aspect::of(second),
    ensures
        first.width * second.height == second.width * first.height,
{
    lemma_aspect_of(first);
    lemma_aspect_of(second);
    let g1 = gcd(first.width as nat, first.height as nat);
    let g2 = gcd(second.width as nat, second.height as nat);
    let a = Aspect::of(first).width as nat;
    let b = Aspect::of(first).height as nat;
    assert((g1 * a) * (g2 * b) == (g2 * a) * (g1 * b)) by (nonlinear_arith);
}

} // verus!
