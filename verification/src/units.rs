//! Fixed-point lengths, colours, points and offsets shared by both vertex lists.
//!
//! A length of `1000` is the distance from the centre of the viewport to one of
//! its edges, so the visible range of either axis is `-1000..=1000`.

use vstd::prelude::*;
use crate::aspect::Aspect;

verus! {

/// Thousandths in one normalized unit.
pub const UNIT: u32 = 1000;

/// A position in thousandths of the viewport's half-extent.
#[derive(Clone, Copy, Debug, PartialEq, Eq, Structural)]
pub struct Point {
    pub x: i64,
    pub y: i64,
}

/// A signed length of `num / den` thousandths.
///
/// Most lengths are whole. A horizontal thickness or radius is divided by the
/// aspect ratio, which leaves a fraction; it is kept exactly.
#[derive(Clone, Copy, Debug, PartialEq, Eq, Structural)]
pub struct Length {
    pub num: i64,
    pub den: u32,
}

impl Length {
    /// The denominator is positive.
    pub open spec fn wf(self) -> bool {
        self.den > 0
    }

    /// The length of `n` whole thousandths.
    pub open spec fn spec_whole(n: i64) -> Length {
        Length { num: n, den: 1 }
    }

    #[verifier::when_used_as_spec(spec_whole)]
    pub fn whole(n: i64) -> (l: Length)
        ensures
            l == Self::spec_whole(n),
            l.wf(),
    {
        Length { num: n, den: 1 }
    }

    /// `thousandths` divided by the aspect ratio `width / height`: the
    /// horizontal length that, once the viewport has stretched the picture by
    /// that ratio, looks as long as `thousandths` does vertically.
    pub open spec fn spec_over_aspect(thousandths: u16, aspect: Aspect) -> Length {
        Length { num: (thousandths * aspect.height) as i64, den: aspect.width }
    }

    /// Divides a length by an aspect ratio. The quotient is exact: multiplied
    /// by the ratio again it gives the length back.
    #[verifier::when_used_as_spec(spec_over_aspect)]
    pub fn over_aspect(thousandths: u16, aspect: Aspect) -> (l: Length)
        requires
            aspect.wf(),
        ensures
            l == Self::spec_over_aspect(thousandths, aspect),
            l.wf(),
            0 <= l.num,
            l.num == thousandths * aspect.height,
            l.num * aspect.width == thousandths * aspect.height * l.den,
    {
        assert(0 <= thousandths * aspect.height <= 0xffff * 0xffff_ffff) by (nonlinear_arith)
            requires
                0 <= thousandths <= 0xffff,
                0 <= aspect.height <= 0xffff_ffff,
        ;
        Length { num: (thousandths as i64) * (aspect.height as i64), den: aspect.width }
    }

    /// The same length in the opposite direction.
    pub open spec fn spec_negated(self) -> Length {
        Length { num: (-self.num) as i64, den: self.den }
    }

    #[verifier::when_used_as_spec(spec_negated)]
    pub fn negated(self) -> (l: Length)
        requires
            self.num > i64::MIN,
        ensures
            l == self.spec_negated(),
            l.num == -self.num,
            l.den == self.den,
    {
        Length { num: -self.num, den: self.den }
    }
}

/// A horizontal length divided by the aspect and a vertical length of the same
/// number of thousandths look equally long on a viewport of that aspect: in
/// pixels, half the viewport's width times the one equals half its height
/// times the other.
pub proof fn lemma_corrected_length_looks_equal(thousandths: u16, aspect: Aspect)
    requires
        aspect.wf(),
    ensures
        Length::over_aspect(thousandths, aspect).wf(),
        Length::over_aspect(thousandths, aspect).num * aspect.width * Length::whole(
            thousandths as i64,
        ).den == Length::whole(thousandths as i64).num * aspect.height * Length::over_aspect(
            thousandths,
            aspect,
        ).den,
{
    let l = Length::over_aspect(thousandths, aspect);
    assert(0 <= thousandths * aspect.height <= 0xffff * 0xffff_ffff) by (nonlinear_arith)
        requires
            0 <= thousandths <= 0xffff,
            0 <= aspect.height <= 0xffff_ffff,
    ;
    assert(l.num == thousandths * aspect.height);
    assert(l.num * aspect.width * 1 == thousandths * aspect.height * aspect.width)
        by (nonlinear_arith)
        requires
            l.num == thousandths * aspect.height,
    ;
}

/// A colour, each channel in thousandths of full intensity.
#[derive(Clone, Copy, Debug, PartialEq, Eq, Structural)]
pub struct Rgba {
    pub r: u16,
    pub g: u16,
    pub b: u16,
    pub a: u16,
}

impl Rgba {
    /// The colour of the main axes and of the tick dots.
    pub open spec fn spec_dark_blue() -> Rgba {
        Rgba { r: 50, g: 150, b: 700, a: 1000 }
    }

    /// The colour of the grid lines.
    pub open spec fn spec_grey() -> Rgba {
        Rgba { r: 600, g: 600, b: 600, a: 1000 }
    }

    /// The colour every frame is cleared to.
    pub open spec fn spec_white() -> Rgba {
        Rgba { r: 1000, g: 1000, b: 1000, a: 1000 }
    }

    /// The colour that a name of the palette stands for. A name that the
    /// palette does not hold stands for the default colour, red.
    pub open spec fn named(name: Seq<char>) -> Rgba {
        if name == "red"@ {
            Rgba { r: 1000, g: 0, b: 0, a: 1000 }
        } else if name == "green"@ {
            Rgba { r: 0, g: 1000, b: 0, a: 1000 }
        } else if name == "blue"@ {
            Rgba { r: 0, g: 0, b: 1000, a: 1000 }
        } else if name == "yellow"@ {
            Rgba { r: 1000, g: 1000, b: 0, a: 1000 }
        } else if name == "cyan"@ {
            Rgba { r: 0, g: 1000, b: 1000, a: 1000 }
        } else if name == "magenta"@ {
            Rgba { r: 1000, g: 0, b: 1000, a: 1000 }
        } else if name == "black"@ {
            Rgba { r: 0, g: 0, b: 0, a: 1000 }
        } else if name == "white"@ {
            Rgba { r: 1000, g: 1000, b: 1000, a: 1000 }
        } else {
            Rgba { r: 1000, g: 0, b: 0, a: 1000 }
        }
    }

    /// Looks a colour up by its name. An unknown name is no error: it gives
    /// the default colour.
    pub fn from_name(name: &str) -> (c: Rgba)
        ensures
            c == Self::named(name@),
    {
        if same_text(name, "red") {
            Rgba { r: 1000, g: 0, b: 0, a: 1000 }
        } else if same_text(name, "green") {
            Rgba { r: 0, g: 1000, b: 0, a: 1000 }
        } else if same_text(name, "blue") {
            Rgba { r: 0, g: 0, b: 1000, a: 1000 }
        } else if same_text(name, "yellow") {
            Rgba { r: 1000, g: 1000, b: 0, a: 1000 }
        } else if same_text(name, "cyan") {
            Rgba { r: 0, g: 1000, b: 1000, a: 1000 }
        } else if same_text(name, "magenta") {
            Rgba { r: 1000, g: 0, b: 1000, a: 1000 }
        } else if same_text(name, "black") {
            Rgba { r: 0, g: 0, b: 0, a: 1000 }
        } else if same_text(name, "white") {
            Rgba { r: 1000, g: 1000, b: 1000, a: 1000 }
        } else {
            Rgba { r: 1000, g: 0, b: 0, a: 1000 }
        }
    }

    #[verifier::when_used_as_spec(spec_dark_blue)]
    pub fn dark_blue() -> (c: Rgba)
        ensures
            c == Self::spec_dark_blue(),
    {
        Rgba { r: 50, g: 150, b: 700, a: 1000 }
    }

    #[verifier::when_used_as_spec(spec_grey)]
    pub fn grey() -> (c: Rgba)
        ensures
            c == Self::spec_grey(),
    {
        Rgba { r: 600, g: 600, b: 600, a: 1000 }
    }

    #[verifier::when_used_as_spec(spec_white)]
    pub fn white() -> (c: Rgba)
        ensures
            c == Self::spec_white(),
    {
        Rgba { r: 1000, g: 1000, b: 1000, a: 1000 }
    }
}

/// Whether two strings hold the same characters.
fn same_text(a: &str, b: &str) -> (same: bool)
    ensures
        same == (a@ == b@),
{
    let left = a.to_owned();
    let right = b.to_owned();
    left == right
}

/// A displacement from an anchor point.
///
/// `Straight` is a plain vector. `Polar` is the point of an axis-aligned
/// ellipse with radii `rx` and `ry` at the angle of `step` full turns out of
/// `of`, counted counter-clockwise from the positive x axis; `step == of`
/// names the full turn, which a host may evaluate apart from `step == 0`.
#[derive(Clone, Copy, Debug, PartialEq, Eq, Structural)]
pub enum Offset {
    Straight { dx: Length, dy: Length },
    Polar { step: u32, of: u32, rx: Length, ry: Length },
}

impl Offset {
    /// The null displacement.
    pub open spec fn spec_zero() -> Offset {
        Offset::Straight { dx: Length::whole(0), dy: Length::whole(0) }
    }

    #[verifier::when_used_as_spec(spec_zero)]
    pub fn zero() -> (o: Offset)
        ensures
            o == Self::spec_zero(),
    {
        Offset::Straight { dx: Length::whole(0), dy: Length::whole(0) }
    }

    /// Whether this offset lies on the circle of radius `radius` around its
    /// anchor.
    pub open spec fn on_circle(self, radius: u32) -> bool {
        &&& self matches Offset::Polar { step, of, rx, ry }
        &&& rx == Length::whole(radius as i64)
        &&& ry == Length::whole(radius as i64)
        &&& 0 < of
        &&& step <= of
    }
}

/// Vertex `k` of a fan of `segments` wedges that fills the ellipse with radii
/// `rx` and `ry`: wedge `k / 3` is the centre followed by the two points of
/// the ellipse that bound it, so that each wedge ends where the next begins.
pub open spec fn fan_offset(segments: u32, rx: Length, ry: Length, k: int) -> Offset {
    if k % 3 == 0 {
        Offset::zero()
    } else if k % 3 == 1 {
        Offset::Polar { step: (k / 3) as u32, of: segments, rx, ry }
    } else {
        Offset::Polar { step: (k / 3 + 1) as u32, of: segments, rx, ry }
    }
}

} // verus!
