use vstd::prelude::*;

verus! {

/// One of the two CIE standard illuminants a supported color space can declare
/// as its reference white.
#[derive(Clone, Copy, Debug, PartialEq, Eq, Structural)]
pub enum WhitePoint {
    /// CIE standard illuminant D50, the reference white of the Lab, LCh,
    /// ProPhoto RGB and XYZ-D50 spaces.
    D50,
    /// CIE standard illuminant D65, the reference white of every other
    /// supported space.
    D65,
}

impl WhitePoint {
    /// The CIE 1931 chromaticity `(x, y)` of the illuminant, in units of
    /// one ten-thousandth, as published by CSS Color 4.
    pub open spec fn spec_chromaticity_e4(self) -> (u16, u16) {
        match self {
            WhitePoint::D50 => (3457u16, 3585u16),
            WhitePoint::D65 => (3127u16, 3290u16),
        }
    }

    /// The CIE 1931 chromaticity `(x, y)` of the illuminant, in units of
    /// one ten-thousandth.
    pub fn chromaticity_e4(&self) -> (chromaticity: (u16, u16))
        ensures
            chromaticity == self.spec_chromaticity_e4(),
    {
        match self {
            WhitePoint::D50 => (3457, 3585),
            WhitePoint::D65 => (3127, 3290),
        }
    }
}

/// A type-level tag naming one reference white, for interfaces that fix the
/// white point of an XYZ value at compile time.
pub trait WhiteRef {
    /// The illuminant the tag stands for.
    spec fn spec_white_point() -> WhitePoint;

    /// The illuminant the tag stands for.
    fn white_point() -> (white: WhitePoint)
        ensures
            white == Self::spec_white_point(),
    ;
}

/// Tag for CIE standard illuminant D50.
#[derive(Clone, Copy, Debug)]
pub struct D50;

/// Tag for CIE standard illuminant D65.
#[derive(Clone, Copy, Debug)]
pub struct D65;

impl WhiteRef for D50 {
    open spec fn spec_white_point() -> WhitePoint {
        WhitePoint::D50
    }

    fn white_point() -> (white: WhitePoint) {
        WhitePoint::D50
    }
}

impl WhiteRef for D65 {
    open spec fn spec_white_point() -> WhitePoint {
        WhitePoint::D65
    }

    fn white_point() -> (white: WhitePoint) {
        WhitePoint::D65
    }
}

/// One of the two fixed Bradford chromatic-adaptation transforms.  The two are
/// numeric inverses of one another; exactly two exist because exactly two
/// reference whites do.
#[derive(Clone, Copy, Debug, PartialEq, Eq, Structural)]
pub enum Adaptation {
    /// Re-expresses XYZ values measured under D50 as values under D65.
    D50ToD65,
    /// Re-expresses XYZ values measured under D65 as values under D50.
    D65ToD50,
}

impl Adaptation {
    /// The white point an adaptation expects its input under.
    pub open spec fn spec_source(self) -> WhitePoint {
        match self {
            Adaptation::D50ToD65 => WhitePoint::D50,
            Adaptation::D65ToD50 => WhitePoint::D65,
        }
    }

    /// The white point an adaptation leaves its output under.
    pub open spec fn spec_destination(self) -> WhitePoint {
        match self {
            Adaptation::D50ToD65 => WhitePoint::D65,
            Adaptation::D65ToD50 => WhitePoint::D50,
        }
    }

    /// The adaptation that undoes this one.
    pub open spec fn spec_inverse(self) -> Adaptation {
        match self {
            Adaptation::D50ToD65 => Adaptation::D65ToD50,
            Adaptation::D65ToD50 => Adaptation::D50ToD65,
        }
    }

    /// The adaptation that undoes this one.
    pub fn inverse(&self) -> (inverse: Adaptation)
        ensures
            inverse == self.spec_inverse(),
    {
        match self {
            Adaptation::D50ToD65 => Adaptation::D65ToD50,
            Adaptation::D65ToD50 => Adaptation::D50ToD65,
        }
    }
}

/// The adaptation that re-expresses XYZ values measured under `from` as XYZ
/// values under `to`: none when the two illuminants agree, otherwise the one
/// Bradford transform in that direction.
pub open spec fn spec_adaptation(from: WhitePoint, to: WhitePoint) -> Option<Adaptation> {
    match (from, to) {
        (WhitePoint::D50, WhitePoint::D65) => Some(Adaptation::D50ToD65),
        (WhitePoint::D65, WhitePoint::D50) => Some(Adaptation::D65ToD50),
        _ => None,
    }
}

/// Selects the chromatic adaptation a change of reference white requires, if
/// the white point changes at all.
pub fn adaptation(from: WhitePoint, to: WhitePoint) -> (adaptation: Option<Adaptation>)
    ensures
        adaptation == spec_adaptation(from, to),
{
    match (from, to) {
        (WhitePoint::D50, WhitePoint::D65) => Some(Adaptation::D50ToD65),
        (WhitePoint::D65, WhitePoint::D50) => Some(Adaptation::D65ToD50),
        _ => None,
    }
}

/// An adaptation is selected exactly when the reference white changes, and the
/// selected transform goes from `from` to `to`.
pub proof fn lemma_adaptation_exact(from: WhitePoint, to: WhitePoint)
    ensures
        spec_adaptation(from, to) is None <==> from == to,
        spec_adaptation(from, to) matches Some(adaptation) ==> adaptation.spec_source() == from
            && adaptation.spec_destination() == to,
{
}

/// Adapting in the opposite direction selects the numeric inverse of the
/// transform selected in the forward direction.
pub proof fn lemma_adaptation_inverse(from: WhitePoint, to: WhitePoint)
    ensures
        spec_adaptation(from, to) matches Some(adaptation) ==> spec_adaptation(to, from)
            == Some(adaptation.spec_inverse()),
{
}

} // verus!
