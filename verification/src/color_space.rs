use vstd::prelude::*;

use crate::white::WhitePoint;

verus! {

/// The color spaces that color components can be specified in, as enumerated
/// by CSS Color 4.
#[derive(Clone, Copy, Debug, PartialEq, Eq, Structural)]
pub enum ColorSpace {
    /// CIE L*a*b*.
    Lab,
    /// Polar (lightness, chroma, hue) form of [`ColorSpace::Lab`].
    Lch,
    /// Oklab.
    Oklab,
    /// Polar form of [`ColorSpace::Oklab`].
    Oklch,
    /// Gamma-encoded sRGB.
    Srgb,
    /// sRGB with a linear-light transfer function.
    SrgbLinear,
    /// Display P3.
    DisplayP3,
    /// A98 RGB.
    A98Rgb,
    /// ProPhoto RGB.
    ProphotoRgb,
    /// ITU-R BT.2020.
    Rec2020,
    /// CIE XYZ with a D50 reference white.
    XyzD50,
    /// CIE XYZ with a D65 reference white.
    XyzD65,
}

/// The transfer function (companding curve) a color space stores its
/// components under.  Spaces that share a curve share a variant.
#[derive(Clone, Copy, Debug, PartialEq, Eq, Structural)]
pub enum TransferFunction {
    /// No companding: components are already linear light.
    Linear,
    /// The piecewise sRGB curve, used by both sRGB and Display P3.
    Srgb,
    /// The pure power law of A98 RGB.
    A98,
    /// The piecewise ProPhoto curve.
    ProPhoto,
    /// The piecewise BT.2020 curve.
    Rec2020,
}

impl ColorSpace {
    /// Whether the space parameterizes chromaticity by hue and chroma rather
    /// than by two rectangular axes.
    pub open spec fn spec_is_polar(self) -> bool {
        self == ColorSpace::Lch || self == ColorSpace::Oklch
    }

    /// Whether the space uses two rectangular chromaticity axes.
    pub open spec fn spec_is_rectangular(self) -> bool {
        !self.spec_is_polar()
    }

    /// Returns true if the color space represents a rectangular orthogonal color.
    pub fn is_rectangular(&self) -> (rectangular: bool)
        ensures
            rectangular == self.spec_is_rectangular(),
    {
        !self.is_polar()
    }

    /// Returns true if the color space represents a cylindrical polar color.
    pub fn is_polar(&self) -> (polar: bool)
        ensures
            polar == self.spec_is_polar(),
    {
        matches!(self, ColorSpace::Lch | ColorSpace::Oklch)
    }

    /// The reference white the space declares: XYZ values pivoted out of the
    /// space are measured under this illuminant.
    pub open spec fn spec_white_point(self) -> WhitePoint {
        match self {
            ColorSpace::Lab => WhitePoint::D50,
            ColorSpace::Lch => WhitePoint::D50,
            ColorSpace::ProphotoRgb => WhitePoint::D50,
            ColorSpace::XyzD50 => WhitePoint::D50,
            _ => WhitePoint::D65,
        }
    }

    /// The reference white the space declares.
    pub fn white_point(&self) -> (white: WhitePoint)
        ensures
            white == self.spec_white_point(),
    {
        match self {
            ColorSpace::Lab | ColorSpace::Lch | ColorSpace::ProphotoRgb | ColorSpace::XyzD50 => {
                WhitePoint::D50
            },
            _ => WhitePoint::D65,
        }
    }

    /// The transfer function the space's stored components are encoded under.
    pub open spec fn spec_transfer_function(self) -> TransferFunction {
        match self {
            ColorSpace::Srgb => TransferFunction::Srgb,
            ColorSpace::DisplayP3 => TransferFunction::Srgb,
            ColorSpace::A98Rgb => TransferFunction::A98,
            ColorSpace::ProphotoRgb => TransferFunction::ProPhoto,
            ColorSpace::Rec2020 => TransferFunction::Rec2020,
            _ => TransferFunction::Linear,
        }
    }

    /// The transfer function the space's stored components are encoded under.
    pub fn transfer_function(&self) -> (transfer: TransferFunction)
        ensures
            transfer == self.spec_transfer_function(),
    {
        match self {
            ColorSpace::Srgb | ColorSpace::DisplayP3 => TransferFunction::Srgb,
            ColorSpace::A98Rgb => TransferFunction::A98,
            ColorSpace::ProphotoRgb => TransferFunction::ProPhoto,
            ColorSpace::Rec2020 => TransferFunction::Rec2020,
            _ => TransferFunction::Linear,
        }
    }

    /// The rectangular space whose pivot to and from XYZ the space reuses: a
    /// polar space borrows the pivot of the rectangular space it
    /// re-parameterizes, every rectangular space pivots for itself.
    pub open spec fn spec_rectangular_form(self) -> ColorSpace {
        match self {
            ColorSpace::Lch => ColorSpace::Lab,
            ColorSpace::Oklch => ColorSpace::Oklab,
            _ => self,
        }
    }

    /// The rectangular space whose pivot to and from XYZ the space reuses.
    pub fn rectangular_form(&self) -> (rectangular: ColorSpace)
        ensures
            rectangular == self.spec_rectangular_form(),
    {
        match self {
            ColorSpace::Lch => ColorSpace::Lab,
            ColorSpace::Oklch => ColorSpace::Oklab,
            _ => *self,
        }
    }
}

/// Every one of the twelve spaces is either polar or rectangular, never both,
/// and the polar spaces are exactly LCh and OkLCh.
pub proof fn lemma_classification_total(space: ColorSpace)
    ensures
        space.spec_is_polar() || space.spec_is_rectangular(),
        !(space.spec_is_polar() && space.spec_is_rectangular()),
        space.spec_is_polar() <==> (space == ColorSpace::Lch || space == ColorSpace::Oklch),
{
}

/// The rectangular form of a space is rectangular, declares the same reference
/// white as the space itself, and is a fixed point of the mapping; a
/// rectangular space is its own rectangular form.
pub proof fn lemma_rectangular_form(space: ColorSpace)
    ensures
        space.spec_rectangular_form().spec_is_rectangular(),
        space.spec_rectangular_form().spec_white_point() == space.spec_white_point(),
        space.spec_is_rectangular() ==> space.spec_rectangular_form() == space,
        space.spec_rectangular_form().spec_rectangular_form() == space.spec_rectangular_form(),
{
}

/// Only gamma-encoded RGB spaces carry a transfer function; in particular the
/// polar spaces, the XYZ spaces and the Lab-family spaces store linear
/// components, and linear sRGB stores the linear light of sRGB.
pub proof fn lemma_transfer_function_rgb_only(space: ColorSpace)
    ensures
        space.spec_transfer_function() != TransferFunction::Linear ==> (space == ColorSpace::Srgb
            || space == ColorSpace::DisplayP3 || space == ColorSpace::A98Rgb
            || space == ColorSpace::ProphotoRgb || space == ColorSpace::Rec2020),
        space.spec_is_polar() ==> space.spec_transfer_function() == TransferFunction::Linear,
{
}

} // verus!
