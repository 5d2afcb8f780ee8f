use csscolor::ColorSpace;
use csscolor::TransferFunction;
use csscolor::WhitePoint;
use csscolor::WhiteRef;

const ALL_SPACES: [ColorSpace; 12] = [
    ColorSpace::Lab,
    ColorSpace::Lch,
    ColorSpace::Oklab,
    ColorSpace::Oklch,
    ColorSpace::Srgb,
    ColorSpace::SrgbLinear,
    ColorSpace::DisplayP3,
    ColorSpace::A98Rgb,
    ColorSpace::ProphotoRgb,
    ColorSpace::Rec2020,
    ColorSpace::XyzD50,
    ColorSpace::XyzD65,
];

#[test]
fn is_polar_or_rectangular() {
    let expected = [
        (ColorSpace::Lab, false),
        (ColorSpace::Lch, true),
        (ColorSpace::Oklab, false),
        (ColorSpace::Oklch, true),
        (ColorSpace::Srgb, false),
        (ColorSpace::SrgbLinear, false),
        (ColorSpace::DisplayP3, false),
        (ColorSpace::A98Rgb, false),
        (ColorSpace::ProphotoRgb, false),
        (ColorSpace::Rec2020, false),
        (ColorSpace::XyzD50, false),
        (ColorSpace::XyzD65, false),
    ];

    for (color_space, is_polar) in expected {
        assert_eq!(color_space.is_polar(), is_polar);
        assert_eq!(color_space.is_rectangular(), !is_polar);
    }
}

#[test]
fn classification_is_exclusive_and_exhaustive() {
    for space in ALL_SPACES {
        assert_ne!(space.is_polar(), space.is_rectangular());
        assert_eq!(
            space.is_polar(),
            space == ColorSpace::Lch || space == ColorSpace::Oklch
        );
    }
}

#[test]
fn declared_white_points() {
    for space in ALL_SPACES {
        let expected = match space {
            ColorSpace::Lab | ColorSpace::Lch | ColorSpace::ProphotoRgb | ColorSpace::XyzD50 => {
                WhitePoint::D50
            }
            _ => WhitePoint::D65,
        };
        assert_eq!(space.white_point(), expected);
    }
}

#[test]
fn transfer_functions() {
    assert_eq!(ColorSpace::Srgb.transfer_function(), TransferFunction::Srgb);
    assert_eq!(
        ColorSpace::DisplayP3.transfer_function(),
        TransferFunction::Srgb
    );
    assert_eq!(ColorSpace::A98Rgb.transfer_function(), TransferFunction::A98);
    assert_eq!(
        ColorSpace::ProphotoRgb.transfer_function(),
        TransferFunction::ProPhoto
    );
    assert_eq!(
        ColorSpace::Rec2020.transfer_function(),
        TransferFunction::Rec2020
    );
    for space in [
        ColorSpace::Lab,
        ColorSpace::Lch,
        ColorSpace::Oklab,
        ColorSpace::Oklch,
        ColorSpace::SrgbLinear,
        ColorSpace::XyzD50,
        ColorSpace::XyzD65,
    ] {
        assert_eq!(space.transfer_function(), TransferFunction::Linear);
    }
}

#[test]
fn rectangular_forms() {
    assert_eq!(ColorSpace::Lch.rectangular_form(), ColorSpace::Lab);
    assert_eq!(ColorSpace::Oklch.rectangular_form(), ColorSpace::Oklab);
    for space in ALL_SPACES {
        let rectangular = space.rectangular_form();
        assert!(rectangular.is_rectangular());
        assert_eq!(rectangular.white_point(), space.white_point());
        if space.is_rectangular() {
            assert_eq!(rectangular, space);
        }
    }
}

#[test]
fn white_point_chromaticities() {
    assert_eq!(WhitePoint::D50.chromaticity_e4(), (3457, 3585));
    assert_eq!(WhitePoint::D65.chromaticity_e4(), (3127, 3290));
}

#[test]
fn white_ref_tags() {
    assert_eq!(<csscolor::D50 as WhiteRef>::white_point(), WhitePoint::D50);
    assert_eq!(<csscolor::D65 as WhiteRef>::white_point(), WhitePoint::D65);
}
