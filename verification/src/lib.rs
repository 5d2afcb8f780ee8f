//! Conversion engine for the color spaces of the CSS Color specification.
//!
//! Every conversion between two of the twelve supported color spaces routes
//! through CIE XYZ: the source components are linearized, pivoted to XYZ under
//! the source's reference white, chromatically adapted when the target declares
//! the other reference white, pivoted back to the target's linear-light form,
//! and gamma corrected.  This crate verifies the part of that engine that
//! selects and orders those stages: the classification of the spaces, their
//! reference whites and transfer functions, and the pipeline each pair of
//! spaces requires.  The floating-point kernels that execute a single stage
//! are not represented here; callers run them by interpreting the verified
//! pipeline one [`Step`] at a time.

mod color_space;
mod convert;
mod white;

pub use color_space::ColorSpace;
pub use color_space::TransferFunction;
pub use convert::conversion_steps;
pub use convert::from_xyz_steps;
pub use convert::to_xyz_steps;
pub use convert::Step;
pub use white::adaptation;
pub use white::Adaptation;
pub use white::WhitePoint;
pub use white::WhiteRef;
pub use white::D50;
pub use white::D65;
