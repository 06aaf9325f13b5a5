//! Colour palettes interpolated between anchor colours in a space of hue,
//! saturation and lightness.
//!
//! A [`Poline`] holds anchor colours, joins each to the next by a segment and
//! samples every segment; the samples of all segments, flattened, are the
//! palette. Numbers are single-precision and are held by their encodings
//! ([`Scalar`]). Whatever rounds is left to an [`Arithmetic`] that the caller
//! brings; everything else is decided and proved here: which formula a
//! result comes from, how anchors pair up, how many samples there are and in
//! what order, which anchor is the closest, and what an edit changes.

pub mod arithmetic;
pub mod color_point;
pub mod conversion;
pub mod distance;
pub mod errors;
pub mod flatten;
pub mod line;
pub mod nearest;
pub mod options;
pub mod palette;
pub mod positions;
pub mod random;
pub mod scalar;
pub mod types;

pub use arithmetic::Arithmetic;
pub use color_point::{ColorPoint, ColorPointCollection};
pub use conversion::{hsl_to_point, point_to_hsl};
pub use distance::distance;
pub use errors::PolineErrors;
pub use line::{vector_on_line, vectors_on_line};
pub use options::{PolineJsOptions, PolineOptions};
pub use palette::Poline;
pub use positions::{number_as_enum, position_from_scale, PositionScale};
pub use random::{random_hsl_pair, random_hsl_triple};
pub use scalar::Scalar;
pub use types::{optional_vector3, PartialVector3, Vector2, Vector3};
