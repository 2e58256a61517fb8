//! Coordinate mapping between a logical ("visible") pixel space and the
//! physical pixel space of a chained LED panel matrix.
//!
//! A rendering pipeline draws into the visible space; a mapping strategy
//! translates each visible coordinate into the physical coordinate the
//! matrix driver must address.  Three strategies are provided: mirroring,
//! rotation by a multiple of 90 degrees, and a U-shaped folding of one long
//! panel chain into a half-width, double-height block.  A selector parses a
//! configuration token into a strategy descriptor and instantiates the
//! strategy bound to the physical chain geometry.

pub mod descriptor;
pub mod mapper;
pub mod mirror;
pub mod rotate;
pub mod text;
pub mod ufold;

pub use descriptor::{MapperParseError, NamedPixelMapperType};
pub use mapper::NamedPixelMapper;
pub use mirror::MirrorPixelMapper;
pub use rotate::RotatePixelMapper;
pub use ufold::{UArrangeMapper, UFoldConfigError};
