//! The verified core of a binding to a coordinate reference system engine.
//!
//! The engine itself is foreign code, and the calls into it are made
//! elsewhere. This crate holds what surrounds each call: how a text becomes a
//! NUL-terminated buffer and a number the engine's `int`
//! ([`ctext`], [`cint`]), what is asked of the engine ([`request`]), how a
//! handle, a result code or a buffer that comes back becomes a value or an
//! error ([`reply`], [`authority`], [`decimal`], [`axis`], [`area`],
//! [`errors`]), and which object a
//! [`SpatialRef`](srs::SpatialRef) stands for ([`srs`]).

pub mod area;
pub mod authority;
pub mod axis;
pub mod cint;
pub mod ctext;
pub mod decimal;
pub mod errors;
pub mod reply;
pub mod request;
pub mod srs;

pub use crate::axis::AxisOrientationType;
pub use crate::ctext::CText;
pub use crate::errors::GdalError;
pub use crate::area::AreaOfUse;
pub use crate::srs::SpatialRef;
