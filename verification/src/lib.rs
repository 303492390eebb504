//! Elevation of a point on Earth, from its coordinates or from the name of a place.
//!
//! Two providers are asked over HTTP: one that knows elevations, and one that
//! turns the name of a place into coordinates. The library holds the rules of
//! these lookups and leaves the network to its caller. It writes the address
//! of each request, reads each reply, tells a request that failed (`Http`)
//! from a reply that cannot be used (`Json`), and says what is to be done
//! next.
//!
//! A lookup of one point begins with `Elevation::from_coords` or
//! `Elevation::from_location` and proceeds by steps: the caller does what a
//! `Step` names and hands what came of it to `Pending::advance`, until the step
//! is `Step::Done`. A lookup of several points begins with
//! `Elevation::from_multiple_coords`; the caller sends its one request and hands
//! the reply to `Batch::finish`.
//!
//! The library holds no floating-point numbers. A coordinate goes into a
//! request in decimal, as text; the numbers of a reply come out as the bits of
//! 64-bit floats, in `Binary64`.

pub mod error;
pub mod json;
pub mod lookup;
pub mod point;
pub mod request;

pub use crate::error::ElevationError;
pub use crate::error::ElevationErrorView;
pub use crate::json::Binary64;
pub use crate::json::Json;
pub use crate::json::JsonView;
pub use crate::lookup::Batch;
pub use crate::lookup::Pending;
pub use crate::lookup::PendingView;
pub use crate::lookup::Step;
pub use crate::lookup::StepView;
pub use crate::point::Elevation;
pub use crate::point::ElevationView;
