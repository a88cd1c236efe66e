//! The patterns that the time engine names, the empty pattern, and the
//! pattern that the empty one stands for.
//!
//! A pattern shows how the reference time
//! `Mon Jan 2 15:04:05 -0700 MST 2006` is to be written; every other time is
//! then written the same way.
pub use gostd_time::Kitchen;
pub use gostd_time::Layout;
pub use gostd_time::RFC3339Nano;
pub use gostd_time::RubyDate;
pub use gostd_time::Stamp;
pub use gostd_time::StampMicro;
pub use gostd_time::StampMilli;
pub use gostd_time::StampNano;
pub use gostd_time::UnixDate;
pub use gostd_time::ANSIC;
pub use gostd_time::RFC1123;
pub use gostd_time::RFC1123Z;
pub use gostd_time::RFC3339;
pub use gostd_time::RFC822;
pub use gostd_time::RFC822Z;
pub use gostd_time::RFC850;
use vstd::prelude::*;

verus! {

/// The empty pattern, which asks for the canonical rendering.
pub const DEFAULT: &'static str = "";

/// The pattern of the canonical rendering: date, time of day to the
/// millisecond, numeric offset and abbreviation of the zone.
pub const CANONICAL: &'static str = "2006-01-02 15:04:05.000 -0700 MST";

/// The canonical pattern as far as the time of day.
///
/// The engine takes `.000` for the fraction of a second only where the
/// pattern ends behind it, or where what follows has no digit in a certain
/// place; in the canonical pattern it has one. So the canonical pattern is
/// handed to the engine in two parts, this one and [`CANONICAL_ZONE`], and
/// the two texts are put together.
pub const CANONICAL_TIME: &'static str = "2006-01-02 15:04:05.000";

/// The rest of the canonical pattern: offset and abbreviation of the zone.
pub const CANONICAL_ZONE: &'static str = " -0700 MST";

} // verus!
