//! Timestamps as text in a chosen time zone and layout, for use where a
//! record is written out as a document.
//!
//! A timestamp tells three things, its instant, the name of its time zone and
//! its layout ([`TimeZoner`]). The zone and the layout belong to the type of
//! a timestamp, not to its values ([`Localized`]). [`resolve`] looks the zone
//! up; [`convert_time_zone`] says what is to be rendered, the instant in the
//! zone after the pattern that the layout stands for, and the two adapters,
//! [`datetime_to_tz`] and [`datetime_to_tz_map`], say so for a timestamp and
//! for a map of timestamps. [`object_to_hex`] writes an object identifier as
//! hexadecimal text.
//!
//! The rendering itself is the work of the time engine `gostd_time`, and it
//! is the caller who asks the engine for it: [`engine`] says why. Nothing
//! here renders without a zone that the engine has found, so where the
//! engine does not know a name there is nothing to go on with, and it is for
//! the caller to stop.
pub mod adapters;
pub mod binding;
pub mod convert;
pub mod engine;
pub mod layout;
pub mod oid;
pub mod zoner;

pub use crate::adapters::{datetime_to_tz, datetime_to_tz_map};
pub use crate::binding::{Localized, TimeZoneAndLayout, UtcDefault};
pub use crate::convert::{convert_time_zone, resolve, Rendering, ZoneNotFound};
pub use crate::engine::Zone;
pub use crate::oid::object_to_hex;
pub use crate::zoner::TimeZoner;
