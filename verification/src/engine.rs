//! The boundary to the time engine, `gostd_time`.
//!
//! The library asks the engine to look a zone up by name, to tell the name
//! of a zone it has found, to make a time of an instant and to place a time
//! in a zone. None of the answers is proved here. Each function that asks
//! hands its arguments to the engine, and its contract records what the
//! engine's source and documentation say of the call; what is verified in
//! this crate rests on these records.
//!
//! The library does not ask the engine to render. The engine takes the zone
//! tables of the machine as they are, and for some of them it stops on
//! instants before the first transition; nothing that the engine hands out
//! tells for which. So the library prepares a time and a pattern, and its
//! caller asks the engine for the text.
use vstd::prelude::*;
use vstd::utf8::is_ascii_chars;

verus! {

/// A time zone as the engine resolves it: offset rules and abbreviations.
#[verifier::external_type_specification]
#[verifier::external_body]
pub struct ExLocation(gostd_time::Location);

/// An instant of the engine, together with the zone it is displayed in.
#[verifier::external_type_specification]
#[verifier::external_body]
pub struct ExTime(gostd_time::Time);

/// A resolved time zone.
///
/// The only way to a `Zone` is a successful lookup by name, so every `Zone`
/// holds what the engine read for a name from a zone file, or UTC.
pub struct Zone {
    location: gostd_time::Location,
}

impl View for Zone {
    type V = gostd_time::Location;

    closed spec fn view(&self) -> gostd_time::Location {
        self.location
    }
}

/// The name of the machine's own zone. It is no binding: what it stands for
/// changes from machine to machine.
pub open spec fn machine_zone() -> Seq<char> {
    seq!['L', 'o', 'c', 'a', 'l']
}

/// The name under which the engine keeps UTC.
pub open spec fn utc() -> Seq<char> {
    seq!['U', 'T', 'C']
}

/// Whether `tz_name` is a name of UTC: `UTC` itself, or the empty name. The
/// engine knows UTC without a zone file.
pub open spec fn names_utc(tz_name: Seq<char>) -> bool {
    tz_name.len() == 0 || tz_name =~= utc()
}

/// Whether `tz_name` is a name that the engine refuses to look up: one that
/// begins with a slash or a backslash, or holds two dots in a row.
pub open spec fn malformed(tz_name: Seq<char>) -> bool {
    ||| tz_name.len() > 0 && (tz_name[0] == '/' || tz_name[0] == '\\')
    ||| exists|i: int|
        0 <= i < tz_name.len() - 1 && #[trigger] tz_name[i] == '.' && tz_name[i + 1] == '.'
}

/// The label of the zone that the engine returns for `tz_name`: the empty
/// name is another name for UTC, every other name labels its own zone.
pub open spec fn label_for(tz_name: Seq<char>) -> Seq<char> {
    if tz_name.len() == 0 {
        utc()
    } else {
        tz_name
    }
}

/// The name a zone answers to, as `gostd_time::Location::String` reports it.
pub uninterp spec fn zone_label(zone: gostd_time::Location) -> Seq<char>;

/// The engine's time for an instant given in milliseconds since the Unix
/// epoch, as `gostd_time::UnixMilli` makes it.
pub uninterp spec fn instant_of(millis: i64) -> gostd_time::Time;

/// The same instant displayed in `zone`, as `gostd_time::Time::In` gives it.
pub uninterp spec fn shown_in(t: gostd_time::Time, zone: gostd_time::Location) -> gostd_time::Time;

/// Looks a zone up with `gostd_time::LoadLocation`.
///
/// Trusted: the engine answers for a name of UTC at once, refuses a
/// malformed name, and searches the zone files of the machine for every
/// other name, so that for those nothing is said of whether a zone comes
/// back. A zone that does come back answers to the name it was asked for,
/// UTC for the empty name. The engine cuts the name at a fixed byte offset,
/// which is safe for an ASCII name; and the machine's own zone is left out,
/// because the engine reads it anew whenever it is asked about it. For a
/// name that it does not find, the engine also prints a line on the standard
/// output.
#[verifier::external_body]
pub(crate) fn load_location(tz_name: &str) -> (found: Option<Zone>)
    requires
        is_ascii_chars(tz_name@),
        tz_name@ != machine_zone(),
    ensures
        found matches Some(zone) ==> zone_label(zone@) == label_for(tz_name@),
        names_utc(tz_name@) ==> found is Some,
        malformed(tz_name@) ==> found is None,
{
    match gostd_time::LoadLocation(tz_name) {
        Ok(location) => Some(Zone { location }),
        Err(_) => None,
    }
}

/// Asks a zone for its name with `gostd_time::Location::String`.
///
/// Trusted: the engine hands out the name that the zone holds, which is a
/// function of the zone, named [`zone_label`].
#[verifier::external_body]
pub(crate) fn location_name(zone: &Zone) -> (name: String)
    ensures
        name@ == zone_label(zone@),
{
    zone.location.String()
}

/// Makes the engine's time of an instant with `gostd_time::UnixMilli`.
///
/// Trusted: the engine splits the count into seconds and nanoseconds and
/// keeps both, for every `i64`; the time is a function of the count.
#[verifier::external_body]
pub(crate) fn unix_milli(millis: i64) -> (t: gostd_time::Time)
    ensures
        t == instant_of(millis),
{
    gostd_time::UnixMilli(millis)
}

/// Places a time in a zone with `gostd_time::Time::In`.
///
/// Trusted: the engine puts the zone in the place of the one that the time
/// had and leaves the instant as it is, without a look at the zone's table;
/// the result is a function of the time and the zone.
#[verifier::external_body]
pub(crate) fn in_zone(t: gostd_time::Time, zone: &Zone) -> (shown: gostd_time::Time)
    ensures
        shown == shown_in(t, zone@),
{
    let mut t = t;
    t.In(zone.location.clone())
}

} // verus!
