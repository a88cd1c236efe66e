//! Conversion of an instant into a rendering: the lookup of the zone, the
//! rule for a name that the engine does not know, and the choice of the
//! pattern.
//!
//! A conversion has two halves. [`resolve`] looks the zone up, and it is for
//! the caller to stop where the engine does not know the name: nothing here
//! renders without a zone that was found, so no other zone can take the
//! place of a missing one. [`convert_time_zone`] then places the instant in
//! the zone and chooses the pattern, a [`Rendering`]; the caller asks the
//! engine for its texts, and [`joined`] puts them together.
use vstd::prelude::*;
use vstd::string::StringExecFns;
use vstd::utf8::is_ascii_chars;
use crate::engine::{
    in_zone, instant_of, label_for, load_location, location_name, machine_zone, malformed,
    names_utc, shown_in, unix_milli, zone_label, Zone,
};
use crate::layout::{CANONICAL, CANONICAL_TIME, CANONICAL_ZONE};

verus! {

/// The failure of a lookup: the time engine knows no zone of this name.
#[derive(Debug, PartialEq, Eq)]
pub struct ZoneNotFound {
    /// The name that was looked up.
    pub tz_name: String,
}

impl View for ZoneNotFound {
    type V = Seq<char>;

    open spec fn view(&self) -> Seq<char> {
        self.tz_name@
    }
}

/// What the engine is to be asked: the text of `time` after `pattern`, and
/// behind it the text of `time` after `rest`.
pub struct Rendering<'a> {
    /// The instant, placed in its zone.
    pub time: gostd_time::Time,
    /// The pattern to render after.
    pub pattern: &'a str,
    /// The pattern to go on with; empty but for the canonical rendering.
    pub rest: &'a str,
}

impl<'a> View for Rendering<'a> {
    type V = (gostd_time::Time, Seq<char>, Seq<char>);

    open spec fn view(&self) -> (gostd_time::Time, Seq<char>, Seq<char>) {
        (self.time, self.pattern@, self.rest@)
    }
}

/// The answer to a lookup, as plain values: the engine's zone, or the name
/// that was not found.
pub open spec fn answer_of(found: Result<Zone, ZoneNotFound>) -> Result<
    gostd_time::Location,
    Seq<char>,
> {
    match found {
        Ok(zone) => Ok(zone@),
        Err(e) => Err(e@),
    }
}

/// Whether a zone name can be looked up: it is an ASCII name other than that
/// of the machine's own zone.
pub open spec fn resolvable(tz_name: Seq<char>) -> bool {
    is_ascii_chars(tz_name) && tz_name != machine_zone()
}

/// Whether `found` is an answer to the lookup of `tz_name`: a zone that
/// answers to the name, unless the name is malformed, or the name itself as
/// the one that was not found, unless it is a name of UTC.
pub open spec fn answers(
    tz_name: Seq<char>,
    found: Result<gostd_time::Location, Seq<char>>,
) -> bool {
    match found {
        Ok(zone) => !malformed(tz_name) && zone_label(zone) == label_for(tz_name),
        Err(missing) => !names_utc(tz_name) && missing == tz_name,
    }
}

/// Whether a layout asks for the canonical rendering: the empty layout does,
/// and so does the canonical pattern itself.
pub open spec fn canonical(layout: Seq<char>) -> bool {
    layout.len() == 0 || layout == CANONICAL@
}

/// The pattern that a layout stands for: the canonical pattern for the empty
/// layout, the layout itself otherwise, whatever it holds.
pub open spec fn pattern_of(layout: Seq<char>) -> Seq<char> {
    if layout.len() == 0 {
        CANONICAL@
    } else {
        layout
    }
}

/// The two patterns that the engine is given for a layout, one after the
/// other: the two parts of the canonical pattern where the layout asks for
/// the canonical rendering, and the layout itself with nothing behind it
/// otherwise.
pub open spec fn patterns_of(layout: Seq<char>) -> (Seq<char>, Seq<char>) {
    if canonical(layout) {
        (CANONICAL_TIME@, CANONICAL_ZONE@)
    } else {
        (layout, Seq::empty())
    }
}

/// The conversion of `millis` in `zone` after `layout`: the engine's time
/// for that very instant, placed in that very zone, and the patterns that
/// the layout stands for.
pub open spec fn conversion(
    millis: i64,
    zone: gostd_time::Location,
    layout: Seq<char>,
) -> (gostd_time::Time, Seq<char>, Seq<char>) {
    (shown_in(instant_of(millis), zone), patterns_of(layout).0, patterns_of(layout).1)
}

/// Whether `tz_name` is the name of the machine's own zone.
fn is_machine_zone(tz_name: &str) -> (machine: bool)
    ensures
        machine == (tz_name@ == machine_zone()),
{
    if tz_name.unicode_len() != 5 {
        false
    } else {
        let machine = tz_name.get_char(0) == 'L' && tz_name.get_char(1) == 'o'
            && tz_name.get_char(2) == 'c' && tz_name.get_char(3) == 'a' && tz_name.get_char(4)
            == 'l';
        assert(machine ==> tz_name@ =~= machine_zone());
        machine
    }
}

/// Tells whether a zone name can be looked up, so that a caller who cannot
/// know it beforehand can find out.
pub fn is_resolvable(tz_name: &str) -> (ok: bool)
    ensures
        ok == resolvable(tz_name@),
{
    tz_name.is_ascii() && !is_machine_zone(tz_name)
}

impl Zone {
    /// The name that the zone answers to.
    pub fn name(&self) -> (name: String)
        ensures
            name@ == zone_label(self@),
    {
        location_name(self)
    }
}

/// Resolves a zone name. A name of UTC is always resolved and a malformed
/// name never; for every other name the zone files of the machine decide.
/// What comes back is a zone that answers to `tz_name`, or the failure that
/// names it.
pub fn resolve(tz_name: &str) -> (found: Result<Zone, ZoneNotFound>)
    requires
        resolvable(tz_name@),
    ensures
        answers(tz_name@, answer_of(found)),
{
    match load_location(tz_name) {
        Some(zone) => Ok(zone),
        None => Err(ZoneNotFound { tz_name: tz_name.to_owned() }),
    }
}

/// Tells whether a layout asks for the canonical rendering.
pub fn is_canonical(layout: &str) -> (yes: bool)
    ensures
        yes == canonical(layout@),
{
    layout.is_empty() || layout.to_owned() == CANONICAL.to_owned()
}

/// The patterns that `layout` stands for: the two parts of the canonical
/// pattern where it asks for the canonical rendering, and `layout` as it is,
/// with nothing behind it, otherwise. No layout is refused.
pub fn patterns_for<'a>(layout: &'a str) -> (patterns: (&'a str, &'a str))
    ensures
        patterns.0@ == patterns_of(layout@).0,
        patterns.1@ == patterns_of(layout@).1,
{
    if is_canonical(layout) {
        (CANONICAL_TIME, CANONICAL_ZONE)
    } else {
        proof {
            reveal_strlit("");
        }
        (layout, "")
    }
}

/// The conversion of the instant `timestamp`, milliseconds since the Unix
/// epoch, in a resolved zone after `layout`: the instant placed in the zone,
/// and the pattern to render it after. The empty layout asks for the
/// canonical rendering.
pub fn convert_time_zone<'a>(timestamp: i64, zone: &Zone, layout: &'a str) -> (out: Rendering<'a>)
    ensures
        out@ == conversion(timestamp, zone@, layout@),
{
    let time = in_zone(unix_milli(timestamp), zone);
    let (pattern, rest) = patterns_for(layout);
    Rendering { time, pattern, rest }
}

/// Puts the two texts of a rendering together: the text that the engine gave
/// after `pattern`, and behind it the text that it gave after `rest`.
pub fn joined(text: String, rest: &str) -> (whole: String)
    ensures
        whole@ == text@ + rest@,
{
    text.concat(rest)
}

/// A conversion is deterministic: the same instant, the same zone and the
/// same layout ask the engine for the same rendering, however often.
pub proof fn conversion_is_deterministic(
    millis: i64,
    zone: gostd_time::Location,
    layout: Seq<char>,
    first: (gostd_time::Time, Seq<char>, Seq<char>),
    second: (gostd_time::Time, Seq<char>, Seq<char>),
)
    requires
        first == conversion(millis, zone, layout),
        second == conversion(millis, zone, layout),
    ensures
        first == second,
{
}

/// A conversion never leaves its zone: it places the instant it was given
/// in the zone it was given, and a zone is only given by a lookup that found
/// it, under the name that was looked up.
pub proof fn conversion_never_defaults(
    tz_name: Seq<char>,
    found: Result<gostd_time::Location, Seq<char>>,
    millis: i64,
    layout: Seq<char>,
)
    requires
        answers(tz_name, found),
    ensures
        found matches Ok(zone) ==> conversion(millis, zone, layout).0 == shown_in(
            instant_of(millis),
            zone,
        ) && zone_label(zone) == label_for(tz_name),
        found matches Err(missing) ==> missing == tz_name,
        names_utc(tz_name) ==> found is Ok,
        malformed(tz_name) ==> found is Err,
{
}

/// The empty layout and the canonical pattern ask for the same rendering,
/// and what the engine is given for it is the canonical pattern, in two
/// parts. Every other layout is given to the engine as it is.
pub proof fn empty_layout_is_canonical(millis: i64, zone: gostd_time::Location, layout: Seq<char>)
    ensures
        conversion(millis, zone, Seq::empty()) == conversion(millis, zone, CANONICAL@),
        patterns_of(Seq::empty()).0 + patterns_of(Seq::empty()).1 == CANONICAL@,
        patterns_of(layout).0 + patterns_of(layout).1 == pattern_of(layout),
        !canonical(layout) ==> patterns_of(layout) == (layout, Seq::<char>::empty()),
{
    reveal_strlit("2006-01-02 15:04:05.000 -0700 MST");
    reveal_strlit("2006-01-02 15:04:05.000");
    reveal_strlit(" -0700 MST");
    assert(CANONICAL_TIME@ + CANONICAL_ZONE@ =~= CANONICAL@);
    assert(layout + Seq::<char>::empty() =~= layout);
}

} // verus!
