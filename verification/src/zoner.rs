//! What a timestamp has to tell before it can be rendered.
use vstd::prelude::*;

verus! {

/// A timestamp that knows the time zone and the pattern it is rendered with.
///
/// The three methods only read. The three spec functions stand for what they
/// return: contracts elsewhere speak of `zone`, `millis` and `pattern`, and an
/// implementation states them beside the methods. An implementation written
/// outside verified code inherits the bodies given here, which fix no value.
pub trait TimeZoner {
    /// The name of the bound time zone.
    open spec fn zone(&self) -> Seq<char> {
        arbitrary()
    }

    /// The instant, in milliseconds since the Unix epoch.
    open spec fn millis(&self) -> i64 {
        arbitrary()
    }

    /// The bound pattern; empty for the engine's canonical rendering.
    open spec fn pattern(&self) -> Seq<char> {
        arbitrary()
    }

    /// The name of the bound time zone.
    fn tz_name(&self) -> (name: &str)
        ensures
            name@ == self.zone(),
    ;

    /// The instant, in milliseconds since the Unix epoch.
    fn timestamp(&self) -> (millis: i64)
        ensures
            millis == self.millis(),
    ;

    /// The bound pattern; empty for the engine's canonical rendering.
    fn layout(&self) -> (pattern: &str)
        ensures
            pattern@ == self.pattern(),
    ;
}

} // verus!
