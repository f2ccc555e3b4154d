//! The settings of a timer run, and their normalization.
//!
//! The indicator and the time zone arrive as free text. Each is matched, in
//! lower case, against the kinds the timer supports and replaced by the
//! canonical label of the first kind it names, or by a sentinel.

use vstd::prelude::*;
use vstd::string::StringExecFns;
use crate::clock::Clock;
use crate::pattern_matcher::{contains, is_in};
use crate::text::{lowercase, lowercase_of};

verus! {

/// How the timer shows its progress.
#[derive(Clone, Copy, Debug, PartialEq, Eq, Structural)]
pub enum Indicator {
    Numeric,
    Graphic,
    /// The text named no supported indicator.
    Unsupported,
}

/// The time zone in which a run is stamped.
#[derive(Clone, Copy, Debug, PartialEq, Eq, Structural)]
pub enum Timezone {
    Utc,
    Local,
    /// The text named no supported time zone.
    Unsupported,
}

impl Indicator {
    /// The canonical label; for `Unsupported`, the sentinel.
    pub open spec fn label(self) -> Seq<char> {
        match self {
            Indicator::Numeric => "numeric"@,
            Indicator::Graphic => "graphic"@,
            Indicator::Unsupported => "unsupported indicator"@,
        }
    }

    /// The label in capitals, as a report shows it.
    pub open spec fn heading(self) -> Seq<char> {
        match self {
            Indicator::Numeric => "NUMERIC"@,
            Indicator::Graphic => "GRAPHIC"@,
            Indicator::Unsupported => "UNSUPPORTED INDICATOR"@,
        }
    }

    /// The kind that lower-case text names: the first of numeric and graphic
    /// whose label stands in it.
    pub open spec fn named_in(lowered: Seq<char>) -> Indicator {
        if contains(lowered, Indicator::Numeric.label()) {
            Indicator::Numeric
        } else if contains(lowered, Indicator::Graphic.label()) {
            Indicator::Graphic
        } else {
            Indicator::Unsupported
        }
    }

    /// The canonical label of the kind.
    pub fn as_str(self) -> (r: &'static str)
        ensures
            r@ == self.label(),
    {
        match self {
            Indicator::Numeric => "numeric",
            Indicator::Graphic => "graphic",
            Indicator::Unsupported => "unsupported indicator",
        }
    }

    /// The label of the kind in capitals.
    pub fn as_heading(self) -> (r: &'static str)
        ensures
            r@ == self.heading(),
    {
        match self {
            Indicator::Numeric => "NUMERIC",
            Indicator::Graphic => "GRAPHIC",
            Indicator::Unsupported => "UNSUPPORTED INDICATOR",
        }
    }

    /// Matches text that is already in lower case.
    pub fn find(lowered: &str) -> (r: Indicator)
        ensures
            r == Indicator::named_in(lowered@),
    {
        if is_in(lowered, "numeric") {
            Indicator::Numeric
        } else if is_in(lowered, "graphic") {
            Indicator::Graphic
        } else {
            Indicator::Unsupported
        }
    }

    /// Matches free text, whatever its case.
    pub fn parse(text: &str) -> (r: Indicator)
        ensures
            r == Indicator::named_in(lowercase_of(text@)),
    {
        let lowered = lowercase(text);
        Indicator::find(lowered.as_str())
    }
}

impl Timezone {
    /// The canonical label; for `Unsupported`, the sentinel.
    pub open spec fn label(self) -> Seq<char> {
        match self {
            Timezone::Utc => "utc"@,
            Timezone::Local => "local"@,
            Timezone::Unsupported => "unsupported timezone"@,
        }
    }

    /// The label in capitals, as a report shows it.
    pub open spec fn heading(self) -> Seq<char> {
        match self {
            Timezone::Utc => "UTC"@,
            Timezone::Local => "LOCAL"@,
            Timezone::Unsupported => "UNSUPPORTED TIMEZONE"@,
        }
    }

    /// The kind that lower-case text names: the first of utc and local whose
    /// label stands in it.
    pub open spec fn named_in(lowered: Seq<char>) -> Timezone {
        if contains(lowered, Timezone::Utc.label()) {
            Timezone::Utc
        } else if contains(lowered, Timezone::Local.label()) {
            Timezone::Local
        } else {
            Timezone::Unsupported
        }
    }

    /// The clock that stamps a run in this time zone. Without a supported
    /// time zone the local clock is used.
    pub open spec fn clock(self) -> Clock {
        match self {
            Timezone::Utc => Clock::Utc,
            Timezone::Local => Clock::Local,
            Timezone::Unsupported => Clock::Local,
        }
    }

    /// The canonical label of the kind.
    pub fn as_str(self) -> (r: &'static str)
        ensures
            r@ == self.label(),
    {
        match self {
            Timezone::Utc => "utc",
            Timezone::Local => "local",
            Timezone::Unsupported => "unsupported timezone",
        }
    }

    /// The label of the kind in capitals.
    pub fn as_heading(self) -> (r: &'static str)
        ensures
            r@ == self.heading(),
    {
        match self {
            Timezone::Utc => "UTC",
            Timezone::Local => "LOCAL",
            Timezone::Unsupported => "UNSUPPORTED TIMEZONE",
        }
    }

    /// The clock that stamps a run in this time zone.
    pub fn as_clock(self) -> (r: Clock)
        ensures
            r == self.clock(),
    {
        match self {
            Timezone::Utc => Clock::Utc,
            Timezone::Local => Clock::Local,
            Timezone::Unsupported => Clock::Local,
        }
    }

    /// Matches text that is already in lower case.
    pub fn find(lowered: &str) -> (r: Timezone)
        ensures
            r == Timezone::named_in(lowered@),
    {
        if is_in(lowered, "utc") {
            Timezone::Utc
        } else if is_in(lowered, "local") {
            Timezone::Local
        } else {
            Timezone::Unsupported
        }
    }

    /// Matches free text, whatever its case.
    pub fn parse(text: &str) -> (r: Timezone)
        ensures
            r == Timezone::named_in(lowercase_of(text@)),
    {
        let lowered = lowercase(text);
        Timezone::find(lowered.as_str())
    }
}

/// The state of a timer once its run is over.
pub struct TimerSettings {
    /// Seconds the timer was set to run.
    pub duration: u64,
    /// Seconds between two updates of the display.
    pub frequency: u64,
    /// Seconds the run took in all.
    pub total_duration: u64,
    pub indicator: String,
    pub timezone: String,
    pub colored: bool,
    pub sound: bool,
    /// Whether the run is logged and judged.
    pub logger: bool,
}

impl TimerSettings {
    /// Everything but the indicator and the time zone is as in `other`.
    pub open spec fn same_run_as(self, other: TimerSettings) -> bool {
        &&& self.duration == other.duration
        &&& self.frequency == other.frequency
        &&& self.total_duration == other.total_duration
        &&& self.colored == other.colored
        &&& self.sound == other.sound
        &&& self.logger == other.logger
    }

    /// Replaces the indicator and the time zone by the labels of the kinds
    /// they name, and returns the kinds.
    pub fn normalize(&mut self) -> (r: (Indicator, Timezone))
        ensures
            r.0 == Indicator::named_in(lowercase_of(old(self).indicator@)),
            r.1 == Timezone::named_in(lowercase_of(old(self).timezone@)),
            final(self).indicator@ == r.0.label(),
            final(self).timezone@ == r.1.label(),
            final(self).same_run_as(*old(self)),
    {
        let indicator = Indicator::parse(self.indicator.as_str());
        let timezone = Timezone::parse(self.timezone.as_str());
        self.indicator = String::from_str(indicator.as_str());
        self.timezone = String::from_str(timezone.as_str());
        (indicator, timezone)
    }
}

/// Text that holds `numeric` in whatever case is normalized to `numeric`;
/// text that holds `graphic` but not `numeric`, to `graphic`; any other text,
/// to the sentinel. Case is levelled by lower-casing the text.
pub proof fn indicator_normalization(text: Seq<char>)
    ensures
        ({
            let lowered = lowercase_of(text);
            let label = Indicator::named_in(lowered).label();
            &&& contains(lowered, "numeric"@) ==> label == "numeric"@
            &&& !contains(lowered, "numeric"@) && contains(lowered, "graphic"@) ==> label
                == "graphic"@
            &&& !contains(lowered, "numeric"@) && !contains(lowered, "graphic"@) ==> label
                == "unsupported indicator"@
        }),
{
}

/// Text that holds `utc` in whatever case is normalized to `utc`; text that
/// holds `local` but not `utc`, to `local`; any other text, to the sentinel.
/// Case is levelled by lower-casing the text.
pub proof fn timezone_normalization(text: Seq<char>)
    ensures
        ({
            let lowered = lowercase_of(text);
            let label = Timezone::named_in(lowered).label();
            &&& contains(lowered, "utc"@) ==> label == "utc"@
            &&& !contains(lowered, "utc"@) && contains(lowered, "local"@) ==> label == "local"@
            &&& !contains(lowered, "utc"@) && !contains(lowered, "local"@) ==> label
                == "unsupported timezone"@
        }),
{
}

/// No two indicators share a label, so a normalized indicator tells its
/// kind.
pub proof fn indicator_labels_differ(a: Indicator, b: Indicator)
    requires
        a.label() == b.label(),
    ensures
        a == b,
{
    reveal_strlit("numeric");
    reveal_strlit("graphic");
    reveal_strlit("unsupported indicator");
    assert("numeric"@.len() == 7 && "numeric"@[0] == 'n');
    assert("graphic"@.len() == 7 && "graphic"@[0] == 'g');
    assert("unsupported indicator"@.len() == 21);
}

/// No two time zones share a label, so a normalized time zone tells its
/// kind.
pub proof fn timezone_labels_differ(a: Timezone, b: Timezone)
    requires
        a.label() == b.label(),
    ensures
        a == b,
{
    reveal_strlit("utc");
    reveal_strlit("local");
    reveal_strlit("unsupported timezone");
    assert("utc"@.len() == 3);
    assert("local"@.len() == 5);
    assert("unsupported timezone"@.len() == 20);
}

} // verus!
