//! Severities, thresholds and how the two compare.

use vstd::prelude::*;

verus! {

/// The severity of a record, or the least severe record that a threshold
/// still lets through.
///
/// From most to least severe: `Error`, `Warn`, `Info`, `Debug`, `Trace`.
/// `Off` is stricter than `Error`; it is meant for thresholds, not for records.
#[derive(Clone, Copy, Debug, PartialEq, Eq, Structural, Hash)]
pub enum LevelFilter {
    /// Lets no record of a real severity through.
    Off,
    /// Serious failures.
    Error,
    /// Hazardous situations.
    Warn,
    /// Useful information.
    Info,
    /// Lower priority information.
    Debug,
    /// Very low priority, often extremely verbose, information.
    Trace,
}

impl LevelFilter {
    /// The place of a level in the order of severities: `Error` is 0, each
    /// less severe level is one more, and `Off` lies below `Error`.
    pub open spec fn rank(self) -> int {
        match self {
            LevelFilter::Off => -1,
            LevelFilter::Error => 0,
            LevelFilter::Warn => 1,
            LevelFilter::Info => 2,
            LevelFilter::Debug => 3,
            LevelFilter::Trace => 4,
        }
    }

    /// Whether the threshold `self` lets a record of severity `level` through:
    /// the record must be at least as severe as the threshold.
    pub open spec fn allows(self, level: LevelFilter) -> bool {
        level.rank() <= self.rank()
    }

    /// The more permissive of two thresholds.
    pub open spec fn spec_max(self, other: LevelFilter) -> LevelFilter {
        if other.rank() <= self.rank() {
            self
        } else {
            other
        }
    }

    /// The rank of a level, moved up by one so that it fits an unsigned byte.
    fn position(self) -> (p: u8)
        ensures
            p == self.rank() + 1,
    {
        match self {
            LevelFilter::Off => 0,
            LevelFilter::Error => 1,
            LevelFilter::Warn => 2,
            LevelFilter::Info => 3,
            LevelFilter::Debug => 4,
            LevelFilter::Trace => 5,
        }
    }

    /// Decides whether the threshold `self` lets a record of severity `level`
    /// through.
    pub fn accepts(self, level: LevelFilter) -> (accepted: bool)
        ensures
            accepted == self.allows(level),
    {
        level.position() <= self.position()
    }

    /// Returns the more permissive of two thresholds, the one that lets more
    /// records through.
    #[verifier::when_used_as_spec(spec_max)]
    pub fn max(self, other: LevelFilter) -> (most: LevelFilter)
        ensures
            most == self.spec_max(other),
    {
        if other.position() <= self.position() {
            self
        } else {
            other
        }
    }
}

/// The five-character label of a level in a rendered line; empty for `Off`.
pub open spec fn level_label(level: LevelFilter) -> Seq<char> {
    match level {
        LevelFilter::Off => ""@,
        LevelFilter::Error => "ERROR"@,
        LevelFilter::Warn => "WARN "@,
        LevelFilter::Info => "INFO "@,
        LevelFilter::Debug => "DEBUG"@,
        LevelFilter::Trace => "TRACE"@,
    }
}

/// The escape sequence that switches the terminal to the colour of a level;
/// empty for `Off`.
pub open spec fn level_color(level: LevelFilter) -> Seq<char> {
    match level {
        LevelFilter::Off => ""@,
        LevelFilter::Error => "\x1b[31m"@,
        LevelFilter::Warn => "\x1b[33m"@,
        LevelFilter::Info => "\x1b[32m"@,
        LevelFilter::Debug => "\x1b[35m"@,
        LevelFilter::Trace => "\x1b[36m"@,
    }
}

/// Returns the escape sequence for the colour of a level: red for `Error`,
/// yellow for `Warn`, green for `Info`, magenta for `Debug`, cyan for `Trace`.
pub fn get_color(level: LevelFilter) -> (color: &'static str)
    ensures
        color@ == level_color(level),
{
    match level {
        LevelFilter::Off => "",
        LevelFilter::Error => "\x1b[31m",
        LevelFilter::Warn => "\x1b[33m",
        LevelFilter::Info => "\x1b[32m",
        LevelFilter::Debug => "\x1b[35m",
        LevelFilter::Trace => "\x1b[36m",
    }
}

/// Returns the label of a level, padded to five characters.
pub fn format_level(level: LevelFilter) -> (label: &'static str)
    ensures
        label@ == level_label(level),
{
    match level {
        LevelFilter::Off => "",
        LevelFilter::Error => "ERROR",
        LevelFilter::Warn => "WARN ",
        LevelFilter::Info => "INFO ",
        LevelFilter::Debug => "DEBUG",
        LevelFilter::Trace => "TRACE",
    }
}

/// The levels are strictly ordered: `Off`, then `Error`, `Warn`, `Info`,
/// `Debug`, `Trace`, each more permissive than the one before. Each threshold
/// lets through the records of the level before it, and not the other way
/// round.
pub proof fn lemma_severity_chain()
    ensures
        LevelFilter::Off.rank() < LevelFilter::Error.rank() < LevelFilter::Warn.rank()
            < LevelFilter::Info.rank() < LevelFilter::Debug.rank() < LevelFilter::Trace.rank(),
        LevelFilter::Warn.allows(LevelFilter::Error) && !LevelFilter::Error.allows(
            LevelFilter::Warn,
        ),
        LevelFilter::Info.allows(LevelFilter::Warn) && !LevelFilter::Warn.allows(
            LevelFilter::Info,
        ),
        LevelFilter::Debug.allows(LevelFilter::Info) && !LevelFilter::Info.allows(
            LevelFilter::Debug,
        ),
        LevelFilter::Trace.allows(LevelFilter::Debug) && !LevelFilter::Debug.allows(
            LevelFilter::Trace,
        ),
        !LevelFilter::Warn.allows(LevelFilter::Trace),
{
}

/// Acceptance is a total order on the levels: every threshold lets through
/// the records of its own level; of two levels one lets the other through,
/// and both do only if they are one level; and a threshold lets through what
/// a stricter threshold lets through.
pub proof fn lemma_acceptance_is_total_order()
    ensures
        forall|a: LevelFilter| #[trigger] a.allows(a),
        forall|a: LevelFilter, b: LevelFilter| #[trigger] a.allows(b) || b.allows(a),
        forall|a: LevelFilter, b: LevelFilter| #[trigger] a.allows(b) && b.allows(a) ==> a == b,
        forall|a: LevelFilter, b: LevelFilter, c: LevelFilter|
            #[trigger] a.allows(b) && #[trigger] b.allows(c) ==> a.allows(c),
{
}

/// A record at `Error` passes every threshold but `Off`, a record at `Trace`
/// passes only the threshold `Trace`, and `Off` lets no record of a real
/// severity through.
pub proof fn lemma_extreme_severities(threshold: LevelFilter, level: LevelFilter)
    ensures
        threshold.allows(LevelFilter::Error) <==> threshold != LevelFilter::Off,
        threshold.allows(LevelFilter::Trace) <==> threshold == LevelFilter::Trace,
        LevelFilter::Off.allows(level) <==> level == LevelFilter::Off,
        LevelFilter::Trace.allows(level),
{
}

/// The more permissive of two thresholds lets a record through exactly when
/// one of the two does.
pub proof fn lemma_max_allows(a: LevelFilter, b: LevelFilter, level: LevelFilter)
    ensures
        a.spec_max(b).allows(level) <==> a.allows(level) || b.allows(level),
        a.spec_max(b) == a || a.spec_max(b) == b,
{
}

/// Every label of a real severity is five characters wide.
pub proof fn lemma_label_width(level: LevelFilter)
    ensures
        level_label(level).len() == (if level == LevelFilter::Off { 0nat } else { 5nat }),
{
    reveal_strlit("");
    reveal_strlit("ERROR");
    reveal_strlit("WARN ");
    reveal_strlit("INFO ");
    reveal_strlit("DEBUG");
    reveal_strlit("TRACE");
}

} // verus!
