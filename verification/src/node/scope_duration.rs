//! What is logged about how long a scope took to execute.

use vstd::prelude::*;

verus! {

/// How urgent a message is.
#[derive(Clone, Copy, Debug, PartialEq, Eq, Structural)]
pub enum Level {
    Debug,
    Warn,
}

/// What is logged.
#[derive(Debug)]
pub struct ScopeReport {
    pub level: Level,
    pub message: String,
}

/// A threshold in seconds, as text, and whether the duration exceeds it.
#[derive(Debug)]
pub struct Threshold {
    pub secs: String,
    pub exceeded: bool,
}

/// The message about a scope for which there is a threshold.
pub open spec fn slow_message(
    description: Seq<char>,
    secs: Seq<char>,
    threshold_secs: Seq<char>,
    location: Seq<char>,
) -> Seq<char> {
    "executed "@ + description + " in "@ + secs + " secs.  exceeds slow fn threshold of "@
        + threshold_secs + " secs.  location: "@ + location
}

/// The message about a scope for which there is no threshold.
pub open spec fn duration_message(
    description: Seq<char>,
    secs: Seq<char>,
    location: Seq<char>,
) -> Seq<char> {
    "executed "@ + description + " in "@ + secs + " secs.  location: "@ + location
}

/// What is logged about a scope. If there is a threshold, it is a warning, and only when the
/// duration exceeds the threshold. If there is none, the duration is always logged.
pub fn scope_report(
    description: &str,
    secs: &str,
    threshold: &Option<Threshold>,
    location: &str,
) -> (r: Option<ScopeReport>)
    ensures
        match *threshold {
            Some(t) => if t.exceeded {
                &&& r is Some
                &&& r->0.level == Level::Warn
                &&& r->0.message@ == slow_message(description@, secs@, t.secs@, location@)
            } else {
                r is None
            },
            None => {
                &&& r is Some
                &&& r->0.level == Level::Debug
                &&& r->0.message@ == duration_message(description@, secs@, location@)
            },
        },
{
    let start: String = "executed ".to_owned().concat(description).concat(" in ").concat(secs);
    match threshold {
        Some(t) => if t.exceeded {
            Some(
                ScopeReport {
                    level: Level::Warn,
                    message: start.concat(" secs.  exceeds slow fn threshold of ").concat(
                        t.secs.as_str(),
                    ).concat(" secs.  location: ").concat(location),
                },
            )
        } else {
            None
        },
        None => Some(
            ScopeReport {
                level: Level::Debug,
                message: start.concat(" secs.  location: ").concat(location),
            },
        ),
    }
}

} // verus!
