//! The rule by which the filter layer admits or vetoes an event.

use vstd::prelude::*;
use crate::level::{Level, Threshold};
use crate::text::starts_with;

verus! {

/// The threshold that a severity text names, if it names one.
pub uninterp spec fn parsed_threshold(text: Seq<char>) -> Option<Threshold>;

/// Reads a severity filter.
///
/// Trusted: `from_str` of `tracing::level_filters::LevelFilter` decides
/// from the text alone whether it names a filter, and which: `OFF`, or one
/// of the five levels as the least severe level that passes. The text
/// `warn` names the level `WARN`.
#[verifier::external_body]
pub(crate) fn parse_threshold(text: &str) -> (r: Option<Threshold>)
    ensures
        r == parsed_threshold(text@),
        text@ == "warn"@ ==> r == Some(Threshold::AtLeast(Level::Warn)),
{
    match text.parse::<tracing::level_filters::LevelFilter>() {
        Ok(filter) => Some(
            match filter.into_level() {
                None => Threshold::Off,
                Some(tracing::Level::ERROR) => Threshold::AtLeast(Level::Error),
                Some(tracing::Level::WARN) => Threshold::AtLeast(Level::Warn),
                Some(tracing::Level::INFO) => Threshold::AtLeast(Level::Info),
                Some(tracing::Level::DEBUG) => Threshold::AtLeast(Level::Debug),
                Some(_) => Threshold::AtLeast(Level::Trace),
            },
        ),
        Err(_) => None,
    }
}

/// What a [`FilterRule`] holds, as a plain value for specifications.
pub struct RuleModel {
    pub threshold: Threshold,
    pub scope: Option<Seq<char>>,
}

impl RuleModel {
    /// An event passes when its level reaches the threshold and, where a
    /// scope is configured, its target begins with that scope.
    pub open spec fn admits(self, level: Level, target: Seq<char>) -> bool {
        self.threshold.admits_spec(level) && match self.scope {
            Some(prefix) => prefix.is_prefix_of(target),
            None => true,
        }
    }
}

/// A severity threshold and, optionally, the scope that events must come
/// from.
#[derive(Debug)]
pub struct FilterRule {
    pub threshold: Threshold,
    pub scope: Option<String>,
}

impl View for FilterRule {
    type V = RuleModel;

    open spec fn view(&self) -> RuleModel {
        RuleModel {
            threshold: self.threshold,
            scope: match self.scope {
                Some(s) => Some(s@),
                None => None,
            },
        }
    }
}

impl FilterRule {
    /// Decides whether an event of this level and target passes.
    pub fn admits(&self, level: Level, target: &str) -> (r: bool)
        ensures
            r == self@.admits(level, target@),
    {
        if !self.threshold.admits(level) {
            return false;
        }
        match &self.scope {
            Some(prefix) => starts_with(target, prefix.as_str()),
            None => true,
        }
    }
}

} // verus!
