//! Remediation actions and their binding to severity levels.

use vstd::prelude::*;
use crate::severity::SeverityLevel;

verus! {

/// The response bound to a severity level, ordered by increasing strength.
#[derive(Debug, Clone, Copy, PartialEq, Eq, Structural)]
pub enum RemediationAction {
    /// Leave the cache as it is.
    NoAction,
    /// Remove the package's cached artifact.
    Invalidate,
    /// Remove the package's cached artifact, then ask for a restart.
    InvalidateAndRestart,
}

impl RemediationAction {
    /// Position of the action in the order
    /// `NoAction < Invalidate < InvalidateAndRestart`.
    pub open spec fn strength(self) -> nat {
        match self {
            RemediationAction::NoAction => 0,
            RemediationAction::Invalidate => 1,
            RemediationAction::InvalidateAndRestart => 2,
        }
    }

    /// Whether the action removes the cached artifact.
    pub open spec fn spec_invalidates(self) -> bool {
        self != RemediationAction::NoAction
    }

    /// Whether the action ends with a restart request.
    pub open spec fn spec_restarts(self) -> bool {
        self == RemediationAction::InvalidateAndRestart
    }

    /// Whether the action removes the cached artifact.
    #[verifier::when_used_as_spec(spec_invalidates)]
    pub fn invalidates(self) -> (r: bool)
        ensures
            r == self.spec_invalidates(),
    {
        match self {
            RemediationAction::NoAction => false,
            RemediationAction::Invalidate => true,
            RemediationAction::InvalidateAndRestart => true,
        }
    }

    /// Whether the action ends with a restart request.
    #[verifier::when_used_as_spec(spec_restarts)]
    pub fn restarts(self) -> (r: bool)
        ensures
            r == self.spec_restarts(),
    {
        match self {
            RemediationAction::NoAction => false,
            RemediationAction::Invalidate => false,
            RemediationAction::InvalidateAndRestart => true,
        }
    }
}

/// The action bound to a level: nothing for `Okay`, invalidation for
/// `Warning` and `Danger`, invalidation and restart for `Critical` and `Panic`.
pub open spec fn action_of(level: SeverityLevel) -> RemediationAction {
    match level {
        SeverityLevel::Okay => RemediationAction::NoAction,
        SeverityLevel::Warning => RemediationAction::Invalidate,
        SeverityLevel::Danger => RemediationAction::Invalidate,
        SeverityLevel::Critical => RemediationAction::InvalidateAndRestart,
        SeverityLevel::Panic => RemediationAction::InvalidateAndRestart,
    }
}

/// The remediation that a severity level prescribes.
pub fn remediation_for(level: SeverityLevel) -> (action: RemediationAction)
    ensures
        action == action_of(level),
{
    match level {
        SeverityLevel::Okay => RemediationAction::NoAction,
        SeverityLevel::Warning | SeverityLevel::Danger => RemediationAction::Invalidate,
        SeverityLevel::Critical | SeverityLevel::Panic => RemediationAction::InvalidateAndRestart,
    }
}

/// The binding is monotonic: a level at least as severe never has a weaker
/// action.
pub proof fn lemma_action_monotonic(lower: SeverityLevel, higher: SeverityLevel)
    requires
        lower.rank() <= higher.rank(),
    ensures
        action_of(lower).strength() <= action_of(higher).strength(),
{
}

/// A restart is asked for exactly from `Critical` upwards, and the cache is
/// left alone exactly at `Okay`.
pub proof fn lemma_action_thresholds(level: SeverityLevel)
    ensures
        action_of(level).spec_restarts() <==> level.rank() >= SeverityLevel::Critical.rank(),
        action_of(level).spec_invalidates() <==> level.rank() >= SeverityLevel::Warning.rank(),
        action_of(level).spec_restarts() ==> action_of(level).spec_invalidates(),
{
}

} // verus!
