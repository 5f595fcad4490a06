//! Severity levels and the classification of integrity scores.

use vstd::prelude::*;

verus! {

/// Highest score classified as `Okay`.
pub const OK_MAX: u8 = 3;

/// Highest score classified as `Warning`.
pub const WARNING_MAX: u8 = 6;

/// Highest score classified as `Danger`.
pub const DANGER_MAX: u8 = 9;

/// Highest score classified as `Critical`; every score above it is `Panic`.
pub const CRITICAL_MAX: u8 = 11;

/// Discrete escalation level, ordered by increasing remediation strength.
#[derive(Debug, Clone, Copy, PartialEq, Eq, Structural)]
pub enum SeverityLevel {
    Okay,
    Warning,
    Danger,
    Critical,
    Panic,
}

impl SeverityLevel {
    /// Position of the level in the order `Okay < Warning < Danger < Critical < Panic`.
    pub open spec fn rank(self) -> nat {
        match self {
            SeverityLevel::Okay => 0,
            SeverityLevel::Warning => 1,
            SeverityLevel::Danger => 2,
            SeverityLevel::Critical => 3,
            SeverityLevel::Panic => 4,
        }
    }

    /// The inclusive range of scores that belong to the level.
    pub open spec fn covers(self, score: int) -> bool {
        match self {
            SeverityLevel::Okay => 0 <= score <= OK_MAX,
            SeverityLevel::Warning => OK_MAX < score <= WARNING_MAX,
            SeverityLevel::Danger => WARNING_MAX < score <= DANGER_MAX,
            SeverityLevel::Critical => DANGER_MAX < score <= CRITICAL_MAX,
            SeverityLevel::Panic => CRITICAL_MAX < score <= u8::MAX,
        }
    }

    /// The level's position in the severity order, as a number from 0 to 4.
    pub fn ordinal(self) -> (r: u8)
        ensures
            r == self.rank(),
    {
        match self {
            SeverityLevel::Okay => 0,
            SeverityLevel::Warning => 1,
            SeverityLevel::Danger => 2,
            SeverityLevel::Critical => 3,
            SeverityLevel::Panic => 4,
        }
    }

    /// Whether `self` is at least as severe as `other`.
    pub fn at_least(self, other: SeverityLevel) -> (r: bool)
        ensures
            r == (self.rank() >= other.rank()),
    {
        self.ordinal() >= other.ordinal()
    }
}

/// The level of a score, by the fixed range table.
pub open spec fn level_of(score: u8) -> SeverityLevel {
    if score <= OK_MAX {
        SeverityLevel::Okay
    } else if score <= WARNING_MAX {
        SeverityLevel::Warning
    } else if score <= DANGER_MAX {
        SeverityLevel::Danger
    } else if score <= CRITICAL_MAX {
        SeverityLevel::Critical
    } else {
        SeverityLevel::Panic
    }
}

/// Maps an integrity score onto its severity level. Total: every score,
/// however large, has a level, the last range catching all that is left.
pub fn classify_severity(score: u8) -> (level: SeverityLevel)
    ensures
        level == level_of(score),
        level.covers(score as int),
{
    match score {
        0..=3 => SeverityLevel::Okay,
        4..=6 => SeverityLevel::Warning,
        7..=9 => SeverityLevel::Danger,
        10..=11 => SeverityLevel::Critical,
        _ => SeverityLevel::Panic,
    }
}

/// The five ranges partition the scores: the level of a score covers it, and
/// no other level does.
pub proof fn lemma_levels_partition_scores(score: u8, level: SeverityLevel)
    ensures
        level.covers(score as int) <==> level == level_of(score),
{
}

/// Classification is monotonic: a larger score never has a weaker level.
pub proof fn lemma_classification_monotonic(s1: u8, s2: u8)
    requires
        s1 < s2,
    ensures
        level_of(s1).rank() <= level_of(s2).rank(),
{
}

} // verus!
