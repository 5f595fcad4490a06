use bustcall::remediation::{remediation_for, RemediationAction};
use bustcall::severity::{classify_severity, SeverityLevel};

const LEVELS: [SeverityLevel; 5] = [
    SeverityLevel::Okay,
    SeverityLevel::Warning,
    SeverityLevel::Danger,
    SeverityLevel::Critical,
    SeverityLevel::Panic,
];

fn expected_level(score: u8) -> SeverityLevel {
    if score <= 3 {
        SeverityLevel::Okay
    } else if score <= 6 {
        SeverityLevel::Warning
    } else if score <= 9 {
        SeverityLevel::Danger
    } else if score <= 11 {
        SeverityLevel::Critical
    } else {
        SeverityLevel::Panic
    }
}

fn strength(action: RemediationAction) -> u8 {
    match action {
        RemediationAction::NoAction => 0,
        RemediationAction::Invalidate => 1,
        RemediationAction::InvalidateAndRestart => 2,
    }
}

#[test]
fn classify_range_boundaries() {
    assert_eq!(classify_severity(0), SeverityLevel::Okay);
    assert_eq!(classify_severity(3), SeverityLevel::Okay);
    assert_eq!(classify_severity(4), SeverityLevel::Warning);
    assert_eq!(classify_severity(6), SeverityLevel::Warning);
    assert_eq!(classify_severity(7), SeverityLevel::Danger);
    assert_eq!(classify_severity(9), SeverityLevel::Danger);
    assert_eq!(classify_severity(10), SeverityLevel::Critical);
    assert_eq!(classify_severity(11), SeverityLevel::Critical);
    assert_eq!(classify_severity(12), SeverityLevel::Panic);
    assert_eq!(classify_severity(255), SeverityLevel::Panic);
}

#[test]
fn classify_covers_every_score_once() {
    for score in 0..=255u8 {
        let level = classify_severity(score);
        assert_eq!(level, expected_level(score), "score {}", score);
        let matching = LEVELS.iter().filter(|l| **l == level).count();
        assert_eq!(matching, 1);
    }
}

#[test]
fn classify_every_level_is_reached() {
    for level in LEVELS {
        assert!((0..=255u8).any(|s| classify_severity(s) == level));
    }
}

#[test]
fn classify_is_monotonic() {
    for s1 in 0..=255u8 {
        for s2 in s1..=255u8 {
            let low = classify_severity(s1);
            let high = classify_severity(s2);
            assert!(low.ordinal() <= high.ordinal(), "{} vs {}", s1, s2);
            assert!(high.at_least(low));
        }
    }
}

#[test]
fn ordinal_follows_severity_order() {
    assert_eq!(SeverityLevel::Okay.ordinal(), 0);
    assert_eq!(SeverityLevel::Warning.ordinal(), 1);
    assert_eq!(SeverityLevel::Danger.ordinal(), 2);
    assert_eq!(SeverityLevel::Critical.ordinal(), 3);
    assert_eq!(SeverityLevel::Panic.ordinal(), 4);
    assert!(SeverityLevel::Panic.at_least(SeverityLevel::Critical));
    assert!(SeverityLevel::Danger.at_least(SeverityLevel::Danger));
    assert!(!SeverityLevel::Warning.at_least(SeverityLevel::Danger));
}

#[test]
fn remediation_per_level() {
    assert_eq!(remediation_for(SeverityLevel::Okay), RemediationAction::NoAction);
    assert_eq!(remediation_for(SeverityLevel::Warning), RemediationAction::Invalidate);
    assert_eq!(remediation_for(SeverityLevel::Danger), RemediationAction::Invalidate);
    assert_eq!(
        remediation_for(SeverityLevel::Critical),
        RemediationAction::InvalidateAndRestart
    );
    assert_eq!(
        remediation_for(SeverityLevel::Panic),
        RemediationAction::InvalidateAndRestart
    );
}

#[test]
fn remediation_is_monotonic() {
    for (i, lower) in LEVELS.iter().enumerate() {
        for higher in LEVELS.iter().skip(i) {
            assert!(strength(remediation_for(*lower)) <= strength(remediation_for(*higher)));
        }
    }
}

#[test]
fn remediation_flags() {
    assert!(!RemediationAction::NoAction.invalidates());
    assert!(!RemediationAction::NoAction.restarts());
    assert!(RemediationAction::Invalidate.invalidates());
    assert!(!RemediationAction::Invalidate.restarts());
    assert!(RemediationAction::InvalidateAndRestart.invalidates());
    assert!(RemediationAction::InvalidateAndRestart.restarts());
}

#[test]
fn panic_level_acts_as_critical() {
    assert_eq!(classify_severity(200), SeverityLevel::Panic);
    assert_eq!(
        remediation_for(classify_severity(200)),
        remediation_for(classify_severity(10))
    );
}
