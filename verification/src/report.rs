//! Diagnostics: the status lines that accompany each step of an escalation.

use vstd::prelude::*;
use crate::cache::{CacheEntryHandle, InvalidationResult};
use crate::package::PackageIdentifier;
use crate::severity::SeverityLevel;

verus! {

/// How grave a diagnostic is.
#[derive(Debug, Clone, Copy, PartialEq, Eq, Structural)]
pub enum DiagnosticLevel {
    Info,
    Warning,
    Fatal,
}

/// One status line with its gravity.
#[derive(Debug, Clone, PartialEq, Eq)]
pub struct Diagnostic {
    pub level: DiagnosticLevel,
    pub text: String,
}

impl View for Diagnostic {
    type V = (DiagnosticLevel, Seq<char>);

    open spec fn view(&self) -> (DiagnosticLevel, Seq<char>) {
        (self.level, self.text@)
    }
}

/// The views of a run of diagnostics, in order.
pub open spec fn lines_of(diagnostics: Seq<Diagnostic>) -> Seq<(DiagnosticLevel, Seq<char>)> {
    diagnostics.map_values(|d: Diagnostic| d@)
}

/// The gravity of the status line of a severity level: informational for
/// `Okay`, a warning for `Warning` and `Danger`, fatal from `Critical` upwards.
pub open spec fn gravity_of(level: SeverityLevel) -> DiagnosticLevel {
    match level {
        SeverityLevel::Okay => DiagnosticLevel::Info,
        SeverityLevel::Warning => DiagnosticLevel::Warning,
        SeverityLevel::Danger => DiagnosticLevel::Warning,
        SeverityLevel::Critical => DiagnosticLevel::Fatal,
        SeverityLevel::Panic => DiagnosticLevel::Fatal,
    }
}

/// The text of the status line of a severity level, for a package.
pub open spec fn status_text(level: SeverityLevel, pkg: Seq<char>) -> Seq<char> {
    match level {
        SeverityLevel::Okay => "[bustcall] ✅ Cache OK for '"@ + pkg + "'. No action taken."@,
        SeverityLevel::Warning | SeverityLevel::Danger =>
            "[bustcall] ⚠️ Warning or Danger level detected for '"@ + pkg
                + "'. Busting cache..."@,
        SeverityLevel::Critical | SeverityLevel::Panic =>
            "[bustcall] ❌ Critical/Panic detected for '"@ + pkg + "'. Forcing restart."@,
    }
}

/// The status line of a severity level.
pub open spec fn status_of(level: SeverityLevel, pkg: Seq<char>) -> (DiagnosticLevel, Seq<char>) {
    (gravity_of(level), status_text(level, pkg))
}

/// The line that announces the invalidation of a package's cache entry.
pub open spec fn announcement_of(pkg: Seq<char>) -> (DiagnosticLevel, Seq<char>) {
    (DiagnosticLevel::Info, "[bustcall] Busting cache for: "@ + pkg)
}

/// The line that reports what an invalidation came to. Only a failure is a
/// warning: an entry that was already absent is reported like a removed one.
pub open spec fn outcome_of(result: InvalidationResult, path: Seq<char>) -> (
    DiagnosticLevel,
    Seq<char>,
) {
    match result {
        InvalidationResult::Removed => (
            DiagnosticLevel::Info,
            "[bustcall] Cache removed at "@ + path,
        ),
        InvalidationResult::AlreadyAbsent => (
            DiagnosticLevel::Info,
            "[bustcall] Cache entry not found or already clean."@,
        ),
        InvalidationResult::Failed(reason) => (
            DiagnosticLevel::Warning,
            "[bustcall] Cache invalidation failed: "@ + reason@,
        ),
    }
}

/// The line that goes with a restart request.
pub open spec fn restart_line() -> (DiagnosticLevel, Seq<char>) {
    (
        DiagnosticLevel::Fatal,
        "[bustcall] PANIC: restarting process due to fatal cache corruption..."@,
    )
}

/// The line that reports a probe that gave no score.
pub open spec fn probe_failure_of(reason: Seq<char>) -> (DiagnosticLevel, Seq<char>) {
    (DiagnosticLevel::Fatal, "[bustcall] Integrity probe failed: "@ + reason)
}

/// The gravity of the status line of a severity level.
pub fn gravity(level: SeverityLevel) -> (g: DiagnosticLevel)
    ensures
        g == gravity_of(level),
{
    match level {
        SeverityLevel::Okay => DiagnosticLevel::Info,
        SeverityLevel::Warning | SeverityLevel::Danger => DiagnosticLevel::Warning,
        SeverityLevel::Critical | SeverityLevel::Panic => DiagnosticLevel::Fatal,
    }
}

/// The status line of a severity level, for a package.
pub fn status_line(level: SeverityLevel, pkg: &PackageIdentifier) -> (d: Diagnostic)
    ensures
        d@ == status_of(level, pkg@),
{
    let mut text;
    match level {
        SeverityLevel::Okay => {
            text = String::from_str("[bustcall] ✅ Cache OK for '");
            text.append(pkg.as_str());
            text.append("'. No action taken.");
        },
        SeverityLevel::Warning | SeverityLevel::Danger => {
            text = String::from_str("[bustcall] ⚠️ Warning or Danger level detected for '");
            text.append(pkg.as_str());
            text.append("'. Busting cache...");
        },
        SeverityLevel::Critical | SeverityLevel::Panic => {
            text = String::from_str("[bustcall] ❌ Critical/Panic detected for '");
            text.append(pkg.as_str());
            text.append("'. Forcing restart.");
        },
    }
    Diagnostic { level: gravity(level), text }
}

/// The line that announces the invalidation of a package's cache entry.
pub fn invalidation_announcement(pkg: &PackageIdentifier) -> (d: Diagnostic)
    ensures
        d@ == announcement_of(pkg@),
{
    let mut text = String::from_str("[bustcall] Busting cache for: ");
    text.append(pkg.as_str());
    Diagnostic { level: DiagnosticLevel::Info, text }
}

/// The line that reports what the invalidation of an entry came to.
pub fn invalidation_outcome(result: &InvalidationResult, handle: &CacheEntryHandle) -> (d:
    Diagnostic)
    ensures
        d@ == outcome_of(*result, handle@),
{
    match result {
        InvalidationResult::Removed => {
            let mut text = String::from_str("[bustcall] Cache removed at ");
            text.append(handle.as_str());
            Diagnostic { level: DiagnosticLevel::Info, text }
        },
        InvalidationResult::AlreadyAbsent => Diagnostic {
            level: DiagnosticLevel::Info,
            text: String::from_str("[bustcall] Cache entry not found or already clean."),
        },
        InvalidationResult::Failed(reason) => {
            let mut text = String::from_str("[bustcall] Cache invalidation failed: ");
            text.append(reason.as_str());
            Diagnostic { level: DiagnosticLevel::Warning, text }
        },
    }
}

/// The line that goes with a restart request.
pub fn restart_notice() -> (d: Diagnostic)
    ensures
        d@ == restart_line(),
{
    Diagnostic {
        level: DiagnosticLevel::Fatal,
        text: String::from_str(
            "[bustcall] PANIC: restarting process due to fatal cache corruption...",
        ),
    }
}

/// The line that reports a probe that gave no score.
pub fn probe_failure_notice(reason: &str) -> (d: Diagnostic)
    ensures
        d@ == probe_failure_of(reason@),
{
    let mut text = String::from_str("[bustcall] Integrity probe failed: ");
    text.append(reason);
    Diagnostic { level: DiagnosticLevel::Fatal, text }
}

} // verus!
