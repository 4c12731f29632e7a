//! Scan verdicts and errors, the built-in scanners, and the scanner install.

use vstd::prelude::*;
use crate::error::ErrorSource;
use crate::text::{chars_of, extend_chars, string_of};

verus! {

/// Result of scanning opaque file bytes.
#[derive(Clone, Copy, Debug, PartialEq, Eq)]
pub enum ScanVerdict {
    /// No infection detected.
    Clean,
    /// Infection detected; the reason is a class, never a signature name.
    Infected {
        /// Opaque class for metrics (for example `malware`).
        reason_class: Option<&'static str>,
    },
}

/// The text shown for a verdict (`clean`, `infected` or `infected:` and the class).
pub open spec fn verdict_text(v: ScanVerdict) -> Seq<char> {
    match v {
        ScanVerdict::Clean => "clean"@,
        ScanVerdict::Infected { reason_class: Some(c) } => "infected:"@ + c@,
        ScanVerdict::Infected { reason_class: None } => "infected"@,
    }
}

impl ScanVerdict {
    /// The verdict's display text (no signature strings).
    pub fn to_display_string(&self) -> (r: String)
        ensures
            r@ == verdict_text(*self),
    {
        match self {
            ScanVerdict::Clean => String::from_str("clean"),
            ScanVerdict::Infected { reason_class: Some(c) } => {
                let mut v = chars_of("infected:");
                extend_chars(&mut v, &chars_of(c));
                string_of(&v)
            },
            ScanVerdict::Infected { reason_class: None } => String::from_str("infected"),
        }
    }
}

/// Errors from a scanner.
#[derive(Debug)]
pub enum ScanError {
    /// Scanner transport or protocol failure.
    Scanner {
        /// Opaque reason class for logs and metrics (no payload bytes).
        reason_class: Option<&'static str>,
        /// Underlying cause when known.
        source: Option<ErrorSource>,
    },
}

impl ScanError {
    /// A scanner error with an optional reason class and a cause.
    pub fn scanner(reason_class: Option<&'static str>, source: ErrorSource) -> (r: Self)
        ensures
            r == (ScanError::Scanner { reason_class, source: Some(source) }),
    {
        ScanError::Scanner { reason_class, source: Some(source) }
    }

    /// A scanner error with only a reason class.
    pub fn scanner_msg(reason_class: &'static str) -> (r: Self)
        ensures
            r == (ScanError::Scanner { reason_class: Some(reason_class), source: None }),
    {
        ScanError::Scanner { reason_class: Some(reason_class), source: None }
    }

    /// The error's message (`scanner error`).
    pub fn message(&self) -> (r: &'static str)
        ensures
            r@ == "scanner error"@,
    {
        "scanner error"
    }
}

/// Default / embedded scanner: treats every payload as clean.
#[derive(Clone, Copy, Debug, Default)]
pub struct AlwaysCleanScanner;

impl AlwaysCleanScanner {
    /// Every payload is clean.
    pub fn scan(&self, bytes: &[u8]) -> (r: Result<ScanVerdict, ScanError>)
        ensures
            r == Ok::<ScanVerdict, ScanError>(ScanVerdict::Clean),
    {
        Ok(ScanVerdict::Clean)
    }
}

/// Test scanner that always reports an infection (class `test`).
#[derive(Clone, Copy, Debug, Default)]
pub struct AlwaysInfectedScanner;

impl AlwaysInfectedScanner {
    /// Every payload is infected, with reason class `test`.
    pub fn scan(&self, bytes: &[u8]) -> (r: Result<ScanVerdict, ScanError>)
        ensures
            r == Ok::<ScanVerdict, ScanError>(ScanVerdict::Infected { reason_class: Some("test") }),
    {
        Ok(ScanVerdict::Infected { reason_class: Some("test") })
    }
}

/// The installed scanner, if any.
pub struct ScannerSlot<S> {
    installed: Option<S>,
}

impl<S> View for ScannerSlot<S> {
    type V = Option<S>;

    closed spec fn view(&self) -> Option<S> {
        self.installed
    }
}

impl<S> ScannerSlot<S> {
    /// No scanner installed.
    pub fn new() -> (r: Self)
        ensures
            r@ == None::<S>,
    {
        ScannerSlot { installed: None }
    }
}

/// The scanner a scan uses: the installed one, or the always-clean default.
pub enum ResolvedScanner<'a, S> {
    /// The host's installed scanner.
    Installed(&'a S),
    /// No scanner installed: every payload is clean.
    AlwaysClean(AlwaysCleanScanner),
}

/// Install the scanner used by scan workers; a later call replaces it.
pub fn install_virus_scanner<S>(slot: &mut ScannerSlot<S>, scanner: S)
    ensures
        final(slot)@ == Some(scanner),
{
    slot.installed = Some(scanner);
}

/// The installed scanner, if any.
pub fn installed_virus_scanner<S>(slot: &ScannerSlot<S>) -> (r: Option<&S>)
    ensures
        r is Some <==> slot@ is Some,
        r matches Some(s) ==> slot@ == Some(*s),
{
    match &slot.installed {
        Some(s) => Some(s),
        None => None,
    }
}

/// The installed scanner, or [`AlwaysCleanScanner`] when none is installed.
pub fn resolve_virus_scanner<S>(slot: &ScannerSlot<S>) -> (r: ResolvedScanner<'_, S>)
    ensures
        slot@ is None ==> r is AlwaysClean,
        slot@ matches Some(s) ==> (r matches ResolvedScanner::Installed(t) && *t == s),
{
    match &slot.installed {
        Some(s) => ResolvedScanner::Installed(s),
        None => ResolvedScanner::AlwaysClean(AlwaysCleanScanner),
    }
}

/// Clear the scanner install.
pub fn clear_virus_scanner_for_test<S>(slot: &mut ScannerSlot<S>)
    ensures
        final(slot)@ == None::<S>,
{
    slot.installed = None;
}

} // verus!
