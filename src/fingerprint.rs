use vstd::prelude::*;
use crate::text::{starts_with, spec_starts_with, str_eq};

verus! {

/// The persisted record of the compiler that last generated documentation.
#[derive(Clone, Debug)]
pub struct RustDocFingerprint {
    /// The compiler's verbose version string.
    pub rustc_vv: String,
}

/// What a documentation build does before it starts.
#[derive(Clone, Copy, PartialEq, Eq, Structural, Debug)]
pub enum FingerprintAction {
    /// Leave the output and the record alone.
    Nothing,
    /// Write a fresh record; purge nothing.
    Record,
    /// Purge the documentation output, then write a fresh record.
    PurgeAndRecord,
}

/// The guard's decision: nothing when disabled; a fresh record when no
/// readable record exists; nothing when the recorded version is the
/// current one; otherwise a purge and a fresh record.
pub open spec fn spec_fingerprint_action(
    disabled: bool,
    stored: Option<Seq<char>>,
    current: Seq<char>,
) -> FingerprintAction {
    if disabled {
        FingerprintAction::Nothing
    } else {
        match stored {
            None => FingerprintAction::Record,
            Some(v) => if v == current {
                FingerprintAction::Nothing
            } else {
                FingerprintAction::PurgeAndRecord
            },
        }
    }
}

/// The recorded version after the guard has acted.
pub open spec fn record_after(disabled: bool, stored: Option<Seq<char>>, current: Seq<char>) -> Option<
    Seq<char>,
> {
    match spec_fingerprint_action(disabled, stored, current) {
        FingerprintAction::Nothing => stored,
        _ => Some(current),
    }
}

pub open spec fn stored_view(stored: Option<&RustDocFingerprint>) -> Option<Seq<char>> {
    match stored {
        Some(f) => Some(f.rustc_vv@),
        None => None,
    }
}

impl RustDocFingerprint {
    /// Decides whether documentation output made by another compiler must
    /// be purged. `stored` is the record read from disk, `None` when it is
    /// missing or unreadable; `disabled` is the switch that turns the guard
    /// off.
    pub fn check_rustdoc_fingerprint(
        disabled: bool,
        stored: Option<&RustDocFingerprint>,
        current: &RustDocFingerprint,
    ) -> (r: FingerprintAction)
        ensures
            r == spec_fingerprint_action(disabled, stored_view(stored), current.rustc_vv@),
    {
        if disabled {
            return FingerprintAction::Nothing;
        }
        match stored {
            None => FingerprintAction::Record,
            Some(f) => if str_eq(f.rustc_vv.as_str(), current.rustc_vv.as_str()) {
                FingerprintAction::Nothing
            } else {
                FingerprintAction::PurgeAndRecord
            },
        }
    }
}

/// A second run with the same compiler changes nothing.
pub proof fn lemma_fingerprint_idempotent(stored: Option<Seq<char>>, current: Seq<char>)
    ensures
        spec_fingerprint_action(false, record_after(false, stored, current), current)
            == FingerprintAction::Nothing,
{
}

/// A recorded version that differs from the current compiler's causes one
/// purge followed by a fresh record, after which the guard is quiet.
pub proof fn lemma_fingerprint_change_purges_once(recorded: Seq<char>, current: Seq<char>)
    requires
        recorded != current,
    ensures
        spec_fingerprint_action(false, Some(recorded), current)
            == FingerprintAction::PurgeAndRecord,
        record_after(false, Some(recorded), current) == Some(current),
        spec_fingerprint_action(false, record_after(false, Some(recorded), current), current)
            == FingerprintAction::Nothing,
{
}

/// Hidden entries (a leading dot) are the user's and survive a purge.
pub fn is_hidden(name: &str) -> (r: bool)
    ensures
        r == spec_starts_with(name@, "."@),
{
    starts_with(name, ".")
}

} // verus!
