use target_info::fingerprint::is_hidden;
use target_info::{FingerprintAction, RustDocFingerprint};

fn fp(s: &str) -> RustDocFingerprint {
    RustDocFingerprint { rustc_vv: s.to_string() }
}

#[test]
fn missing_record_is_written_without_purge() {
    assert_eq!(RustDocFingerprint::check_rustdoc_fingerprint(false, None, &fp("rustc 1.60")), FingerprintAction::Record);
}

#[test]
fn second_run_with_same_compiler_does_nothing() {
    let current = fp("rustc 1.60");
    let first = RustDocFingerprint::check_rustdoc_fingerprint(false, None, &current);
    assert_eq!(first, FingerprintAction::Record);
    let stored = current.clone();
    assert_eq!(RustDocFingerprint::check_rustdoc_fingerprint(false, Some(&stored), &current), FingerprintAction::Nothing);
}

#[test]
fn changed_compiler_purges_once() {
    let current = fp("rustc 1.61");
    let old = fp("rustc 1.60");
    assert_eq!(RustDocFingerprint::check_rustdoc_fingerprint(false, Some(&old), &current), FingerprintAction::PurgeAndRecord);
    assert_eq!(RustDocFingerprint::check_rustdoc_fingerprint(false, Some(&current), &current), FingerprintAction::Nothing);
}

#[test]
fn disabled_guard_does_nothing() {
    assert_eq!(RustDocFingerprint::check_rustdoc_fingerprint(true, Some(&fp("a")), &fp("b")), FingerprintAction::Nothing);
    assert_eq!(RustDocFingerprint::check_rustdoc_fingerprint(true, None, &fp("b")), FingerprintAction::Nothing);
}

#[test]
fn hidden_entries() {
    assert!(is_hidden(".keep"));
    assert!(!is_hidden("index.html"));
    assert!(!is_hidden(""));
}
