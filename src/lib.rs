//! Toolchain introspection and artifact naming for a build orchestrator.
//!
//! The library decides what the compiler will emit for each kind of
//! artifact, which flags apply to each build kind, how the compiler's
//! probe output is read, and when generated documentation must be purged.
//! Running the compiler, reading the environment and touching the disk are
//! left to the caller, which hands the results in as plain values.
pub mod cfg;
pub mod discover;
pub mod file_type;
pub mod fingerprint;
pub mod flags;
pub mod kinds;
pub mod naming;
pub mod probe;
pub mod target_data;
pub mod target_info;
pub mod text;

pub use cfg::Cfg;
pub use file_type::{FileFlavor, FileType, Target};
pub use fingerprint::{FingerprintAction, RustDocFingerprint};
pub use flags::{Config, ConfigEntry, FlagKind};
pub use kinds::{CompileKind, CompileMode, CrateType, TargetKind};
pub use probe::{ProbeError, ProbeErrorKind};
pub use target_data::{BuildOutput, Dependency, LinksOverride, RustcTargetData, TargetConfig};
pub use target_info::TargetInfo;
