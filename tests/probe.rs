use target_info::probe::{lines, output_err_info};
use target_info::{Cfg, CompileKind, Config, ProbeErrorKind, TargetInfo};

fn empty_config() -> Config {
    Config {
        env_rustflags: None,
        env_rustdocflags: None,
        entries: Vec::new(),
        cfg_entries: Vec::new(),
        build_rustflags: None,
        build_rustdocflags: None,
    }
}

fn run(out: &str, err: &str) -> Result<TargetInfo, target_info::ProbeError> {
    let c = empty_config();
    TargetInfo::new(&c, &vec![CompileKind::Host], "x86_64-unknown-linux-gnu", &CompileKind::Host, "rustc -", out, err, false, false)
}

#[test]
fn cfg_lines_are_parsed_and_probe_predicate_dropped() {
    let out = "___\nlib___.rlib\nlib___.so\nlib___.so\nlib___.a\nlib___.so\n/sys root\nunix\nproc_macro\ntarget_os=\"linux\"\n";
    let info = run(out, "").unwrap();
    assert_eq!(
        info.cfg,
        vec![Cfg::Name("unix".to_string()), Cfg::KeyPair("target_os".to_string(), "linux".to_string())]
    );
    assert_eq!(info.sysroot, "/sys root");
    assert!(!info.supports_split_debuginfo);
}

#[test]
fn sysroot_paths_are_joined() {
    let out = "___\nlib___.rlib\nlib___.so\nlib___.so\nlib___.a\nlib___.so\n/opt/rust\n";
    let info = run(out, "").unwrap();
    let p = std::path::Path::new("/opt/rust").join("lib");
    assert_eq!(info.sysroot_host_libdir, p.to_string_lossy());
    let t = std::path::Path::new("/opt/rust").join("lib").join("rustlib").join("x86_64-unknown-linux-gnu").join("lib");
    assert_eq!(info.sysroot_target_libdir, t.to_string_lossy());
}

#[test]
fn file_name_lines_are_trimmed() {
    let out = "  ___  \r\n lib___.rlib\nlib___.so\nlib___.so\nlib___.a\nlib___.so\n/s\n";
    let info = run(out, "").unwrap();
    let f = info.file_types(&target_info::CrateType::Rlib, target_info::FileFlavor::Linkable, "x").unwrap().unwrap();
    assert_eq!(f[0].prefix(), "lib");
    assert_eq!(f[0].suffix(), ".rlib");
}

#[test]
fn missing_file_names_is_an_error() {
    let e = run("___\nlib___.rlib\n", "").err().unwrap();
    assert_eq!(e.kind, ProbeErrorKind::MissingFileNames(target_info::CrateType::Dylib));
    assert!(e.detail.contains("--- stdout"));
}

#[test]
fn line_without_separator_is_an_error() {
    let e = run("bin\n", "").err().unwrap();
    assert_eq!(e.kind, ProbeErrorKind::FileNamesChanged);
}

#[test]
fn missing_sysroot_is_an_error() {
    let e = run("___\nlib___.rlib\nlib___.so\nlib___.so\nlib___.a\nlib___.so\n", "").err().unwrap();
    assert_eq!(e.kind, ProbeErrorKind::MissingSysroot);
}

#[test]
fn bad_cfg_is_an_error() {
    let e = run("___\nlib___.rlib\nlib___.so\nlib___.so\nlib___.a\nlib___.so\n/s\nfoo(\n", "oops").err().unwrap();
    assert_eq!(e.kind, ProbeErrorKind::BadCfg);
    assert!(e.detail.contains("--- stderr\noops"));
}

#[test]
fn error_info_layout() {
    assert_eq!(output_err_info("rustc -", "", ""), "command was: rustc -\n(no output received)");
    assert_eq!(output_err_info("c", "o", "e"), "command was: c\n\n--- stdout\no\n--- stderr\ne");
    assert_eq!(output_err_info("c", "", "e"), "command was: c\n\n--- stderr\ne");
}

#[test]
fn lines_follow_line_endings() {
    assert_eq!(lines("a\r\nb\nc"), vec!["a".to_string(), "b".to_string(), "c".to_string()]);
    assert_eq!(lines("a\n\nb\n"), vec!["a".to_string(), String::new(), "b".to_string()]);
    assert_eq!(lines("a\rb"), vec!["a\rb".to_string()]);
    assert!(lines("").is_empty());
}
