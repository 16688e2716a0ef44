use target_info::flags::{env_args, split_env_flags};
use target_info::{Cfg, CompileKind, Config, ConfigEntry, FlagKind};

fn strings(v: &[&str]) -> Vec<String> {
    v.iter().map(|s| s.to_string()).collect()
}

fn config() -> Config {
    Config {
        env_rustflags: None,
        env_rustdocflags: None,
        entries: vec![ConfigEntry {
            key: "target.x86_64-unknown-linux-gnu.rustflags".to_string(),
            flags: strings(&["-Ctarget-cpu=native"]),
        }],
        cfg_entries: vec![
            ConfigEntry { key: "cfg(unix)".to_string(), flags: strings(&["--cfg", "u"]) },
            ConfigEntry { key: "cfg(windows)".to_string(), flags: strings(&["--cfg", "w"]) },
        ],
        build_rustflags: Some(strings(&["-Cdebuginfo=1"])),
        build_rustdocflags: Some(strings(&["--document-private-items"])),
    }
}

#[test]
fn environment_wins_over_configuration() {
    let mut c = config();
    c.env_rustflags = Some("-C opt-level=3".to_string());
    let cfgs = vec![Cfg::Name("unix".to_string())];
    let r = env_args(&c, &vec![CompileKind::Host], "x86_64-unknown-linux-gnu", Some(&cfgs), &CompileKind::Host, FlagKind::Rustflags);
    assert_eq!(r, strings(&["-C", "opt-level=3"]));
}

#[test]
fn empty_environment_value_gives_no_flags() {
    let mut c = config();
    c.env_rustflags = Some("   ".to_string());
    let r = env_args(&c, &vec![CompileKind::Host], "x86_64-unknown-linux-gnu", None, &CompileKind::Host, FlagKind::Rustflags);
    assert!(r.is_empty());
}

#[test]
fn host_gets_nothing_when_cross_compiling() {
    let mut c = config();
    c.env_rustflags = Some("-C opt-level=3".to_string());
    let requested = vec![CompileKind::Target("x".to_string())];
    let r = env_args(&c, &requested, "x86_64-unknown-linux-gnu", None, &CompileKind::Host, FlagKind::Rustflags);
    assert!(r.is_empty());
    let t = env_args(&c, &requested, "x86_64-unknown-linux-gnu", None, &CompileKind::Target("x".to_string()), FlagKind::Rustflags);
    assert_eq!(t, strings(&["-C", "opt-level=3"]));
}

#[test]
fn platform_and_cfg_lists_are_joined() {
    let c = config();
    let cfgs = vec![Cfg::Name("unix".to_string())];
    let r = env_args(&c, &vec![CompileKind::Host], "x86_64-unknown-linux-gnu", Some(&cfgs), &CompileKind::Host, FlagKind::Rustflags);
    assert_eq!(r, strings(&["-Ctarget-cpu=native", "--cfg", "u"]));
    let blind = env_args(&c, &vec![CompileKind::Host], "x86_64-unknown-linux-gnu", None, &CompileKind::Host, FlagKind::Rustflags);
    assert_eq!(blind, strings(&["-Ctarget-cpu=native"]));
}

#[test]
fn global_list_is_the_fallback() {
    let c = config();
    let r = env_args(&c, &vec![CompileKind::Host], "aarch64-unknown-linux-gnu", None, &CompileKind::Host, FlagKind::Rustflags);
    assert_eq!(r, strings(&["-Cdebuginfo=1"]));
    let d = env_args(&c, &vec![CompileKind::Host], "aarch64-unknown-linux-gnu", None, &CompileKind::Host, FlagKind::Rustdocflags);
    assert_eq!(d, strings(&["--document-private-items"]));
    let mut none = config();
    none.build_rustflags = None;
    let e = env_args(&none, &vec![CompileKind::Host], "aarch64-unknown-linux-gnu", None, &CompileKind::Host, FlagKind::Rustflags);
    assert!(e.is_empty());
}

#[test]
fn environment_tokens_are_trimmed() {
    assert_eq!(split_env_flags("  -C\topt-level=3  \t --cfg x "), strings(&["-C\topt-level=3", "--cfg", "x"]));
    assert_eq!(split_env_flags("a\tb"), strings(&["a\tb"]));
    assert_eq!(split_env_flags(" a\n b"), strings(&["a", "b"]));
    assert!(split_env_flags("").is_empty());
    assert_eq!(FlagKind::Rustdocflags.env_name(), "RUSTDOCFLAGS");
}
