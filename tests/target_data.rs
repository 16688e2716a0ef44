use target_info::{
    BuildOutput, Cfg, CompileKind, Config, Dependency, LinksOverride, RustcTargetData, TargetConfig,
    TargetInfo,
};

fn empty_config() -> Config {
    Config {
        env_rustflags: None,
        env_rustdocflags: None,
        entries: Vec::new(),
        cfg_entries: Vec::new(),
        build_rustflags: None,
        build_rustdocflags: None,
    }
}

fn info(kind: &CompileKind, os: &str) -> TargetInfo {
    let out = format!("___\nlib___.rlib\nlib___.so\nlib___.so\nlib___.a\nlib___.so\n/s\n{}\n", os);
    TargetInfo::new(&empty_config(), &vec![kind.clone()], "host-triple", kind, "rustc", &out, "", true, false).unwrap()
}

fn output(path: &str) -> BuildOutput {
    BuildOutput {
        library_paths: vec![path.to_string()],
        library_links: Vec::new(),
        linker_args: Vec::new(),
        cfgs: Vec::new(),
        env: Vec::new(),
        metadata: Vec::new(),
    }
}

fn data(requested: Vec<CompileKind>) -> RustcTargetData {
    let host_config = TargetConfig {
        links_overrides: vec![LinksOverride { lib_name: "z".to_string(), output: output("/host/z") }],
    };
    RustcTargetData::new("host-triple".to_string(), requested, host_config, info(&CompileKind::Host, "unix"))
}

#[test]
fn host_answers_for_its_own_triple() {
    let d = data(vec![CompileKind::Host]);
    let as_target = CompileKind::Target("host-triple".to_string());
    assert!(d.has_target_exec("host-triple"));
    assert_eq!(d.info(&as_target).cfg, vec![Cfg::Name("unix".to_string())]);
    assert_eq!(d.short_name(&CompileKind::Host), "host-triple");
    assert!(d.script_override("z", &as_target).is_some());
}

#[test]
fn host_triple_needs_a_probe_when_cross_compiling() {
    let d = data(vec![CompileKind::Target("host-triple".to_string())]);
    assert!(!d.has_target_exec("host-triple"));
}

#[test]
fn pending_targets_are_distinct_and_new() {
    let d = data(vec![CompileKind::Host]);
    let kinds = vec![
        CompileKind::Host,
        CompileKind::Target("wasm32-unknown-unknown".to_string()),
        CompileKind::Target("host-triple".to_string()),
        CompileKind::Target("wasm32-unknown-unknown".to_string()),
        CompileKind::Target("aarch64-apple-darwin".to_string()),
    ];
    assert_eq!(d.pending_targets(&kinds), vec!["wasm32-unknown-unknown".to_string(), "aarch64-apple-darwin".to_string()]);
}

#[test]
fn inserted_targets_are_found_and_never_replaced() {
    let mut d = data(vec![CompileKind::Host]);
    let w = CompileKind::Target("wasm32-unknown-unknown".to_string());
    let cfg = TargetConfig { links_overrides: vec![LinksOverride { lib_name: "z".to_string(), output: output("/w/z") }] };
    d.insert_target("wasm32-unknown-unknown".to_string(), cfg, info(&w, "target_family=\"wasm\""));
    d.insert_target("wasm32-unknown-unknown".to_string(), TargetConfig { links_overrides: Vec::new() }, info(&w, "unix"));
    assert_eq!(d.targets.len(), 1);
    assert_eq!(d.cfg(&w), &vec![Cfg::KeyPair("target_family".to_string(), "wasm".to_string())]);
    assert_eq!(d.script_override("z", &w).unwrap().library_paths, vec!["/w/z".to_string()]);
    assert!(d.script_override("y", &w).is_none());
    assert_eq!(d.short_name(&w), "wasm32-unknown-unknown");
}

#[test]
fn dependency_platforms() {
    let d = data(vec![CompileKind::Host]);
    let any = Dependency { name: "a".to_string(), platform: None };
    let unix = Dependency { name: "b".to_string(), platform: Some("cfg(unix)".to_string()) };
    let windows = Dependency { name: "c".to_string(), platform: Some("cfg(windows)".to_string()) };
    let named = Dependency { name: "d".to_string(), platform: Some("host-triple".to_string()) };
    let other = Dependency { name: "e".to_string(), platform: Some("other-triple".to_string()) };
    assert!(d.dep_platform_activated(&any, &CompileKind::Host));
    assert!(d.dep_platform_activated(&unix, &CompileKind::Host));
    assert!(!d.dep_platform_activated(&windows, &CompileKind::Host));
    assert!(d.dep_platform_activated(&named, &CompileKind::Host));
    assert!(!d.dep_platform_activated(&other, &CompileKind::Host));
}
