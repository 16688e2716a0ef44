use target_info::{
    CompileMode, CrateType, FileFlavor, FileType, Target, TargetInfo, TargetKind,
};
use target_info::discover::probe_args;
use target_info::probe::split_file_names;
use target_info::{CompileKind, Config};

fn empty_config() -> Config {
    Config {
        env_rustflags: None,
        env_rustdocflags: None,
        entries: Vec::new(),
        cfg_entries: Vec::new(),
        build_rustflags: None,
        build_rustdocflags: None,
    }
}

fn probe(kind: &CompileKind, out: &str, err: &str) -> TargetInfo {
    let config = empty_config();
    let requested = vec![kind.clone()];
    TargetInfo::new(&config, &requested, "x86_64-unknown-linux-gnu", kind, "rustc -", out, err, true, false)
        .unwrap()
}

const LINUX_OUT: &str = "___\nlib___.rlib\nlib___.so\nlib___.so\nlib___.a\nlib___.so\n/sysroot\nunix\ndebug_assertions\nproc_macro\ntarget_os=\"linux\"\n";
const MSVC_OUT: &str = "___.exe\nlib___.rlib\n___.dll\n___.dll\n___.lib\n___.dll\n/sysroot\nwindows\ntarget_env=\"msvc\"\n";
const APPLE_OUT: &str = "___\nlib___.rlib\nlib___.dylib\nlib___.dylib\nlib___.a\nlib___.dylib\n/sysroot\nunix\n";

fn suffixes(v: &[FileType]) -> Vec<String> {
    v.iter().map(|f| f.suffix().to_string()).collect()
}

#[test]
fn output_filename_with_and_without_metadata() {
    let info = probe(&CompileKind::Host, LINUX_OUT, "");
    let fts = info.file_types(&CrateType::Rlib, FileFlavor::Linkable, "x86_64-unknown-linux-gnu").unwrap().unwrap();
    let t = Target::new("my-crate".to_string(), TargetKind::Lib(vec![CrateType::Lib]));
    assert_eq!(fts[0].output_filename(&t, Some("abc123")), "libmy_crate-abc123.rlib");
    assert_eq!(fts[0].output_filename(&t, None), "libmy_crate.rlib");
    assert_eq!(fts[0].uplift_filename(&t), "libmy_crate.rlib");
}

#[test]
fn binaries_keep_hyphens_when_uplifted() {
    let info = probe(&CompileKind::Host, LINUX_OUT, "");
    let fts = info.file_types(&CrateType::Bin, FileFlavor::Normal, "x86_64-unknown-linux-gnu").unwrap().unwrap();
    assert_eq!(fts.len(), 1);
    let t = Target::new("my-tool".to_string(), TargetKind::Bin);
    assert_eq!(fts[0].uplift_filename(&t), "my-tool");
    assert_eq!(fts[0].output_filename(&t, Some("h")), "my_tool-h");
}

#[test]
fn rmeta_and_rcheck_files() {
    let r = FileType::new_rmeta();
    assert_eq!(r.flavor, FileFlavor::Rmeta);
    assert_eq!(r.crate_type, None);
    assert_eq!(r.prefix(), "lib");
    assert_eq!(r.suffix(), ".rmeta");
    assert!(r.should_replace_hyphens());
    let c = FileType::new_rcheck();
    assert_eq!(c.flavor, FileFlavor::Rcheck);
    assert_eq!(c.suffix(), ".rcheck");
    let t = Target::new("a-b".to_string(), TargetKind::Bin);
    assert_eq!(c.uplift_filename(&t), "liba_b.rcheck");
}

#[test]
fn msvc_dll_has_import_and_export_files() {
    let kind = CompileKind::Target("x86_64-pc-windows-msvc".to_string());
    let info = probe(&kind, MSVC_OUT, "");
    let fts = info.file_types(&CrateType::Dylib, FileFlavor::Linkable, "x86_64-pc-windows-msvc").unwrap().unwrap();
    assert_eq!(suffixes(&fts), vec![".dll", ".dll.lib", ".dll.exp", ".pdb"]);
    for f in &fts[..3] {
        assert_eq!(f.prefix(), "");
        assert!(f.should_replace_hyphens());
    }
    assert_eq!(fts[1].flavor, FileFlavor::Auxiliary);
    assert_eq!(fts[2].flavor, FileFlavor::Auxiliary);
    assert_eq!(fts[3].flavor, FileFlavor::DebugInfo);
}

#[test]
fn gnu_dll_has_import_library_with_lib_prefix() {
    let kind = CompileKind::Target("x86_64-pc-windows-gnu".to_string());
    let info = probe(&kind, MSVC_OUT, "");
    let fts = info.file_types(&CrateType::Cdylib, FileFlavor::Normal, "x86_64-pc-windows-gnu").unwrap().unwrap();
    assert_eq!(suffixes(&fts), vec![".dll", ".dll.a"]);
    assert_eq!(fts[1].prefix(), "lib");
}

#[test]
fn apple_binary_has_dsym_with_hyphens() {
    let kind = CompileKind::Target("aarch64-apple-darwin".to_string());
    let info = probe(&kind, APPLE_OUT, "");
    let fts = info.file_types(&CrateType::Bin, FileFlavor::Normal, "aarch64-apple-darwin").unwrap().unwrap();
    assert_eq!(suffixes(&fts), vec!["", ".dSYM"]);
    assert_eq!(fts[1].flavor, FileFlavor::DebugInfo);
    assert!(!fts[1].should_replace_hyphens());
    let d = info.file_types(&CrateType::Dylib, FileFlavor::Linkable, "aarch64-apple-darwin").unwrap().unwrap();
    assert_eq!(suffixes(&d), vec![".dylib", ".dylib.dSYM"]);
}

#[test]
fn emscripten_binary_has_wasm_and_map() {
    let out = "___.js\nlib___.rlib\nlib___.so\nlib___.so\nlib___.a\nlib___.so\n/sysroot\n";
    let kind = CompileKind::Target("wasm32-unknown-emscripten".to_string());
    let info = probe(&kind, out, "");
    let fts = info.file_types(&CrateType::Bin, FileFlavor::Normal, "wasm32-unknown-emscripten").unwrap().unwrap();
    assert_eq!(suffixes(&fts), vec![".js", ".wasm", ".wasm.map"]);
    assert!(!fts[0].should_replace_hyphens());
    assert!(fts[1].should_replace_hyphens());
    assert_eq!(fts[2].flavor, FileFlavor::DebugInfo);
}

#[test]
fn lib_is_looked_up_as_rlib() {
    let info = probe(&CompileKind::Host, LINUX_OUT, "");
    let fts = info.file_types(&CrateType::Lib, FileFlavor::Linkable, "x86_64-unknown-linux-gnu").unwrap().unwrap();
    assert_eq!(fts[0].crate_type, Some(CrateType::Rlib));
    assert_eq!(fts[0].suffix(), ".rlib");
}

#[test]
fn build_of_rlib_adds_one_rmeta() {
    let info = probe(&CompileKind::Host, LINUX_OUT, "");
    let (files, unsupported) = info
        .rustc_outputs(CompileMode::Build, &TargetKind::Lib(vec![CrateType::Lib]), "x86_64-unknown-linux-gnu")
        .unwrap();
    assert_eq!(suffixes(&files), vec![".rlib", ".rmeta"]);
    assert_eq!(files.iter().filter(|f| f.flavor == FileFlavor::Rmeta).count(), 1);
    assert_eq!(files[0].flavor, FileFlavor::Linkable);
    assert!(unsupported.is_empty());
}

#[test]
fn build_needing_objects_has_no_rmeta() {
    let info = probe(&CompileKind::Host, LINUX_OUT, "");
    let (files, _) = info
        .rustc_outputs(CompileMode::Build, &TargetKind::Lib(vec![CrateType::Lib, CrateType::Cdylib]), "x86_64-unknown-linux-gnu")
        .unwrap();
    assert_eq!(suffixes(&files), vec![".rlib", ".so"]);
    let (bins, _) = info
        .rustc_outputs(CompileMode::Build, &TargetKind::Bin, "x86_64-unknown-linux-gnu")
        .unwrap();
    assert_eq!(suffixes(&bins), vec![""]);
}

#[test]
fn test_and_check_modes() {
    let info = probe(&CompileKind::Host, LINUX_OUT, "");
    let (files, _) = info.rustc_outputs(CompileMode::Test, &TargetKind::Lib(vec![CrateType::Lib]), "x86_64-unknown-linux-gnu").unwrap();
    assert_eq!(files.len(), 1);
    assert_eq!(files[0].crate_type, Some(CrateType::Bin));
    let (c, _) = info.rustc_outputs(CompileMode::Check { rustc_check: true }, &TargetKind::Bin, "x86_64-unknown-linux-gnu").unwrap();
    assert_eq!(suffixes(&c), vec![".rcheck"]);
    let (m, _) = info.rustc_outputs(CompileMode::Check { rustc_check: false }, &TargetKind::Bin, "x86_64-unknown-linux-gnu").unwrap();
    assert_eq!(suffixes(&m), vec![".rmeta"]);
}

#[test]
fn unsupported_kind_takes_no_line() {
    let out = "___\nlib___.rlib\nlib___.so\nlib___.a\nlib___.so\n/sysroot\nunix\n";
    let err = "warning: dropping unsupported crate type `cdylib`\n";
    let info = probe(&CompileKind::Host, out, err);
    assert!(info.file_types(&CrateType::Cdylib, FileFlavor::Normal, "x").unwrap().is_none());
    let st = info.file_types(&CrateType::Staticlib, FileFlavor::Normal, "x").unwrap().unwrap();
    assert_eq!(st[0].suffix(), ".a");
    assert_eq!(info.sysroot, "/sysroot");
    let (files, unsupported) = info
        .rustc_outputs(CompileMode::Build, &TargetKind::Lib(vec![CrateType::Cdylib]), "x")
        .unwrap();
    assert!(files.is_empty());
    assert_eq!(unsupported, vec![CrateType::Cdylib]);
}

#[test]
fn memo_asks_for_one_probe_only() {
    let mut info = probe(&CompileKind::Host, LINUX_OUT, "");
    info.crate_types = vec![None, None, None, None, None, None, None];
    assert_eq!(info.file_types(&CrateType::Dylib, FileFlavor::Linkable, "x").unwrap_err(), CrateType::Dylib);
    let args = info.crate_type_probe_args(CrateType::Dylib);
    assert_eq!(&args[args.len() - 2..], &["--crate-type".to_string(), "dylib".to_string()]);
    info.learn_crate_type(CrateType::Dylib, "rustc", "lib___.so\n", "").unwrap();
    assert_eq!(info.file_types(&CrateType::Dylib, FileFlavor::Linkable, "x").unwrap().unwrap()[0].suffix(), ".so");
    info.learn_crate_type(CrateType::Dylib, "rustc", "lib___.dylib\n", "").unwrap();
    assert_eq!(info.file_types(&CrateType::Dylib, FileFlavor::Linkable, "x").unwrap().unwrap()[0].suffix(), ".so");
    assert_eq!(info.rustc_outputs(CompileMode::Build, &TargetKind::Bin, "x").unwrap_err(), CrateType::Bin);
}

#[test]
fn file_name_line_round_trip() {
    assert_eq!(split_file_names("lib___.rlib"), Some(("lib".to_string(), ".rlib".to_string())));
    assert_eq!(split_file_names("___"), Some((String::new(), String::new())));
    assert_eq!(split_file_names("___.exe"), Some((String::new(), ".exe".to_string())));
    assert_eq!(split_file_names("lib___"), Some(("lib".to_string(), String::new())));
    assert_eq!(split_file_names("a___b___c"), Some(("a".to_string(), "b".to_string())));
    assert_eq!(split_file_names("libfoo.rlib"), None);
}

#[test]
fn probe_arguments_in_order() {
    let config = empty_config();
    let kind = CompileKind::Target("aarch64-apple-darwin".to_string());
    let args = probe_args(&config, &vec![kind.clone()], "x86_64-unknown-linux-gnu", &kind);
    let expect: Vec<&str> = vec![
        "-", "--crate-name", "___", "--print=file-names", "--target", "aarch64-apple-darwin",
        "--crate-type", "bin", "--crate-type", "rlib", "--crate-type", "dylib", "--crate-type", "cdylib",
        "--crate-type", "staticlib", "--crate-type", "proc-macro", "--print=sysroot", "--print=cfg",
    ];
    assert_eq!(args, expect);
}
