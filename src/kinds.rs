use vstd::prelude::*;

verus! {

/// A category of compiled output, in declaration order.
#[derive(Clone, Copy, PartialEq, Eq, Structural, Debug, Hash, PartialOrd, Ord)]
pub enum CrateType {
    Bin,
    Lib,
    Rlib,
    Dylib,
    Cdylib,
    Staticlib,
    ProcMacro,
}

/// The name the compiler uses for a crate type on its command line.
pub open spec fn crate_type_name(ct: CrateType) -> Seq<char> {
    match ct {
        CrateType::Bin => "bin"@,
        CrateType::Lib => "lib"@,
        CrateType::Rlib => "rlib"@,
        CrateType::Dylib => "dylib"@,
        CrateType::Cdylib => "cdylib"@,
        CrateType::Staticlib => "staticlib"@,
        CrateType::ProcMacro => "proc-macro"@,
    }
}

/// Kinds whose output is loaded at run time.
pub open spec fn spec_is_dynamic(ct: CrateType) -> bool {
    ct == CrateType::Dylib || ct == CrateType::Cdylib || ct == CrateType::ProcMacro
}

/// Kinds that other Rust crates can link against.
pub open spec fn spec_is_linkable(ct: CrateType) -> bool {
    ct == CrateType::Lib || ct == CrateType::Rlib || ct == CrateType::Dylib
        || ct == CrateType::ProcMacro
}

/// Kinds whose build needs the object code of upstream crates, not only
/// their metadata.
pub open spec fn spec_requires_upstream_objects(ct: CrateType) -> bool {
    !(ct == CrateType::Lib || ct == CrateType::Rlib)
}

impl CrateType {
    pub fn as_str(&self) -> (r: &'static str)
        ensures
            r@ == crate_type_name(*self),
    {
        match self {
            CrateType::Bin => "bin",
            CrateType::Lib => "lib",
            CrateType::Rlib => "rlib",
            CrateType::Dylib => "dylib",
            CrateType::Cdylib => "cdylib",
            CrateType::Staticlib => "staticlib",
            CrateType::ProcMacro => "proc-macro",
        }
    }

    pub fn is_dynamic(&self) -> (r: bool)
        ensures
            r == spec_is_dynamic(*self),
    {
        matches!(self, CrateType::Dylib | CrateType::Cdylib | CrateType::ProcMacro)
    }

    pub fn is_linkable(&self) -> (r: bool)
        ensures
            r == spec_is_linkable(*self),
    {
        matches!(self, CrateType::Lib | CrateType::Rlib | CrateType::Dylib | CrateType::ProcMacro)
    }

    pub fn requires_upstream_objects(&self) -> (r: bool)
        ensures
            r == spec_requires_upstream_objects(*self),
    {
        !matches!(self, CrateType::Lib | CrateType::Rlib)
    }
}

/// The platform a unit is compiled for: the host, or an explicit target
/// triple.
#[derive(Clone, Debug, PartialEq, Eq, Hash)]
pub enum CompileKind {
    Host,
    Target(String),
}

impl CompileKind {
    pub fn is_host(&self) -> (r: bool)
        ensures
            r == (*self is Host),
    {
        matches!(self, CompileKind::Host)
    }
}

/// What a unit of work asks of the compiler.
#[derive(Clone, Copy, Debug, PartialEq, Eq, Structural)]
pub enum CompileMode {
    Build,
    Test,
    Bench,
    /// Metadata only; `rustc_check` selects the lightweight variant.
    Check { rustc_check: bool },
    Doc { deps: bool },
    Doctest,
    RunCustomBuild,
}

/// The kind of a build target of a package, which decides the crate
/// types it is compiled as.
#[derive(Clone, Debug)]
pub enum TargetKind {
    Lib(Vec<CrateType>),
    Bin,
    Test,
    Bench,
    ExampleLib(Vec<CrateType>),
    ExampleBin,
    CustomBuild,
}

/// The crate types a target kind is compiled as.
pub open spec fn spec_rustc_crate_types(tk: TargetKind) -> Seq<CrateType> {
    match tk {
        TargetKind::Lib(v) => v@,
        TargetKind::ExampleLib(v) => v@,
        _ => seq![CrateType::Bin],
    }
}

impl TargetKind {
    pub fn rustc_crate_types(&self) -> (r: Vec<CrateType>)
        ensures
            r@ == spec_rustc_crate_types(*self),
    {
        match self {
            TargetKind::Lib(v) => v.clone(),
            TargetKind::ExampleLib(v) => v.clone(),
            _ => vec![CrateType::Bin],
        }
    }
}

} // verus!
