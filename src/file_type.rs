use vstd::prelude::*;
use crate::kinds::{CrateType, TargetKind};
use crate::text::{replace_hyphens, spec_replace_hyphens};

verus! {

/// The role of one file that a unit emits.
#[derive(Clone, Copy, PartialEq, Eq, Structural, Debug)]
pub enum FileFlavor {
    /// Not a special file type.
    Normal,
    /// Like `Normal`, but not directly executable (a `.wasm` beside a `.js`).
    Auxiliary,
    /// Something other crates can link against.
    Linkable,
    /// A `.rmeta` metadata file.
    Rmeta,
    /// A `.rcheck` metadata file, only useful for checking.
    Rcheck,
    /// External debug information (`.dSYM`, `.pdb`).
    DebugInfo,
}

/// A build target of a package: its name and kind.
#[derive(Clone, Debug)]
pub struct Target {
    pub name: String,
    pub kind: TargetKind,
}

impl Target {
    pub fn new(name: String, kind: TargetKind) -> (r: Target)
        ensures
            r.name@ == name@,
            r.kind == kind,
    {
        Target { name, kind }
    }

    pub fn name(&self) -> (r: &str)
        ensures
            r@ == self.name@,
    {
        self.name.as_str()
    }

    /// The name the compiler gives the crate: hyphens become underscores.
    pub fn crate_name(&self) -> (r: String)
        ensures
            r@ == spec_replace_hyphens(self.name@),
    {
        replace_hyphens(self.name.as_str())
    }
}

/// One file that the compiler, or a tool it runs, emits for a unit.
#[derive(Clone, Debug)]
pub struct FileType {
    pub flavor: FileFlavor,
    /// The crate type that produces the file; `None` for metadata files.
    pub crate_type: Option<CrateType>,
    pub suffix: String,
    pub prefix: String,
    pub should_replace_hyphens: bool,
}

/// What a `FileType` is, as plain values.
pub struct FileTypeView {
    pub flavor: FileFlavor,
    pub crate_type: Option<CrateType>,
    pub prefix: Seq<char>,
    pub suffix: Seq<char>,
    pub should_replace_hyphens: bool,
}

impl View for FileType {
    type V = FileTypeView;

    open spec fn view(&self) -> FileTypeView {
        FileTypeView {
            flavor: self.flavor,
            crate_type: self.crate_type,
            prefix: self.prefix@,
            suffix: self.suffix@,
            should_replace_hyphens: self.should_replace_hyphens,
        }
    }
}

/// The views of a sequence of file types.
pub open spec fn views(v: Seq<FileType>) -> Seq<FileTypeView> {
    v.map_values(|f: FileType| f@)
}

pub open spec fn file_type_view(
    flavor: FileFlavor,
    crate_type: Option<CrateType>,
    prefix: Seq<char>,
    suffix: Seq<char>,
    should_replace_hyphens: bool,
) -> FileTypeView {
    FileTypeView { flavor, crate_type, prefix, suffix, should_replace_hyphens }
}

impl FileType {
    pub fn new(
        flavor: FileFlavor,
        crate_type: Option<CrateType>,
        prefix: String,
        suffix: String,
        should_replace_hyphens: bool,
    ) -> (r: FileType)
        ensures
            r@ == file_type_view(flavor, crate_type, prefix@, suffix@, should_replace_hyphens),
    {
        FileType { flavor, crate_type, suffix, prefix, should_replace_hyphens }
    }

    pub fn prefix(&self) -> (r: &str)
        ensures
            r@ == self.prefix@,
    {
        self.prefix.as_str()
    }

    pub fn suffix(&self) -> (r: &str)
        ensures
            r@ == self.suffix@,
    {
        self.suffix.as_str()
    }

    pub fn should_replace_hyphens(&self) -> (r: bool)
        ensures
            r == self.should_replace_hyphens,
    {
        self.should_replace_hyphens
    }

    /// The file name the compiler writes, with the unit's metadata hash
    /// when there is one: `prefix crate_name [-metadata] suffix`.
    pub fn output_filename(&self, target: &Target, metadata: Option<&str>) -> (r: String)
        ensures
            r@ == match metadata {
                Some(m) => self.prefix@ + spec_replace_hyphens(target.name@) + "-"@ + m@
                    + self.suffix@,
                None => self.prefix@ + spec_replace_hyphens(target.name@) + self.suffix@,
            },
    {
        let mut r = self.prefix.clone();
        let crate_name = target.crate_name();
        r.append(crate_name.as_str());
        match metadata {
            Some(m) => {
                r.append("-");
                r.append(m);
            },
            None => {},
        }
        r.append(self.suffix.as_str());
        r
    }

    /// The file name used when the output is copied to the destination
    /// directory: hyphens are kept unless this file type rewrites them.
    pub fn uplift_filename(&self, target: &Target) -> (r: String)
        ensures
            r@ == self.prefix@ + (if self.should_replace_hyphens {
                spec_replace_hyphens(target.name@)
            } else {
                target.name@
            }) + self.suffix@,
    {
        let name = if self.should_replace_hyphens {
            target.crate_name()
        } else {
            target.name.clone()
        };
        let mut r = self.prefix.clone();
        r.append(name.as_str());
        r.append(self.suffix.as_str());
        r
    }

    pub open spec fn new_rmeta_view() -> FileTypeView {
        file_type_view(FileFlavor::Rmeta, None, "lib"@, ".rmeta"@, true)
    }

    pub open spec fn new_rcheck_view() -> FileTypeView {
        file_type_view(FileFlavor::Rcheck, None, "lib"@, ".rcheck"@, true)
    }

    /// A `.rmeta` file; even binaries use the `lib` prefix.
    pub fn new_rmeta() -> (r: FileType)
        ensures
            r@ == Self::new_rmeta_view(),
    {
        FileType {
            flavor: FileFlavor::Rmeta,
            crate_type: None,
            suffix: String::from_str(".rmeta"),
            prefix: String::from_str("lib"),
            should_replace_hyphens: true,
        }
    }

    /// A `.rcheck` file; even binaries use the `lib` prefix.
    pub fn new_rcheck() -> (r: FileType)
        ensures
            r@ == Self::new_rcheck_view(),
    {
        FileType {
            flavor: FileFlavor::Rcheck,
            crate_type: None,
            suffix: String::from_str(".rcheck"),
            prefix: String::from_str("lib"),
            should_replace_hyphens: true,
        }
    }
}

} // verus!
