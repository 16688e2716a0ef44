use vstd::prelude::*;
use crate::cfg::Cfg;
use crate::file_type::{views, FileFlavor, FileType, FileTypeView};
use crate::kinds::{
    spec_is_linkable, spec_requires_upstream_objects, spec_rustc_crate_types, CompileMode,
    CrateType, TargetKind,
};
use crate::naming::{file_types_for, normalize, normalized, spec_file_types};

verus! {

/// The number of crate types, and so of slots in the memo table.
pub const N_CRATE_TYPES: usize = 7;

/// The slot of a crate type in the memo table.
pub open spec fn slot(ct: CrateType) -> int {
    match ct {
        CrateType::Bin => 0,
        CrateType::Lib => 1,
        CrateType::Rlib => 2,
        CrateType::Dylib => 3,
        CrateType::Cdylib => 4,
        CrateType::Staticlib => 5,
        CrateType::ProcMacro => 6,
    }
}

pub fn slot_of(ct: CrateType) -> (r: usize)
    ensures
        r == slot(ct),
        r < N_CRATE_TYPES,
{
    match ct {
        CrateType::Bin => 0,
        CrateType::Lib => 1,
        CrateType::Rlib => 2,
        CrateType::Dylib => 3,
        CrateType::Cdylib => 4,
        CrateType::Staticlib => 5,
        CrateType::ProcMacro => 6,
    }
}

/// A file name prefix and suffix, or `None` where the crate type is not
/// supported.
pub open spec fn names_view(p: Option<(String, String)>) -> Option<(Seq<char>, Seq<char>)> {
    match p {
        Some((a, b)) => Some((a@, b@)),
        None => None,
    }
}

pub open spec fn strings_view(v: Seq<String>) -> Seq<Seq<char>> {
    v.map_values(|s: String| s@)
}

/// What the compiler told about one platform.
#[derive(Clone, Debug)]
pub struct TargetInfo {
    /// Arguments of the single-kind probe, without the crate type.
    pub crate_type_args: Vec<String>,
    /// Memo of file name prefixes and suffixes, one slot per crate type:
    /// `None` until the crate type has been probed.
    pub crate_types: Vec<Option<Option<(String, String)>>>,
    /// The predicates the compiler reported, less the probe's own.
    pub cfg: Vec<Cfg>,
    /// The compiler's support file tree.
    pub sysroot: String,
    /// Where the compiler keeps its own dynamic libraries.
    pub sysroot_host_libdir: String,
    /// Where the compiler finds the target's libraries when linking.
    pub sysroot_target_libdir: String,
    /// Extra flags for compilation.
    pub rustflags: Vec<String>,
    /// Extra flags for documentation.
    pub rustdocflags: Vec<String>,
    /// Whether the compiler accepts packed split debug info.
    pub supports_split_debuginfo: bool,
}

/// The outputs of one request: the files, and the crate types the target
/// does not support.
pub type Outputs = (Vec<FileType>, Vec<CrateType>);

pub type OutputsView = (Seq<FileTypeView>, Seq<CrateType>);

/// The modes whose outputs the compiler itself decides.
pub open spec fn is_rustc_mode(mode: CompileMode) -> bool {
    match mode {
        CompileMode::Build | CompileMode::Test | CompileMode::Bench | CompileMode::Check { .. } => true,
        _ => false,
    }
}

pub open spec fn outputs_view(r: Result<Outputs, CrateType>) -> Result<OutputsView, CrateType> {
    match r {
        Ok((files, unsupported)) => Ok((views(files@), unsupported@)),
        Err(c) => Err(c),
    }
}

impl TargetInfo {
    pub open spec fn wf(&self) -> bool {
        self.crate_types@.len() == N_CRATE_TYPES
    }

    /// What the memo holds for a crate type: `None` if it was never probed.
    pub open spec fn known(&self, ct: CrateType) -> Option<Option<(Seq<char>, Seq<char>)>> {
        match self.crate_types@[slot(ct)] {
            Some(p) => Some(names_view(p)),
            None => None,
        }
    }

    /// The files of a crate type: `Err` names the crate type that must be
    /// probed first, `Ok(None)` says it is not supported.
    pub open spec fn spec_lookup(
        &self,
        ct: CrateType,
        flavor: FileFlavor,
        triple: Seq<char>,
    ) -> Result<Option<Seq<FileTypeView>>, CrateType> {
        let n = normalized(ct);
        match self.known(n) {
            None => Err(n),
            Some(None) => Ok(None),
            Some(Some((prefix, suffix))) => Ok(
                Some(spec_file_types(n, flavor, prefix, suffix, triple)),
            ),
        }
    }

    /// All the predicates of the platform.
    pub fn cfg(&self) -> (r: &Vec<Cfg>)
        ensures
            *r == self.cfg,
    {
        &self.cfg
    }

    /// Records the probe result for a crate type unless one is already known.
    pub fn record_crate_type(&mut self, ct: CrateType, names: Option<(String, String)>)
        requires
            old(self).wf(),
        ensures
            final(self).wf(),
            final(self).known(ct) == (match old(self).known(ct) {
                Some(k) => Some(k),
                None => Some(names_view(names)),
            }),
            forall|c: CrateType| c != ct ==> final(self).known(c) == old(self).known(c),
            final(self).cfg == old(self).cfg,
            final(self).rustflags == old(self).rustflags,
            final(self).rustdocflags == old(self).rustdocflags,
    {
        let i = slot_of(ct);
        if self.crate_types[i].is_none() {
            self.crate_types.set(i, Some(names));
        }
    }

    /// The files emitted for one crate type on `target_triple`; the generic
    /// library kind is looked up as a Rust library.
    pub fn file_types(&self, crate_type: &CrateType, flavor: FileFlavor, target_triple: &str) -> (r:
        Result<Option<Vec<FileType>>, CrateType>)
        requires
            self.wf(),
        ensures
            match r {
                Ok(Some(v)) => self.spec_lookup(*crate_type, flavor, target_triple@) == Ok::<
                    Option<Seq<FileTypeView>>,
                    CrateType,
                >(Some(views(v@))),
                Ok(None) => self.spec_lookup(*crate_type, flavor, target_triple@) == Ok::<
                    Option<Seq<FileTypeView>>,
                    CrateType,
                >(None),
                Err(c) => self.spec_lookup(*crate_type, flavor, target_triple@) == Err::<
                    Option<Seq<FileTypeView>>,
                    CrateType,
                >(c),
            },
    {
        let ct = normalize(*crate_type);
        match &self.crate_types[slot_of(ct)] {
            None => Err(ct),
            Some(None) => Ok(None),
            Some(Some((prefix, suffix))) => Ok(
                Some(file_types_for(ct, flavor, prefix, suffix, target_triple)),
            ),
        }
    }

    /// The files and unsupported crate types of a normal build of the crate
    /// types `cts`, taken in order, before the metadata file is added.
    pub open spec fn spec_collect(&self, cts: Seq<CrateType>, triple: Seq<char>) -> Result<
        OutputsView,
        CrateType,
    >
        decreases cts.len(),
    {
        if cts.len() == 0 {
            Ok((seq![], seq![]))
        } else {
            match self.spec_collect(cts.drop_last(), triple) {
                Err(c) => Err(c),
                Ok((files, unsupported)) => {
                    let ct = cts.last();
                    let flavor = if spec_is_linkable(ct) {
                        FileFlavor::Linkable
                    } else {
                        FileFlavor::Normal
                    };
                    match self.spec_lookup(ct, flavor, triple) {
                        Err(c) => Err(c),
                        Ok(None) => Ok((files, unsupported.push(ct))),
                        Ok(Some(v)) => Ok((files + v, unsupported)),
                    }
                },
            }
        }
    }

    /// A normal build: the files of every crate type of the target, and
    /// the metadata file when any file is emitted and pipelining is
    /// possible (no crate type needs upstream object code).
    pub open spec fn spec_build_outputs(&self, tk: TargetKind, triple: Seq<char>) -> Result<
        OutputsView,
        CrateType,
    > {
        let cts = spec_rustc_crate_types(tk);
        match self.spec_collect(cts, triple) {
            Err(c) => Err(c),
            Ok((files, unsupported)) => if files.len() > 0 && !(exists|i: int|
                0 <= i < cts.len() && spec_requires_upstream_objects(#[trigger] cts[i])) {
                Ok((files.push(FileType::new_rmeta_view()), unsupported))
            } else {
                Ok((files, unsupported))
            },
        }
    }

    /// The outputs of a request in `mode`, which must be one the compiler
    /// itself serves (not documentation or build scripts).
    pub open spec fn spec_outputs(&self, mode: CompileMode, tk: TargetKind, triple: Seq<char>) -> Result<
        OutputsView,
        CrateType,
    > {
        match mode {
            CompileMode::Build => self.spec_build_outputs(tk, triple),
            CompileMode::Check { rustc_check } => Ok(
                (
                    seq![
                        if rustc_check {
                            FileType::new_rcheck_view()
                        } else {
                            FileType::new_rmeta_view()
                        },
                    ],
                    seq![],
                ),
            ),
            _ => match self.spec_lookup(CrateType::Bin, FileFlavor::Normal, triple) {
                Err(c) => Err(c),
                Ok(None) => Ok((seq![], seq![CrateType::Bin])),
                Ok(Some(v)) => Ok((v, seq![])),
            },
        }
    }

    /// All the files the compiler emits for `mode` and `target_kind` on
    /// `target_triple`, and the crate types it does not support there.
    /// `Err` names a crate type that must be probed (and recorded) first.
    pub fn rustc_outputs(&self, mode: CompileMode, target_kind: &TargetKind, target_triple: &str) -> (r:
        Result<Outputs, CrateType>)
        requires
            self.wf(),
            is_rustc_mode(mode),
        ensures
            outputs_view(r) == self.spec_outputs(mode, *target_kind, target_triple@),
    {
        match mode {
            CompileMode::Build => self.calc_rustc_outputs(target_kind, target_triple),
            CompileMode::Check { rustc_check } => {
                let flav = if rustc_check {
                    FileType::new_rcheck()
                } else {
                    FileType::new_rmeta()
                };
                let v = vec![flav];
                assert(views(v@) =~= seq![flav@]);
                let none: Vec<CrateType> = Vec::new();
                assert(none@ =~= seq![]);
                Ok((v, none))
            },
            _ => {
                match self.file_types(&CrateType::Bin, FileFlavor::Normal, target_triple) {
                    Err(c) => Err(c),
                    Ok(Some(fts)) => {
                        let none: Vec<CrateType> = Vec::new();
                        assert(none@ =~= seq![]);
                        Ok((fts, none))
                    },
                    Ok(None) => {
                        let files: Vec<FileType> = Vec::new();
                        assert(views(files@) =~= seq![]);
                        let bin = vec![CrateType::Bin];
                        assert(bin@ =~= seq![CrateType::Bin]);
                        Ok((files, bin))
                    },
                }
            },
        }
    }

    /// A crate type that must be probed stops the whole collection.
    proof fn lemma_collect_err_extends(&self, cts: Seq<CrateType>, j: int, triple: Seq<char>)
        requires
            0 <= j <= cts.len(),
            self.spec_collect(cts.subrange(0, j), triple) is Err,
        ensures
            self.spec_collect(cts, triple) == self.spec_collect(cts.subrange(0, j), triple),
        decreases cts.len(),
    {
        if j == cts.len() {
            assert(cts.subrange(0, j) =~= cts);
        } else {
            assert(cts.drop_last().subrange(0, j) =~= cts.subrange(0, j));
            self.lemma_collect_err_extends(cts.drop_last(), j, triple);
        }
    }

    fn calc_rustc_outputs(&self, target_kind: &TargetKind, target_triple: &str) -> (r: Result<
        Outputs,
        CrateType,
    >)
        requires
            self.wf(),
        ensures
            outputs_view(r) == self.spec_build_outputs(*target_kind, target_triple@),
    {
        let mut unsupported: Vec<CrateType> = Vec::new();
        let mut result: Vec<FileType> = Vec::new();
        let crate_types = target_kind.rustc_crate_types();
        let mut needs_objects = false;
        let mut i: usize = 0;
        assert(crate_types@.subrange(0, 0) =~= Seq::<CrateType>::empty());
        assert(views(result@) =~= seq![]);
        while i < crate_types.len()
            invariant
                self.wf(),
                i <= crate_types@.len(),
                crate_types@ == spec_rustc_crate_types(*target_kind),
                self.spec_collect(crate_types@.subrange(0, i as int), target_triple@) == Ok::<
                    OutputsView,
                    CrateType,
                >((views(result@), unsupported@)),
                needs_objects == exists|k: int|
                    0 <= k < i && spec_requires_upstream_objects(#[trigger] crate_types@[k]),
            decreases crate_types.len() - i,
        {
            let crate_type = crate_types[i];
            let flavor = if crate_type.is_linkable() {
                FileFlavor::Linkable
            } else {
                FileFlavor::Normal
            };
            assert(crate_types@.subrange(0, i + 1).drop_last() =~= crate_types@.subrange(0, i as int));
            match self.file_types(&crate_type, flavor, target_triple) {
                Err(c) => {
                    proof {
                        self.lemma_collect_err_extends(crate_types@, i + 1, target_triple@);
                    }
                    return Err(c);
                },
                Ok(Some(types)) => {
                    let ghost before = views(result@);
                    let ghost added = views(types@);
                    let mut types = types;
                    result.append(&mut types);
                    assert(views(result@) =~= before + added);
                },
                Ok(None) => {
                    unsupported.push(crate_type);
                },
            }
            needs_objects = needs_objects || crate_type.requires_upstream_objects();
            i = i + 1;
        }
        assert(crate_types@.subrange(0, i as int) =~= crate_types@);
        if result.len() > 0 && !needs_objects {
            let ghost before = views(result@);
            result.push(FileType::new_rmeta());
            assert(views(result@) =~= before.push(FileType::new_rmeta_view()));
        }
        Ok((result, unsupported))
    }
}

/// Collected files of a normal build are never metadata files.
proof fn lemma_collect_no_rmeta(info: TargetInfo, cts: Seq<CrateType>, triple: Seq<char>)
    requires
        info.wf(),
        info.spec_collect(cts, triple) is Ok,
    ensures
        forall|i: int|
            0 <= i < info.spec_collect(cts, triple)->Ok_0.0.len() ==> (#[trigger] info.spec_collect(
                cts,
                triple,
            )->Ok_0.0[i]).flavor != FileFlavor::Rmeta,
    decreases cts.len(),
{
    if cts.len() > 0 {
        lemma_collect_no_rmeta(info, cts.drop_last(), triple);
        let ct = cts.last();
        let flavor = if spec_is_linkable(ct) {
            FileFlavor::Linkable
        } else {
            FileFlavor::Normal
        };
        let n = normalized(ct);
        match info.known(n) {
            Some(Some((prefix, suffix))) => {
                crate::naming::lemma_file_types_flavors(n, flavor, prefix, suffix, triple);
                let prev = info.spec_collect(cts.drop_last(), triple)->Ok_0.0;
                let added = spec_file_types(n, flavor, prefix, suffix, triple);
                assert forall|i: int| 0 <= i < (prev + added).len() implies (#[trigger] (prev
                    + added)[i]).flavor != FileFlavor::Rmeta by {
                    if i >= prev.len() {
                        assert((prev + added)[i] == added[i - prev.len()]);
                    }
                }
            },
            _ => {},
        }
    }
}

/// When a normal build emits some file and no crate type needs upstream
/// object code, exactly one metadata file is added, at the end.
pub proof fn lemma_single_rmeta(info: TargetInfo, tk: TargetKind, triple: Seq<char>)
    requires
        info.wf(),
        info.spec_collect(spec_rustc_crate_types(tk), triple) matches Ok((files, _)) && files.len()
            > 0,
        forall|i: int|
            0 <= i < spec_rustc_crate_types(tk).len() ==> !spec_requires_upstream_objects(
                #[trigger] spec_rustc_crate_types(tk)[i],
            ),
    ensures
        ({
            let (files, unsupported) = info.spec_collect(spec_rustc_crate_types(tk), triple)->Ok_0;
            &&& info.spec_build_outputs(tk, triple) == Ok::<OutputsView, CrateType>(
                (files.push(FileType::new_rmeta_view()), unsupported),
            )
            &&& forall|i: int|
                0 <= i < files.len() ==> (#[trigger] files[i]).flavor != FileFlavor::Rmeta
        }),
{
    lemma_collect_no_rmeta(info, spec_rustc_crate_types(tk), triple);
}

/// A crate type that the probe found unsupported resolves to "not
/// supported": no file, and it is listed among the unsupported types.
pub proof fn lemma_unsupported_resolves_to_none(
    info: TargetInfo,
    ct: CrateType,
    flavor: FileFlavor,
    triple: Seq<char>,
)
    requires
        info.wf(),
        info.known(normalized(ct)) == Some(None::<(Seq<char>, Seq<char>)>),
    ensures
        info.spec_lookup(ct, flavor, triple) == Ok::<Option<Seq<FileTypeView>>, CrateType>(None),
        info.spec_collect(seq![ct], triple) == Ok::<OutputsView, CrateType>((seq![], seq![ct])),
{
    assert(seq![ct].drop_last() =~= Seq::<CrateType>::empty());
    assert(seq![ct].last() == ct);
    assert(info.spec_collect(Seq::<CrateType>::empty(), triple) == Ok::<OutputsView, CrateType>(
        (seq![], seq![]),
    ));
    assert(Seq::<CrateType>::empty().push(ct) =~= seq![ct]);
}

/// Once a crate type has been probed, every later lookup of it is answered
/// from the memo: no lookup asks for another probe.
pub proof fn lemma_probed_once(info: TargetInfo, ct: CrateType, flavor: FileFlavor, triple: Seq<char>)
    requires
        info.wf(),
        info.known(normalized(ct)) is Some,
    ensures
        info.spec_lookup(ct, flavor, triple) is Ok,
{
}

} // verus!
