use vstd::prelude::*;
use crate::cfg::{cfg_views, is_probe_artifact, is_user_specific, parse_cfg, parsed_cfg, Cfg, CfgView};
use crate::flags::{env_args, short_name, spec_env_args, spec_short_name, Config, FlagKind};
use crate::kinds::{crate_type_name, CompileKind, CrateType};
use crate::probe::{
    lines, output_err_info, parse_crate_type, spec_output_err_info, spec_parse_crate_type,
    text_lines, ProbeError, ProbeErrorKind,
};
use crate::target_info::{names_view, strings_view, TargetInfo};

verus! {

/// What `Path::join` makes of a base path and one more component.
pub uninterp spec fn path_joined(base: Seq<char>, part: Seq<char>) -> Seq<char>;

/// Relies on `std::path::Path::join` to add a component to a path.
#[verifier::external_body]
fn join_path(base: &str, part: &str) -> (r: String)
    ensures
        r@ == path_joined(base@, part@),
{
    std::path::Path::new(base).join(part).to_string_lossy().into_owned()
}

/// The crate types asked of the compiler in one probe, in order.
pub open spec fn known_crate_types() -> Seq<CrateType> {
    seq![
        CrateType::Bin,
        CrateType::Rlib,
        CrateType::Dylib,
        CrateType::Cdylib,
        CrateType::Staticlib,
        CrateType::ProcMacro,
    ]
}

pub fn known_crate_types_exec() -> (r: Vec<CrateType>)
    ensures
        r@ == known_crate_types(),
{
    let r = vec![
        CrateType::Bin,
        CrateType::Rlib,
        CrateType::Dylib,
        CrateType::Cdylib,
        CrateType::Staticlib,
        CrateType::ProcMacro,
    ];
    assert(r@ =~= known_crate_types());
    r
}

pub type NamesView = Option<(Seq<char>, Seq<char>)>;

/// Reading the answers for `kinds` in order, from the first line: the
/// answer for each and the next line to read.
pub open spec fn spec_parse_kinds(
    kinds: Seq<CrateType>,
    err_lines: Seq<Seq<char>>,
    out_lines: Seq<Seq<char>>,
) -> Result<(Seq<NamesView>, int), ProbeErrorKind>
    decreases kinds.len(),
{
    if kinds.len() == 0 {
        Ok((seq![], 0))
    } else {
        match spec_parse_kinds(kinds.drop_last(), err_lines, out_lines) {
            Err(e) => Err(e),
            Ok((names, pos)) => match spec_parse_crate_type(kinds.last(), err_lines, out_lines, pos) {
                Err(e) => Err(e),
                Ok((n, next)) => Ok((names.push(n), next)),
            },
        }
    }
}

/// The predicates of the given lines, less the probe's own; `None` when a
/// line does not parse.
pub open spec fn spec_parse_cfgs(ls: Seq<Seq<char>>) -> Option<Seq<CfgView>>
    decreases ls.len(),
{
    if ls.len() == 0 {
        Some(seq![])
    } else {
        match spec_parse_cfgs(ls.drop_last()) {
            None => None,
            Some(cs) => match parsed_cfg(ls.last()) {
                None => None,
                Some(c) => if is_probe_artifact(c) {
                    Some(cs)
                } else {
                    Some(cs.push(c))
                },
            },
        }
    }
}

/// A probe's answer: the file names of each known crate type, the support
/// file tree, and the predicates.
pub struct ProbeOutput {
    pub names: Vec<Option<(String, String)>>,
    pub sysroot: String,
    pub cfg: Vec<Cfg>,
}

pub struct ProbeOutputView {
    pub names: Seq<NamesView>,
    pub sysroot: Seq<char>,
    pub cfg: Seq<CfgView>,
}

pub open spec fn names_views(v: Seq<Option<(String, String)>>) -> Seq<NamesView> {
    v.map_values(|n: Option<(String, String)>| names_view(n))
}

impl View for ProbeOutput {
    type V = ProbeOutputView;

    open spec fn view(&self) -> ProbeOutputView {
        ProbeOutputView {
            names: names_views(self.names@),
            sysroot: self.sysroot@,
            cfg: cfg_views(self.cfg@),
        }
    }
}

/// The whole probe: one answer per known crate type, one line for the
/// support file tree, and a predicate on each remaining line.
pub open spec fn spec_parse_probe(stdout: Seq<char>, stderr: Seq<char>) -> Result<
    ProbeOutputView,
    ProbeErrorKind,
> {
    let out_lines = text_lines(stdout);
    let err_lines = text_lines(stderr);
    match spec_parse_kinds(known_crate_types(), err_lines, out_lines) {
        Err(e) => Err(e),
        Ok((names, pos)) => if pos >= out_lines.len() {
            Err(ProbeErrorKind::MissingSysroot)
        } else {
            match spec_parse_cfgs(out_lines.subrange(pos + 1, out_lines.len() as int)) {
                None => Err(ProbeErrorKind::BadCfg),
                Some(cfg) => Ok(ProbeOutputView { names, sysroot: out_lines[pos], cfg }),
            }
        },
    }
}

fn parse_cfg_lines(ls: &Vec<String>, from: usize) -> (r: Option<Vec<Cfg>>)
    requires
        from <= ls@.len(),
    ensures
        match r {
            Some(v) => spec_parse_cfgs(strings_view(ls@).subrange(from as int, ls@.len() as int))
                == Some(cfg_views(v@)),
            None => spec_parse_cfgs(
                strings_view(ls@).subrange(from as int, ls@.len() as int),
            ) is None,
        },
{
    let ghost all = strings_view(ls@);
    let mut out: Vec<Cfg> = Vec::new();
    let mut i: usize = from;
    assert(all.subrange(from as int, from as int) =~= Seq::<Seq<char>>::empty());
    assert(cfg_views(out@) =~= seq![]);
    while i < ls.len()
        invariant
            from <= i <= ls@.len(),
            all == strings_view(ls@),
            spec_parse_cfgs(all.subrange(from as int, i as int)) == Some(cfg_views(out@)),
        decreases ls.len() - i,
    {
        assert(all.subrange(from as int, i + 1).drop_last() =~= all.subrange(from as int, i as int));
        assert(all.subrange(from as int, i + 1).last() == ls@[i as int]@);
        match parse_cfg(ls[i].as_str()) {
            Err(_) => {
                proof {
                    lemma_cfgs_none_extends(all.subrange(from as int, ls@.len() as int), i + 1 - from);
                    assert(all.subrange(from as int, ls@.len() as int).subrange(0, i + 1 - from)
                        =~= all.subrange(from as int, i + 1));
                }
                return None;
            },
            Ok(c) => {
                if is_user_specific(&c) {
                    let ghost before = cfg_views(out@);
                    out.push(c);
                    assert(cfg_views(out@) =~= before.push(c@));
                }
            },
        }
        i = i + 1;
    }
    Some(out)
}

proof fn lemma_cfgs_none_extends(ls: Seq<Seq<char>>, j: int)
    requires
        0 <= j <= ls.len(),
        spec_parse_cfgs(ls.subrange(0, j)) is None,
    ensures
        spec_parse_cfgs(ls) is None,
    decreases ls.len(),
{
    if j == ls.len() {
        assert(ls.subrange(0, j) =~= ls);
    } else {
        assert(ls.drop_last().subrange(0, j) =~= ls.subrange(0, j));
        lemma_cfgs_none_extends(ls.drop_last(), j);
    }
}

proof fn lemma_kinds_err_extends(
    kinds: Seq<CrateType>,
    j: int,
    err_lines: Seq<Seq<char>>,
    out_lines: Seq<Seq<char>>,
)
    requires
        0 <= j <= kinds.len(),
        spec_parse_kinds(kinds.subrange(0, j), err_lines, out_lines) is Err,
    ensures
        spec_parse_kinds(kinds, err_lines, out_lines) == spec_parse_kinds(
            kinds.subrange(0, j),
            err_lines,
            out_lines,
        ),
    decreases kinds.len(),
{
    if j == kinds.len() {
        assert(kinds.subrange(0, j) =~= kinds);
    } else {
        assert(kinds.drop_last().subrange(0, j) =~= kinds.subrange(0, j));
        lemma_kinds_err_extends(kinds.drop_last(), j, err_lines, out_lines);
    }
}

/// Reads the compiler's answer to the probe; `cmd` is the command line,
/// shown in errors.
pub fn parse_probe(cmd: &str, output: &str, error: &str) -> (r: Result<ProbeOutput, ProbeError>)
    ensures
        match r {
            Ok(p) => spec_parse_probe(output@, error@) == Ok::<ProbeOutputView, ProbeErrorKind>(p@)
                && p.names@.len() == known_crate_types().len(),
            Err(e) => spec_parse_probe(output@, error@) == Err::<ProbeOutputView, ProbeErrorKind>(
                e.kind,
            ) && e.detail@ == spec_output_err_info(cmd@, output@, error@),
        },
{
    let out_lines = lines(output);
    let err_lines = lines(error);
    let kinds = known_crate_types_exec();
    let ghost ol = strings_view(out_lines@);
    let ghost el = strings_view(err_lines@);
    let mut names: Vec<Option<(String, String)>> = Vec::new();
    let mut pos: usize = 0;
    let mut i: usize = 0;
    assert(kinds@.subrange(0, 0) =~= Seq::<CrateType>::empty());
    assert(names_views(names@) =~= seq![]);
    while i < kinds.len()
        invariant
            i <= kinds@.len(),
            kinds@ == known_crate_types(),
            ol == strings_view(out_lines@),
            el == strings_view(err_lines@),
            ol == text_lines(output@),
            el == text_lines(error@),
            pos <= out_lines@.len(),
            names@.len() == i,
            spec_parse_kinds(kinds@.subrange(0, i as int), el, ol) == Ok::<
                (Seq<NamesView>, int),
                ProbeErrorKind,
            >((names_views(names@), pos as int)),
        decreases kinds.len() - i,
    {
        assert(kinds@.subrange(0, i + 1).drop_last() =~= kinds@.subrange(0, i as int));
        assert(kinds@.subrange(0, i + 1).last() == kinds@[i as int]);
        match parse_crate_type(kinds[i], cmd, output, error, &err_lines, &out_lines, pos) {
            Err(e) => {
                assert(spec_parse_kinds(kinds@.subrange(0, i + 1), el, ol) == Err::<
                    (Seq<NamesView>, int),
                    ProbeErrorKind,
                >(e.kind));
                proof {
                    lemma_kinds_err_extends(kinds@, i + 1, el, ol);
                }
                return Err(e);
            },
            Ok((n, next)) => {
                let ghost before = names_views(names@);
                names.push(n);
                assert(names_views(names@) =~= before.push(names_view(n)));
                pos = next;
            },
        }
        i = i + 1;
    }
    assert(kinds@.subrange(0, i as int) =~= kinds@);
    if pos >= out_lines.len() {
        return Err(
            ProbeError {
                kind: ProbeErrorKind::MissingSysroot,
                detail: output_err_info(cmd, output, error),
            },
        );
    }
    let sysroot = out_lines[pos].clone();
    match parse_cfg_lines(&out_lines, pos + 1) {
        None => Err(
            ProbeError { kind: ProbeErrorKind::BadCfg, detail: output_err_info(cmd, output, error) },
        ),
        Some(cfg) => Ok(ProbeOutput { names, sysroot, cfg }),
    }
}

/// The arguments every probe of a platform starts with: read an empty
/// crate from standard input and print its file names.
pub open spec fn spec_base_args(flags: Seq<Seq<char>>, kind: CompileKind) -> Seq<Seq<char>> {
    seq!["-"@, "--crate-name"@, "___"@, "--print=file-names"@] + flags + match kind {
        CompileKind::Target(t) => seq!["--target"@, t@],
        CompileKind::Host => seq![],
    }
}

/// `--crate-type <name>` for each crate type, in order.
pub open spec fn crate_type_flags(kinds: Seq<CrateType>) -> Seq<Seq<char>>
    decreases kinds.len(),
{
    if kinds.len() == 0 {
        seq![]
    } else {
        crate_type_flags(kinds.drop_last()) + seq!["--crate-type"@, crate_type_name(kinds.last())]
    }
}

fn push_str(v: &mut Vec<String>, s: &str)
    ensures
        strings_view(final(v)@) == strings_view(old(v)@).push(s@),
{
    let ghost before = strings_view(v@);
    v.push(String::from_str(s));
    assert(strings_view(v@) =~= before.push(s@));
}

fn push_crate_type_flags(v: &mut Vec<String>, kinds: &Vec<CrateType>)
    ensures
        strings_view(final(v)@) == strings_view(old(v)@) + crate_type_flags(kinds@),
{
    let ghost start = strings_view(v@);
    let mut i: usize = 0;
    assert(kinds@.subrange(0, 0) =~= Seq::<CrateType>::empty());
    assert(strings_view(v@) =~= start + crate_type_flags(kinds@.subrange(0, 0)));
    while i < kinds.len()
        invariant
            i <= kinds@.len(),
            strings_view(v@) == start + crate_type_flags(kinds@.subrange(0, i as int)),
        decreases kinds.len() - i,
    {
        assert(kinds@.subrange(0, i + 1).drop_last() =~= kinds@.subrange(0, i as int));
        push_str(v, "--crate-type");
        push_str(v, kinds[i].as_str());
        assert(strings_view(v@) =~= start + crate_type_flags(kinds@.subrange(0, i + 1)));
        i = i + 1;
    }
    assert(kinds@.subrange(0, i as int) =~= kinds@);
}

/// The arguments every probe of `kind` starts with, given its flags.
pub fn base_probe_args(flags: &Vec<String>, kind: &CompileKind) -> (r: Vec<String>)
    ensures
        strings_view(r@) == spec_base_args(strings_view(flags@), *kind),
{
    let mut r: Vec<String> = Vec::new();
    assert(strings_view(r@) =~= seq![]);
    push_str(&mut r, "-");
    push_str(&mut r, "--crate-name");
    push_str(&mut r, "___");
    push_str(&mut r, "--print=file-names");
    let ghost before = strings_view(r@);
    let mut more = flags.clone();
    let ghost added = strings_view(more@);
    r.append(&mut more);
    assert(strings_view(r@) =~= before + added);
    let ghost mid = strings_view(r@);
    match kind {
        CompileKind::Target(t) => {
            push_str(&mut r, "--target");
            push_str(&mut r, t.as_str());
            assert(strings_view(r@) =~= mid + seq!["--target"@, t@]);
        },
        CompileKind::Host => {
            assert(strings_view(r@) =~= mid + Seq::<Seq<char>>::empty());
        },
    }
    r
}

/// The flags a platform's probe is run with: resolved before its
/// predicates are known.
pub open spec fn probe_flags(
    config: Config,
    requested: Seq<CompileKind>,
    host: Seq<char>,
    kind: CompileKind,
) -> Seq<Seq<char>> {
    spec_env_args(config, requested, host, None, kind, FlagKind::Rustflags)
}

/// The arguments of the batched probe of `kind`.
pub fn probe_args(
    config: &Config,
    requested_kinds: &Vec<CompileKind>,
    host_triple: &str,
    kind: &CompileKind,
) -> (r: Vec<String>)
    ensures
        strings_view(r@) == spec_base_args(
            probe_flags(*config, requested_kinds@, host_triple@, *kind),
            *kind,
        ) + crate_type_flags(known_crate_types()) + seq!["--print=sysroot"@, "--print=cfg"@],
{
    let flags = env_args(config, requested_kinds, host_triple, None, kind, FlagKind::Rustflags);
    let mut r = base_probe_args(&flags, kind);
    push_crate_type_flags(&mut r, &known_crate_types_exec());
    let ghost mid = strings_view(r@);
    push_str(&mut r, "--print=sysroot");
    push_str(&mut r, "--print=cfg");
    assert(strings_view(r@) =~= mid + seq!["--print=sysroot"@, "--print=cfg"@]);
    r
}

/// The arguments of the probe that asks whether packed split debug info
/// is accepted.
pub fn split_debuginfo_probe_args(
    config: &Config,
    requested_kinds: &Vec<CompileKind>,
    host_triple: &str,
    kind: &CompileKind,
) -> (r: Vec<String>)
    ensures
        strings_view(r@) == spec_base_args(
            probe_flags(*config, requested_kinds@, host_triple@, *kind),
            *kind,
        ) + crate_type_flags(known_crate_types()) + seq!["-Csplit-debuginfo=packed"@],
{
    let flags = env_args(config, requested_kinds, host_triple, None, kind, FlagKind::Rustflags);
    let mut r = base_probe_args(&flags, kind);
    push_crate_type_flags(&mut r, &known_crate_types_exec());
    let ghost mid = strings_view(r@);
    push_str(&mut r, "-Csplit-debuginfo=packed");
    assert(strings_view(r@) =~= mid + seq!["-Csplit-debuginfo=packed"@]);
    r
}

/// The memo table a probe leaves: every known crate type answered, the
/// generic library kind never asked (it is looked up as a Rust library).
pub open spec fn memo_matches(info: TargetInfo, names: Seq<NamesView>) -> bool {
    &&& info.wf()
    &&& forall|k: int|
        0 <= k < known_crate_types().len() ==> info.known(#[trigger] known_crate_types()[k])
            == Some(names[k])
    &&& info.known(CrateType::Lib) is None
}

/// The directory holding the target's link libraries.
pub open spec fn target_libdir(sysroot: Seq<char>, platform: Seq<char>) -> Seq<char> {
    path_joined(path_joined(path_joined(path_joined(sysroot, "lib"@), "rustlib"@), platform), "lib"@)
}

impl TargetInfo {
    /// Builds the record of `kind` from the compiler's answer to the
    /// batched probe (`output`, `error`) and to the split debug info probe.
    /// `cmd` is the probe's command line, shown in errors;
    /// `host_is_windows` picks where the compiler keeps its own libraries.
    pub fn new(
        config: &Config,
        requested_kinds: &Vec<CompileKind>,
        host_triple: &str,
        kind: &CompileKind,
        cmd: &str,
        output: &str,
        error: &str,
        supports_split_debuginfo: bool,
        host_is_windows: bool,
    ) -> (r: Result<TargetInfo, ProbeError>)
        ensures
            match r {
                Err(e) => spec_parse_probe(output@, error@) == Err::<ProbeOutputView, ProbeErrorKind>(
                    e.kind,
                ) && e.detail@ == spec_output_err_info(cmd@, output@, error@),
                Ok(info) => spec_parse_probe(output@, error@) is Ok && ({
                    let p = spec_parse_probe(output@, error@)->Ok_0;
                    &&& memo_matches(info, p.names)
                    &&& cfg_views(info.cfg@) == p.cfg
                    &&& info.sysroot@ == p.sysroot
                    &&& info.sysroot_host_libdir@ == path_joined(
                        p.sysroot,
                        if host_is_windows {
                            "bin"@
                        } else {
                            "lib"@
                        },
                    )
                    &&& info.sysroot_target_libdir@ == target_libdir(
                        p.sysroot,
                        spec_short_name(*kind, host_triple@),
                    )
                    &&& strings_view(info.rustflags@) == spec_env_args(
                        *config,
                        requested_kinds@,
                        host_triple@,
                        Some(p.cfg),
                        *kind,
                        FlagKind::Rustflags,
                    )
                    &&& strings_view(info.rustdocflags@) == spec_env_args(
                        *config,
                        requested_kinds@,
                        host_triple@,
                        Some(p.cfg),
                        *kind,
                        FlagKind::Rustdocflags,
                    )
                    &&& info.supports_split_debuginfo == supports_split_debuginfo
                    &&& strings_view(info.crate_type_args@) == spec_base_args(
                        probe_flags(*config, requested_kinds@, host_triple@, *kind),
                        *kind,
                    )
                }),
            },
    {
        let blind = env_args(config, requested_kinds, host_triple, None, kind, FlagKind::Rustflags);
        let crate_type_args = base_probe_args(&blind, kind);
        let probe = match parse_probe(cmd, output, error) {
            Ok(p) => p,
            Err(e) => {
                return Err(e);
            },
        };
        let ProbeOutput { names, sysroot, cfg } = probe;
        let mut names = names;
        let ghost nv = names_views(names@);
        assert(nv.len() == 6);
        let n5 = names.pop().unwrap();
        let n4 = names.pop().unwrap();
        let n3 = names.pop().unwrap();
        let n2 = names.pop().unwrap();
        let n1 = names.pop().unwrap();
        let n0 = names.pop().unwrap();
        let crate_types = vec![
            Some(n0),
            None,
            Some(n1),
            Some(n2),
            Some(n3),
            Some(n4),
            Some(n5),
        ];
        let host_dir = if host_is_windows {
            "bin"
        } else {
            "lib"
        };
        let sysroot_host_libdir = join_path(sysroot.as_str(), host_dir);
        let lib = join_path(sysroot.as_str(), "lib");
        let rustlib = join_path(lib.as_str(), "rustlib");
        let platform = join_path(rustlib.as_str(), short_name(kind, host_triple));
        let sysroot_target_libdir = join_path(platform.as_str(), "lib");
        let rustflags = env_args(
            config,
            requested_kinds,
            host_triple,
            Some(&cfg),
            kind,
            FlagKind::Rustflags,
        );
        let rustdocflags = env_args(
            config,
            requested_kinds,
            host_triple,
            Some(&cfg),
            kind,
            FlagKind::Rustdocflags,
        );
        let info = TargetInfo {
            crate_type_args,
            crate_types,
            cfg,
            sysroot,
            sysroot_host_libdir,
            sysroot_target_libdir,
            rustflags,
            rustdocflags,
            supports_split_debuginfo,
        };
        assert(memo_matches(info, nv));
        Ok(info)
    }

    /// The arguments of the probe of a single crate type.
    pub fn crate_type_probe_args(&self, crate_type: CrateType) -> (r: Vec<String>)
        ensures
            strings_view(r@) == strings_view(self.crate_type_args@) + seq![
                "--crate-type"@,
                crate_type_name(crate_type),
            ],
    {
        let mut r = self.crate_type_args.clone();
        assert(strings_view(r@) == strings_view(self.crate_type_args@));
        let one = vec![crate_type];
        assert(one@ =~= seq![crate_type]);
        assert(one@.drop_last() =~= Seq::<CrateType>::empty());
        assert(crate_type_flags(one@.drop_last()) =~= Seq::<Seq<char>>::empty());
        assert(crate_type_flags(one@) =~= seq!["--crate-type"@, crate_type_name(crate_type)]);
        push_crate_type_flags(&mut r, &one);
        r
    }

    /// Reads the answer to the probe of a single crate type and remembers
    /// it; a crate type already known is never replaced.
    pub fn learn_crate_type(
        &mut self,
        crate_type: CrateType,
        cmd: &str,
        output: &str,
        error: &str,
    ) -> (r: Result<(), ProbeError>)
        requires
            old(self).wf(),
        ensures
            final(self).wf(),
            match spec_parse_crate_type(crate_type, text_lines(error@), text_lines(output@), 0) {
                Ok((n, _)) => r is Ok && final(self).known(crate_type) == (match old(self).known(
                    crate_type,
                ) {
                    Some(k) => Some(k),
                    None => Some(n),
                }),
                Err(kind) => r matches Err(e) && e.kind == kind && final(self).known(crate_type)
                    == old(self).known(crate_type),
            },
            forall|c: CrateType| c != crate_type ==> final(self).known(c) == old(self).known(c),
            final(self).cfg == old(self).cfg,
    {
        let out_lines = lines(output);
        let err_lines = lines(error);
        match parse_crate_type(crate_type, cmd, output, error, &err_lines, &out_lines, 0) {
            Err(e) => Err(e),
            Ok((names, _)) => {
                self.record_crate_type(crate_type, names);
                Ok(())
            },
        }
    }
}

} // verus!
