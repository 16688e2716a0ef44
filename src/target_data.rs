use vstd::prelude::*;
use crate::cfg::{cfg_key_matches, cfg_views, matches_key, Cfg};
use crate::flags::{short_name, spec_short_name};
use crate::kinds::CompileKind;
use crate::target_info::{strings_view, TargetInfo};
use crate::text::{ends_with, spec_ends_with, spec_starts_with, starts_with, str_eq};

verus! {

/// What a build script would have reported, given in configuration instead.
#[derive(Clone, Debug)]
pub struct BuildOutput {
    pub library_paths: Vec<String>,
    pub library_links: Vec<String>,
    pub linker_args: Vec<String>,
    pub cfgs: Vec<String>,
    pub env: Vec<(String, String)>,
    pub metadata: Vec<(String, String)>,
}

/// A build script output registered for a native library name.
#[derive(Clone, Debug)]
pub struct LinksOverride {
    pub lib_name: String,
    pub output: BuildOutput,
}

/// The configuration scoped to one platform.
#[derive(Clone, Debug)]
pub struct TargetConfig {
    pub links_overrides: Vec<LinksOverride>,
}

/// A dependency, as far as platform activation goes: its platform
/// restriction as written (`cfg(unix)` or a triple), if any.
#[derive(Clone, Debug)]
pub struct Dependency {
    pub name: String,
    pub platform: Option<String>,
}

/// The facts and configuration of one cross target.
#[derive(Clone, Debug)]
pub struct TargetEntry {
    pub triple: String,
    pub config: TargetConfig,
    pub info: TargetInfo,
}

/// The first entry for a triple, or -1.
pub open spec fn first_index(es: Seq<TargetEntry>, t: Seq<char>) -> int
    decreases es.len(),
{
    if es.len() == 0 {
        -1
    } else {
        let f = first_index(es.drop_last(), t);
        if f >= 0 {
            f
        } else if es.last().triple@ == t {
            es.len() - 1
        } else {
            -1
        }
    }
}

proof fn lemma_first_index_bounds(es: Seq<TargetEntry>, t: Seq<char>)
    ensures
        -1 <= first_index(es, t) < es.len(),
        first_index(es, t) >= 0 ==> es[first_index(es, t)].triple@ == t,
    decreases es.len(),
{
    if es.len() > 0 {
        lemma_first_index_bounds(es.drop_last(), t);
    }
}

proof fn lemma_first_index_extends(es: Seq<TargetEntry>, j: int, t: Seq<char>)
    requires
        0 <= j <= es.len(),
        first_index(es.subrange(0, j), t) >= 0,
    ensures
        first_index(es, t) == first_index(es.subrange(0, j), t),
    decreases es.len(),
{
    if j == es.len() {
        assert(es.subrange(0, j) =~= es);
    } else {
        assert(es.drop_last().subrange(0, j) =~= es.subrange(0, j));
        lemma_first_index_extends(es.drop_last(), j, t);
    }
}

proof fn lemma_first_index_push(es: Seq<TargetEntry>, e: TargetEntry, t: Seq<char>)
    ensures
        first_index(es.push(e), t) == if first_index(es, t) >= 0 {
            first_index(es, t)
        } else if e.triple@ == t {
            es.len() as int
        } else {
            -1
        },
{
    assert(es.push(e).drop_last() =~= es);
}

fn find_entry(es: &Vec<TargetEntry>, t: &str) -> (r: Option<usize>)
    ensures
        match r {
            Some(i) => first_index(es@, t@) == i as int,
            None => first_index(es@, t@) == -1,
        },
{
    let mut i: usize = 0;
    assert(es@.subrange(0, 0) =~= Seq::<TargetEntry>::empty());
    while i < es.len()
        invariant
            i <= es@.len(),
            first_index(es@.subrange(0, i as int), t@) == -1,
        decreases es.len() - i,
    {
        assert(es@.subrange(0, i + 1).drop_last() =~= es@.subrange(0, i as int));
        if str_eq(es[i].triple.as_str(), t) {
            proof {
                lemma_first_index_extends(es@, i + 1, t@);
            }
            return Some(i);
        }
        i = i + 1;
    }
    assert(es@.subrange(0, i as int) =~= es@);
    None
}

/// The compiler facts and configuration of the host and of every cross
/// target of a build.
pub struct RustcTargetData {
    /// The host's triple.
    pub host: String,
    pub requested_kinds: Vec<CompileKind>,
    pub host_config: TargetConfig,
    pub host_info: TargetInfo,
    /// Whether the host is requested: its record then also answers for its
    /// own triple, since units built without `--target` are looked up as
    /// targets equal to the host.
    pub host_as_target: bool,
    /// One entry per cross target, in the order they were found.
    pub targets: Vec<TargetEntry>,
}

impl RustcTargetData {
    /// The host's record answers for a triple.
    pub open spec fn host_answers(&self, t: Seq<char>) -> bool {
        self.host_as_target && t == self.host@
    }

    /// A record exists for the triple.
    pub open spec fn has_target(&self, t: Seq<char>) -> bool {
        self.host_answers(t) || first_index(self.targets@, t) >= 0
    }

    /// A record exists for the kind.
    pub open spec fn registered(&self, kind: CompileKind) -> bool {
        match kind {
            CompileKind::Host => true,
            CompileKind::Target(t) => self.has_target(t@),
        }
    }

    pub open spec fn spec_info(&self, kind: CompileKind) -> TargetInfo {
        match kind {
            CompileKind::Host => self.host_info,
            CompileKind::Target(t) => if self.host_answers(t@) {
                self.host_info
            } else {
                self.targets@[first_index(self.targets@, t@)].info
            },
        }
    }

    pub open spec fn spec_target_config(&self, kind: CompileKind) -> TargetConfig {
        match kind {
            CompileKind::Host => self.host_config,
            CompileKind::Target(t) => if self.host_answers(t@) {
                self.host_config
            } else {
                self.targets@[first_index(self.targets@, t@)].config
            },
        }
    }

    /// Starts the repository with the host's record; cross targets are
    /// added with `insert_target`.
    pub fn new(
        host: String,
        requested_kinds: Vec<CompileKind>,
        host_config: TargetConfig,
        host_info: TargetInfo,
    ) -> (r: RustcTargetData)
        ensures
            r.host@ == host@,
            r.requested_kinds@ == requested_kinds@,
            r.host_info == host_info,
            r.host_config == host_config,
            r.host_as_target == exists|i: int|
                0 <= i < requested_kinds@.len() && #[trigger] requested_kinds@[i] is Host,
            r.targets@.len() == 0,
    {
        let mut any_host = false;
        let mut i: usize = 0;
        while i < requested_kinds.len()
            invariant
                i <= requested_kinds@.len(),
                any_host == exists|k: int|
                    0 <= k < i && #[trigger] requested_kinds@[k] is Host,
            decreases requested_kinds.len() - i,
        {
            any_host = any_host || requested_kinds[i].is_host();
            i = i + 1;
        }
        RustcTargetData {
            host,
            requested_kinds,
            host_config,
            host_info,
            host_as_target: any_host,
            targets: Vec::new(),
        }
    }

    pub fn has_target_exec(&self, triple: &str) -> (r: bool)
        ensures
            r == self.has_target(triple@),
    {
        if self.host_as_target && str_eq(self.host.as_str(), triple) {
            return true;
        }
        find_entry(&self.targets, triple).is_some()
    }

    /// The cross targets among `kinds` that still need a probe, each once,
    /// in the order they first appear.
    pub open spec fn spec_pending(&self, kinds: Seq<CompileKind>) -> Seq<Seq<char>>
        decreases kinds.len(),
    {
        if kinds.len() == 0 {
            seq![]
        } else {
            let p = self.spec_pending(kinds.drop_last());
            match kinds.last() {
                CompileKind::Target(t) => if !self.has_target(t@) && !p.contains(t@) {
                    p.push(t@)
                } else {
                    p
                },
                CompileKind::Host => p,
            }
        }
    }

    /// The triples to probe before the scheduler starts: those of `kinds`
    /// (the requested kinds followed by the workspace members' default and
    /// forced kinds) that have no record yet.
    pub fn pending_targets(&self, kinds: &Vec<CompileKind>) -> (r: Vec<String>)
        ensures
            strings_view(r@) == self.spec_pending(kinds@),
    {
        let mut r: Vec<String> = Vec::new();
        let mut i: usize = 0;
        assert(kinds@.subrange(0, 0) =~= Seq::<CompileKind>::empty());
        assert(strings_view(r@) =~= seq![]);
        while i < kinds.len()
            invariant
                i <= kinds@.len(),
                strings_view(r@) == self.spec_pending(kinds@.subrange(0, i as int)),
            decreases kinds.len() - i,
        {
            assert(kinds@.subrange(0, i + 1).drop_last() =~= kinds@.subrange(0, i as int));
            if let CompileKind::Target(t) = &kinds[i] {
                if !self.has_target_exec(t.as_str()) && !contains_string(&r, t.as_str()) {
                    let ghost before = strings_view(r@);
                    r.push(t.clone());
                    assert(strings_view(r@) =~= before.push(t@));
                }
            }
            i = i + 1;
        }
        assert(kinds@.subrange(0, i as int) =~= kinds@);
        r
    }

    /// Adds the record of a cross target unless one exists.
    pub fn insert_target(&mut self, triple: String, config: TargetConfig, info: TargetInfo)
        ensures
            final(self).host@ == old(self).host@,
            final(self).host_info == old(self).host_info,
            final(self).host_config == old(self).host_config,
            final(self).host_as_target == old(self).host_as_target,
            final(self).requested_kinds@ == old(self).requested_kinds@,
            old(self).has_target(triple@) ==> final(self).targets@ == old(self).targets@,
            !old(self).has_target(triple@) ==> final(self).targets@ == old(self).targets@.push(
                TargetEntry { triple, config, info },
            ),
            final(self).has_target(triple@),
            forall|t: Seq<char>| old(self).has_target(t) ==> final(self).has_target(t),
            forall|k: CompileKind|
                old(self).registered(k) ==> final(self).spec_info(k) == old(self).spec_info(k)
                    && final(self).spec_target_config(k) == old(self).spec_target_config(k),
    {
        if !self.has_target_exec(triple.as_str()) {
            let ghost es = self.targets@;
            let entry = TargetEntry { triple, config, info };
            proof {
                assert forall|t: Seq<char>| true implies first_index(es.push(entry), t) == if first_index(es, t) >= 0 {
                    first_index(es, t)
                } else if entry.triple@ == t {
                    es.len() as int
                } else {
                    -1
                } by {
                    lemma_first_index_push(es, entry, t);
                }
                lemma_first_index_bounds(es, entry.triple@);
            }
            self.targets.push(entry);
            assert(self.targets@ == es.push(entry));
            proof {
                assert forall|t: Seq<char>| first_index(es, t) >= 0 implies self.targets@[first_index(es, t)]
                    == es[first_index(es, t)] by {
                    lemma_first_index_bounds(es, t);
                }
            }
        }
    }

    /// The platform name of a kind: the host triple or the target triple.
    pub fn short_name<'a>(&'a self, kind: &'a CompileKind) -> (r: &'a str)
        ensures
            r@ == spec_short_name(*kind, self.host@),
    {
        short_name(kind, self.host.as_str())
    }

    /// The record of a kind; the kind must have been registered.
    pub fn info(&self, kind: &CompileKind) -> (r: &TargetInfo)
        requires
            self.registered(*kind),
        ensures
            *r == self.spec_info(*kind),
    {
        match kind {
            CompileKind::Host => &self.host_info,
            CompileKind::Target(t) => {
                if self.host_as_target && str_eq(self.host.as_str(), t.as_str()) {
                    &self.host_info
                } else {
                    let i = find_entry(&self.targets, t.as_str());
                    proof {
                        lemma_first_index_bounds(self.targets@, t@);
                    }
                    &self.targets[i.unwrap()].info
                }
            },
        }
    }

    /// The predicates of a kind.
    pub fn cfg(&self, kind: &CompileKind) -> (r: &Vec<Cfg>)
        requires
            self.registered(*kind),
        ensures
            *r == self.spec_info(*kind).cfg,
    {
        &self.info(kind).cfg
    }

    /// The configuration of a kind; the kind must have been registered.
    pub fn target_config(&self, kind: &CompileKind) -> (r: &TargetConfig)
        requires
            self.registered(*kind),
        ensures
            *r == self.spec_target_config(*kind),
    {
        match kind {
            CompileKind::Host => &self.host_config,
            CompileKind::Target(t) => {
                if self.host_as_target && str_eq(self.host.as_str(), t.as_str()) {
                    &self.host_config
                } else {
                    let i = find_entry(&self.targets, t.as_str());
                    proof {
                        lemma_first_index_bounds(self.targets@, t@);
                    }
                    &self.targets[i.unwrap()].config
                }
            },
        }
    }

    /// Whether a dependency is built for a kind: always without a platform
    /// restriction; a `cfg(..)` restriction is evaluated on the kind's
    /// predicates; a triple must be the kind's platform name.
    pub open spec fn spec_dep_activated(&self, dep: Dependency, kind: CompileKind) -> bool {
        match dep.platform {
            None => true,
            Some(p) => if spec_starts_with(p@, "cfg("@) && spec_ends_with(p@, ")"@) {
                cfg_key_matches(p@, cfg_views(self.spec_info(kind).cfg@))
            } else {
                p@ == spec_short_name(kind, self.host@)
            },
        }
    }

    pub fn dep_platform_activated(&self, dep: &Dependency, kind: &CompileKind) -> (r: bool)
        requires
            self.registered(*kind),
        ensures
            r == self.spec_dep_activated(*dep, *kind),
    {
        match &dep.platform {
            None => true,
            Some(p) => {
                if starts_with(p.as_str(), "cfg(") && ends_with(p.as_str(), ")") {
                    matches_key(p.as_str(), self.cfg(kind))
                } else {
                    str_eq(p.as_str(), self.short_name(kind))
                }
            },
        }
    }

    /// The build script output registered for a native library under a
    /// kind: the first override with that name.
    pub fn script_override(&self, lib_name: &str, kind: &CompileKind) -> (r: Option<&BuildOutput>)
        requires
            self.registered(*kind),
        ensures
            match r {
                Some(o) => exists|i: int|
                    0 <= i < self.spec_target_config(*kind).links_overrides@.len()
                        && #[trigger] self.spec_target_config(*kind).links_overrides@[i].lib_name@ == lib_name@
                        && *o == self.spec_target_config(*kind).links_overrides@[i].output
                        && forall|k: int| 0 <= k < i ==> #[trigger] self.spec_target_config(*kind).links_overrides@[k].lib_name@ != lib_name@,
                None => forall|i: int|
                    0 <= i < self.spec_target_config(*kind).links_overrides@.len()
                        ==> #[trigger] self.spec_target_config(*kind).links_overrides@[i].lib_name@ != lib_name@,
            },
    {
        let overrides = &self.target_config(kind).links_overrides;
        let mut i: usize = 0;
        while i < overrides.len()
            invariant
                i <= overrides@.len(),
                overrides@ == self.spec_target_config(*kind).links_overrides@,
                forall|k: int| 0 <= k < i ==> #[trigger] overrides@[k].lib_name@ != lib_name@,
            decreases overrides.len() - i,
        {
            if str_eq(overrides[i].lib_name.as_str(), lib_name) {
                assert(overrides@[i as int].lib_name@ == lib_name@);
                return Some(&overrides[i].output);
            }
            i = i + 1;
        }
        None
    }
}

fn contains_string(v: &Vec<String>, s: &str) -> (r: bool)
    ensures
        r == strings_view(v@).contains(s@),
{
    let mut i: usize = 0;
    while i < v.len()
        invariant
            i <= v@.len(),
            forall|k: int| 0 <= k < i ==> strings_view(v@)[k] != s@,
        decreases v.len() - i,
    {
        if str_eq(v[i].as_str(), s) {
            assert(strings_view(v@)[i as int] == s@);
            return true;
        }
        i = i + 1;
    }
    false
}

} // verus!
