use vstd::prelude::*;
use crate::cfg::{cfg_key_matches, cfg_views, matches_key, Cfg, CfgView};
use crate::kinds::CompileKind;
use crate::probe::{trim, trimmed};
use crate::target_info::strings_view;
use crate::text::str_eq;

verus! {

/// Which extra flags are resolved: those for compiling or those for
/// documenting.
#[derive(Clone, Copy, PartialEq, Eq, Structural, Debug)]
pub enum FlagKind {
    Rustflags,
    Rustdocflags,
}

pub open spec fn flag_config_name(f: FlagKind) -> Seq<char> {
    match f {
        FlagKind::Rustflags => "rustflags"@,
        FlagKind::Rustdocflags => "rustdocflags"@,
    }
}

impl FlagKind {
    /// The environment variable that carries these flags.
    pub fn env_name(&self) -> (r: &'static str)
        ensures
            r@ == (match *self {
                FlagKind::Rustflags => "RUSTFLAGS"@,
                FlagKind::Rustdocflags => "RUSTDOCFLAGS"@,
            }),
    {
        match self {
            FlagKind::Rustflags => "RUSTFLAGS",
            FlagKind::Rustdocflags => "RUSTDOCFLAGS",
        }
    }

    /// The last part of the configuration keys that carry these flags.
    pub fn config_name(&self) -> (r: &'static str)
        ensures
            r@ == flag_config_name(*self),
    {
        match self {
            FlagKind::Rustflags => "rustflags",
            FlagKind::Rustdocflags => "rustdocflags",
        }
    }
}

/// A configuration key with a list of flags.
#[derive(Clone, Debug)]
pub struct ConfigEntry {
    pub key: String,
    pub flags: Vec<String>,
}

/// The flag sources that the caller read from the environment and the
/// configuration files.
#[derive(Clone, Debug)]
pub struct Config {
    /// The value of `RUSTFLAGS`, if it is set.
    pub env_rustflags: Option<String>,
    /// The value of `RUSTDOCFLAGS`, if it is set.
    pub env_rustdocflags: Option<String>,
    /// Lists under `target.<triple>.rustflags` and `target.<triple>.rustdocflags`.
    pub entries: Vec<ConfigEntry>,
    /// `target.'cfg(..)'.rustflags` lists, keyed by their `cfg(..)`
    /// expression, in declaration order.
    pub cfg_entries: Vec<ConfigEntry>,
    /// `build.rustflags`.
    pub build_rustflags: Option<Vec<String>>,
    /// `build.rustdocflags`.
    pub build_rustdocflags: Option<Vec<String>>,
}

pub open spec fn opt_strings(v: Option<Vec<String>>) -> Option<Seq<Seq<char>>> {
    match v {
        Some(l) => Some(strings_view(l@)),
        None => None,
    }
}

impl Config {
    pub open spec fn env_value(&self, f: FlagKind) -> Option<String> {
        match f {
            FlagKind::Rustflags => self.env_rustflags,
            FlagKind::Rustdocflags => self.env_rustdocflags,
        }
    }

    pub open spec fn build_value(&self, f: FlagKind) -> Option<Seq<Seq<char>>> {
        match f {
            FlagKind::Rustflags => opt_strings(self.build_rustflags),
            FlagKind::Rustdocflags => opt_strings(self.build_rustdocflags),
        }
    }
}

/// Flags given to the host while a cross target is requested would reach
/// build scripts and plugins: they get none.
pub open spec fn isolated(requested: Seq<CompileKind>, kind: CompileKind) -> bool {
    !(requested.len() == 1 && requested[0] is Host) && kind is Host
}

/// Adds a finished piece to the tokens when its trimmed text is not empty.
pub open spec fn push_token(tokens: Seq<Seq<char>>, piece: Seq<char>) -> Seq<Seq<char>> {
    if trimmed(piece).len() > 0 {
        tokens.push(trimmed(piece))
    } else {
        tokens
    }
}

/// Tokens finished so far and the piece being read, for `s` split at spaces.
pub open spec fn split_state(s: Seq<char>) -> (Seq<Seq<char>>, Seq<char>)
    decreases s.len(),
{
    if s.len() == 0 {
        (seq![], seq![])
    } else {
        let (tokens, piece) = split_state(s.drop_last());
        if s.last() == ' ' {
            (push_token(tokens, piece), seq![])
        } else {
            (tokens, piece.push(s.last()))
        }
    }
}

/// The non-empty trimmed pieces of `s` split at spaces.
pub open spec fn env_tokens(s: Seq<char>) -> Seq<Seq<char>> {
    push_token(split_state(s).0, split_state(s).1)
}

/// The flags of the first entry with the given key.
pub open spec fn lookup_entry(entries: Seq<ConfigEntry>, key: Seq<char>) -> Option<Seq<Seq<char>>>
    decreases entries.len(),
{
    if entries.len() == 0 {
        None
    } else if entries[0].key@ == key {
        Some(strings_view(entries[0].flags@))
    } else {
        lookup_entry(entries.drop_first(), key)
    }
}

/// The flags of every `cfg(..)` entry that holds on `cfgs`, in order.
pub open spec fn cfg_flags(entries: Seq<ConfigEntry>, cfgs: Seq<CfgView>) -> Seq<Seq<char>>
    decreases entries.len(),
{
    if entries.len() == 0 {
        seq![]
    } else {
        cfg_flags(entries.drop_last(), cfgs) + if cfg_key_matches(entries.last().key@, cfgs) {
            strings_view(entries.last().flags@)
        } else {
            seq![]
        }
    }
}

/// The platform name of a build kind.
pub open spec fn spec_short_name(kind: CompileKind, host: Seq<char>) -> Seq<char> {
    match kind {
        CompileKind::Host => host,
        CompileKind::Target(t) => t@,
    }
}

/// The key of the platform-scoped flag list.
pub open spec fn target_key(kind: CompileKind, host: Seq<char>, f: FlagKind) -> Seq<char> {
    "target."@ + spec_short_name(kind, host) + "."@ + flag_config_name(f)
}

/// The flags that apply to `kind`: none for an isolated host; else the
/// environment variable's tokens when it is set; else the platform-scoped
/// list followed by the matching `cfg(..)` lists when that is not empty;
/// else the global list; else none.
pub open spec fn spec_env_args(
    config: Config,
    requested: Seq<CompileKind>,
    host: Seq<char>,
    target_cfg: Option<Seq<CfgView>>,
    kind: CompileKind,
    f: FlagKind,
) -> Seq<Seq<char>> {
    if isolated(requested, kind) {
        seq![]
    } else if config.env_value(f) is Some {
        env_tokens(config.env_value(f)->0@)
    } else {
        let by_name = match lookup_entry(config.entries@, target_key(kind, host, f)) {
            Some(l) => l,
            None => seq![],
        };
        let by_cfg = match target_cfg {
            Some(cfgs) => cfg_flags(config.cfg_entries@, cfgs),
            None => seq![],
        };
        if by_name + by_cfg != Seq::<Seq<char>>::empty() {
            by_name + by_cfg
        } else {
            match config.build_value(f) {
                Some(l) => l,
                None => seq![],
            }
        }
    }
}

pub open spec fn opt_cfg_views(c: Option<&Vec<Cfg>>) -> Option<Seq<CfgView>> {
    match c {
        Some(v) => Some(cfg_views(v@)),
        None => None,
    }
}

fn finish_piece(tokens: &mut Vec<String>, piece: &String)
    ensures
        strings_view(final(tokens)@) == push_token(strings_view(old(tokens)@), piece@),
{
    let t = trim(piece.as_str());
    if t.as_str().unicode_len() > 0 {
        let ghost before = strings_view(tokens@);
        tokens.push(t);
        assert(strings_view(tokens@) =~= before.push(t@));
    }
}

/// Splits an environment value into its whitespace-delimited tokens.
pub fn split_env_flags(value: &str) -> (r: Vec<String>)
    ensures
        strings_view(r@) == env_tokens(value@),
{
    let n = value.unicode_len();
    let mut tokens: Vec<String> = Vec::new();
    let mut piece = String::new();
    let mut i: usize = 0;
    assert(value@.subrange(0, 0) =~= Seq::<char>::empty());
    assert(strings_view(tokens@) =~= seq![]);
    while i < n
        invariant
            n == value@.len(),
            i <= n,
            split_state(value@.subrange(0, i as int)) == (strings_view(tokens@), piece@),
        decreases n - i,
    {
        let c = value.get_char(i);
        assert(value@.subrange(0, i + 1).drop_last() =~= value@.subrange(0, i as int));
        if c == ' ' {
            finish_piece(&mut tokens, &piece);
            piece = String::new();
        } else {
            let one = value.substring_char(i, i + 1);
            assert(one@ =~= seq![c]);
            piece.append(one);
        }
        i = i + 1;
    }
    assert(value@.subrange(0, n as int) =~= value@);
    finish_piece(&mut tokens, &piece);
    tokens
}

fn lookup_config(entries: &Vec<ConfigEntry>, key: &str) -> (r: Option<Vec<String>>)
    ensures
        opt_strings(r) == lookup_entry(entries@, key@),
{
    let mut i: usize = 0;
    assert(entries@.subrange(0, entries@.len() as int) =~= entries@);
    while i < entries.len()
        invariant
            i <= entries@.len(),
            lookup_entry(entries@, key@) == lookup_entry(
                entries@.subrange(i as int, entries@.len() as int),
                key@,
            ),
        decreases entries.len() - i,
    {
        assert(entries@.subrange(i as int, entries@.len() as int).drop_first() =~= entries@.subrange(
            i + 1,
            entries@.len() as int,
        ));
        if str_eq(entries[i].key.as_str(), key) {
            return Some(entries[i].flags.clone());
        }
        i = i + 1;
    }
    None
}

fn collect_cfg_flags(entries: &Vec<ConfigEntry>, cfgs: &Vec<Cfg>) -> (r: Vec<String>)
    ensures
        strings_view(r@) == cfg_flags(entries@, cfg_views(cfgs@)),
{
    let mut out: Vec<String> = Vec::new();
    let mut i: usize = 0;
    assert(entries@.subrange(0, 0) =~= Seq::<ConfigEntry>::empty());
    assert(strings_view(out@) =~= seq![]);
    while i < entries.len()
        invariant
            i <= entries@.len(),
            strings_view(out@) == cfg_flags(entries@.subrange(0, i as int), cfg_views(cfgs@)),
        decreases entries.len() - i,
    {
        assert(entries@.subrange(0, i + 1).drop_last() =~= entries@.subrange(0, i as int));
        if matches_key(entries[i].key.as_str(), cfgs) {
            let ghost before = strings_view(out@);
            let mut more = entries[i].flags.clone();
            let ghost added = strings_view(more@);
            out.append(&mut more);
            assert(strings_view(out@) =~= before + added);
        } else {
            assert(strings_view(out@) =~= strings_view(out@) + Seq::<Seq<char>>::empty());
        }
        i = i + 1;
    }
    assert(entries@.subrange(0, i as int) =~= entries@);
    out
}

/// The platform name of a build kind.
pub fn short_name<'a>(kind: &'a CompileKind, host: &'a str) -> (r: &'a str)
    ensures
        r@ == spec_short_name(*kind, host@),
{
    match kind {
        CompileKind::Host => host,
        CompileKind::Target(t) => t.as_str(),
    }
}

/// The extra flags for `kind`, resolved over the environment and the
/// configuration; `target_cfg` is `None` before the platform's predicates
/// are known.
pub fn env_args(
    config: &Config,
    requested_kinds: &Vec<CompileKind>,
    host_triple: &str,
    target_cfg: Option<&Vec<Cfg>>,
    kind: &CompileKind,
    flag: FlagKind,
) -> (r: Vec<String>)
    ensures
        strings_view(r@) == spec_env_args(
            *config,
            requested_kinds@,
            host_triple@,
            opt_cfg_views(target_cfg),
            *kind,
            flag,
        ),
{
    let only_host = requested_kinds.len() == 1 && requested_kinds[0].is_host();
    if !only_host && kind.is_host() {
        let none: Vec<String> = Vec::new();
        assert(strings_view(none@) =~= seq![]);
        return none;
    }
    let env_value = match flag {
        FlagKind::Rustflags => &config.env_rustflags,
        FlagKind::Rustdocflags => &config.env_rustdocflags,
    };
    if let Some(v) = env_value {
        return split_env_flags(v.as_str());
    }
    let mut key = String::from_str("target.");
    key.append(short_name(kind, host_triple));
    key.append(".");
    key.append(flag.config_name());
    assert(key@ == target_key(*kind, host_triple@, flag));
    let ghost by_name = match lookup_entry(config.entries@, key@) {
        Some(l) => l,
        None => Seq::<Seq<char>>::empty(),
    };
    let mut rustflags = match lookup_config(&config.entries, key.as_str()) {
        Some(l) => l,
        None => Vec::new(),
    };
    match target_cfg {
        Some(cfgs) => {
            let ghost before = strings_view(rustflags@);
            let mut more = collect_cfg_flags(&config.cfg_entries, cfgs);
            let ghost added = strings_view(more@);
            rustflags.append(&mut more);
            assert(strings_view(rustflags@) =~= before + added);
        },
        None => {
            assert(strings_view(rustflags@) =~= strings_view(rustflags@) + Seq::<
                Seq<char>,
            >::empty());
        },
    }
    if rustflags.len() > 0 {
        return rustflags;
    }
    assert(strings_view(rustflags@).len() == 0);
    assert(strings_view(rustflags@) =~= Seq::<Seq<char>>::empty());
    let build = match flag {
        FlagKind::Rustflags => &config.build_rustflags,
        FlagKind::Rustdocflags => &config.build_rustdocflags,
    };
    match build {
        Some(l) => l.clone(),
        None => {
            let none: Vec<String> = Vec::new();
            assert(strings_view(none@) =~= seq![]);
            none
        },
    }
}

/// A set environment variable decides the flags alone, whatever the
/// configuration holds.
pub proof fn lemma_env_precedence(
    config: Config,
    requested: Seq<CompileKind>,
    host: Seq<char>,
    target_cfg: Option<Seq<CfgView>>,
    kind: CompileKind,
    f: FlagKind,
)
    requires
        !isolated(requested, kind),
        config.env_value(f) is Some,
    ensures
        spec_env_args(config, requested, host, target_cfg, kind, f) == env_tokens(
            config.env_value(f)->0@,
        ),
{
}

/// While anything but the host alone is requested, the host gets no flags
/// from any source.
pub proof fn lemma_host_isolation(
    config: Config,
    requested: Seq<CompileKind>,
    host: Seq<char>,
    target_cfg: Option<Seq<CfgView>>,
    f: FlagKind,
)
    requires
        !(requested.len() == 1 && requested[0] is Host),
    ensures
        spec_env_args(config, requested, host, target_cfg, CompileKind::Host, f) == Seq::<
            Seq<char>,
        >::empty(),
{
}

} // verus!
