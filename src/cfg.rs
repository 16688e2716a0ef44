use vstd::prelude::*;
use crate::text::spec_starts_with;

verus! {

/// A conditional-compilation predicate reported by the compiler.
#[derive(Clone, Debug, PartialEq, Eq, Hash)]
pub enum Cfg {
    /// A named predicate, like `unix`.
    Name(String),
    /// A key/value predicate, like `target_os = "linux"`.
    KeyPair(String, String),
}

pub enum CfgView {
    Name(Seq<char>),
    KeyPair(Seq<char>, Seq<char>),
}

impl View for Cfg {
    type V = CfgView;

    open spec fn view(&self) -> CfgView {
        match self {
            Cfg::Name(n) => CfgView::Name(n@),
            Cfg::KeyPair(k, v) => CfgView::KeyPair(k@, v@),
        }
    }
}

pub open spec fn cfg_views(v: Seq<Cfg>) -> Seq<CfgView> {
    v.map_values(|c: Cfg| c@)
}

/// What the predicate parser makes of a line of text, if it accepts it.
pub uninterp spec fn parsed_cfg(s: Seq<char>) -> Option<CfgView>;

/// Whether a `cfg(...)` configuration key holds on a set of predicates.
pub uninterp spec fn cfg_key_matches(key: Seq<char>, cfgs: Seq<CfgView>) -> bool;

/// Relies on `cargo_platform::Cfg::from_str` to parse one predicate; the
/// parse error is kept as its message.
#[verifier::external_body]
pub(crate) fn parse_cfg(s: &str) -> (r: Result<Cfg, String>)
    ensures
        match r {
            Ok(c) => parsed_cfg(s@) == Some(c@),
            Err(_) => parsed_cfg(s@) is None,
        },
{
    match <cargo_platform::Cfg as std::str::FromStr>::from_str(s) {
        Ok(cargo_platform::Cfg::Name(n)) => Ok(Cfg::Name(n)),
        Ok(cargo_platform::Cfg::KeyPair(k, v)) => Ok(Cfg::KeyPair(k, v)),
        Err(e) => Err(e.to_string()),
    }
}

/// Relies on `cargo_platform::CfgExpr::matches_key`: a key that does not
/// start with `cfg(` never matches.
#[verifier::external_body]
pub(crate) fn matches_key(key: &str, cfgs: &Vec<Cfg>) -> (r: bool)
    ensures
        r == cfg_key_matches(key@, cfg_views(cfgs@)),
        !spec_starts_with(key@, "cfg("@) ==> !r,
{
    let cfgs: Vec<cargo_platform::Cfg> = cfgs.iter().map(|c| match c {
        Cfg::Name(n) => cargo_platform::Cfg::Name(n.clone()),
        Cfg::KeyPair(k, v) => cargo_platform::Cfg::KeyPair(k.clone(), v.clone()),
    }).collect();
    cargo_platform::CfgExpr::matches_key(key, &cfgs)
}

/// The one predicate that only reflects how the compiler was queried.
pub open spec fn is_probe_artifact(c: CfgView) -> bool {
    c == CfgView::Name("proc_macro"@)
}

pub fn is_user_specific(c: &Cfg) -> (r: bool)
    ensures
        r == !is_probe_artifact(c@),
{
    match c {
        Cfg::Name(n) => !crate::text::str_eq(n.as_str(), "proc_macro"),
        Cfg::KeyPair(_, _) => true,
    }
}

} // verus!
