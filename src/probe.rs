use vstd::prelude::*;
use crate::kinds::{crate_type_name, CrateType};
use crate::target_info::{names_view, strings_view};
use crate::text::{contains, occurs_at, occurs_at_exec, spec_contains};

verus! {

/// A line without the carriage return of a `\r\n` ending.
pub open spec fn strip_cr(line: Seq<char>) -> Seq<char> {
    if line.len() > 0 && line.last() == '\r' {
        line.drop_last()
    } else {
        line
    }
}

/// The lines finished so far and the line being read.
pub open spec fn lines_state(s: Seq<char>) -> (Seq<Seq<char>>, Seq<char>)
    decreases s.len(),
{
    if s.len() == 0 {
        (seq![], seq![])
    } else {
        let (done, cur) = lines_state(s.drop_last());
        if s.last() == '\n' {
            (done.push(strip_cr(cur)), seq![])
        } else {
            (done, cur.push(s.last()))
        }
    }
}

/// The lines of a text: split after each `\n`, without the `\n` or a
/// `\r\n`; a last line without an ending counts when it is not empty.
pub open spec fn text_lines(s: Seq<char>) -> Seq<Seq<char>> {
    let (done, cur) = lines_state(s);
    if cur.len() > 0 {
        done.push(cur)
    } else {
        done
    }
}

/// Splits a text into its lines.
pub fn lines(s: &str) -> (r: Vec<String>)
    ensures
        strings_view(r@) == text_lines(s@),
{
    let n = s.unicode_len();
    let mut done: Vec<String> = Vec::new();
    let mut cur = String::new();
    let mut i: usize = 0;
    assert(s@.subrange(0, 0) =~= Seq::<char>::empty());
    assert(strings_view(done@) =~= seq![]);
    while i < n
        invariant
            n == s@.len(),
            i <= n,
            lines_state(s@.subrange(0, i as int)) == (strings_view(done@), cur@),
        decreases n - i,
    {
        let c = s.get_char(i);
        assert(s@.subrange(0, i + 1).drop_last() =~= s@.subrange(0, i as int));
        if c == '\n' {
            let cn = cur.as_str().unicode_len();
            let line = if cn > 0 && cur.as_str().get_char(cn - 1) == '\r' {
                String::from_str(cur.as_str().substring_char(0, cn - 1))
            } else {
                cur
            };
            assert(line@ =~= strip_cr(cur@));
            let ghost before = strings_view(done@);
            done.push(line);
            assert(strings_view(done@) =~= before.push(strip_cr(cur@)));
            cur = String::new();
        } else {
            let one = s.substring_char(i, i + 1);
            assert(one@ =~= seq![c]);
            cur.append(one);
        }
        i = i + 1;
    }
    assert(s@.subrange(0, n as int) =~= s@);
    if cur.as_str().unicode_len() > 0 {
        let ghost before = strings_view(done@);
        let ghost last = cur@;
        done.push(cur);
        assert(strings_view(done@) =~= before.push(last));
    }
    done
}

/// A text without its leading and trailing whitespace, as `str::trim` cuts it.
pub uninterp spec fn trimmed(s: Seq<char>) -> Seq<char>;

/// Relies on `str::trim` to strip surrounding whitespace.
#[verifier::external_body]
pub(crate) fn trim(s: &str) -> (r: String)
    ensures
        r@ == trimmed(s@),
{
    s.trim().to_string()
}

/// The separator between the prefix and the suffix of a file name.
pub open spec fn sep() -> Seq<char> {
    seq!['_', '_', '_']
}

/// The first occurrence of the separator at or after `i`.
pub open spec fn first_sep_from(s: Seq<char>, i: int) -> Option<int>
    decreases s.len() - i,
{
    if i < 0 || i + 3 > s.len() {
        None
    } else if occurs_at(s, sep(), i) {
        Some(i)
    } else {
        first_sep_from(s, i + 1)
    }
}

/// The first two parts of a line split at the separator; `None` when the
/// line holds no separator.
pub open spec fn file_name_parts(line: Seq<char>) -> Option<(Seq<char>, Seq<char>)> {
    match first_sep_from(line, 0) {
        None => None,
        Some(i) => {
            let rest = line.subrange(i + 3, line.len() as int);
            let second = match first_sep_from(rest, 0) {
                None => rest,
                Some(j) => rest.subrange(0, j),
            };
            Some((line.subrange(0, i), second))
        },
    }
}

fn find_sep(s: &str, slen: usize) -> (r: Option<usize>)
    requires
        slen == s@.len(),
    ensures
        match r {
            Some(i) => first_sep_from(s@, 0) == Some(i as int) && i + 3 <= slen,
            None => first_sep_from(s@, 0) is None,
        },
{
    let pat = "___";
    proof {
        reveal_strlit("___");
    }
    assert(pat@ =~= sep());
    let mut i: usize = 0;
    while i < slen && slen - i >= 3
        invariant
            slen == s@.len(),
            pat@ == sep(),
            first_sep_from(s@, 0) == first_sep_from(s@, i as int),
        decreases slen - i,
    {
        if occurs_at_exec(s, slen, pat, 3, i) {
            return Some(i);
        }
        i = i + 1;
    }
    None
}

/// Splits a (trimmed) line of the file name probe into its prefix and
/// suffix.
pub fn split_file_names(line: &str) -> (r: Option<(String, String)>)
    ensures
        names_view(r) == file_name_parts(line@),
{
    let n = line.unicode_len();
    match find_sep(line, n) {
        None => None,
        Some(i) => {
            let prefix = line.substring_char(0, i);
            let rest = line.substring_char(i + 3, n);
            let rlen = rest.unicode_len();
            let second = match find_sep(rest, rlen) {
                None => rest,
                Some(j) => rest.substring_char(0, j),
            };
            Some((String::from_str(prefix), String::from_str(second)))
        },
    }
}

/// `s` holds no separator.
pub open spec fn no_sep(s: Seq<char>) -> bool {
    forall|i: int| !occurs_at(s, sep(), i)
}

proof fn lemma_no_sep_none(q: Seq<char>, j: int)
    requires
        no_sep(q),
        0 <= j,
    ensures
        first_sep_from(q, j) is None,
    decreases q.len() - j,
{
    if j + 3 <= q.len() {
        lemma_no_sep_none(q, j + 1);
    }
}

proof fn lemma_sep_found(p: Seq<char>, q: Seq<char>, j: int)
    requires
        no_sep(p),
        p.len() == 0 || p.last() != '_',
        0 <= j <= p.len(),
    ensures
        first_sep_from(p + sep() + q, j) == Some(p.len() as int),
    decreases p.len() - j,
{
    let line = p + sep() + q;
    if j == p.len() {
        assert(line.subrange(j, j + 3) =~= sep());
    } else {
        if occurs_at(line, sep(), j) {
            if j + 3 <= p.len() {
                assert(p.subrange(j, j + 3) =~= line.subrange(j, j + 3));
                assert(occurs_at(p, sep(), j));
            } else {
                let k = p.len() - 1;
                assert(line.subrange(j, j + 3)[k - j] == line[k]);
                assert(line[k] == p.last());
            }
        }
        lemma_sep_found(p, q, j + 1);
    }
}

/// A line made of two parts joined by the separator splits back into the
/// two parts, empty ones included, provided neither part holds the
/// separator and the first does not end in an underscore (which would
/// move the separator one place to the left).
pub proof fn lemma_file_name_round_trip(prefix: Seq<char>, suffix: Seq<char>)
    requires
        no_sep(prefix),
        no_sep(suffix),
        prefix.len() == 0 || prefix.last() != '_',
    ensures
        file_name_parts(prefix + sep() + suffix) == Some((prefix, suffix)),
{
    let line = prefix + sep() + suffix;
    lemma_sep_found(prefix, suffix, 0);
    let i = prefix.len() as int;
    assert(line.subrange(i + 3, line.len() as int) =~= suffix);
    assert(line.subrange(0, i) =~= prefix);
    lemma_no_sep_none(suffix, 0);
}

/// The diagnostic text that names a crate type.
pub open spec fn crate_type_mention(ct: CrateType) -> Seq<char> {
    "crate type `"@ + crate_type_name(ct) + "`"@
}

/// A diagnostic line that rejects the crate type.
pub open spec fn marks_unsupported(line: Seq<char>, ct: CrateType) -> bool {
    (spec_contains(line, "unsupported crate type"@) || spec_contains(line, "unknown crate type"@))
        && spec_contains(line, crate_type_mention(ct))
}

/// The compiler's diagnostics reject the crate type.
pub open spec fn spec_unsupported(err_lines: Seq<Seq<char>>, ct: CrateType) -> bool {
    exists|i: int| 0 <= i < err_lines.len() && marks_unsupported(#[trigger] err_lines[i], ct)
}

fn is_unsupported(err_lines: &Vec<String>, ct: CrateType) -> (r: bool)
    ensures
        r == spec_unsupported(strings_view(err_lines@), ct),
{
    let mut mention = String::from_str("crate type `");
    mention.append(ct.as_str());
    mention.append("`");
    let mut i: usize = 0;
    while i < err_lines.len()
        invariant
            mention@ == crate_type_mention(ct),
            forall|k: int|
                0 <= k < i ==> !marks_unsupported(#[trigger] strings_view(err_lines@)[k], ct),
        decreases err_lines.len() - i,
    {
        let line = err_lines[i].as_str();
        if (contains(line, "unsupported crate type") || contains(line, "unknown crate type"))
            && contains(line, mention.as_str()) {
            assert(marks_unsupported(strings_view(err_lines@)[i as int], ct));
            return true;
        }
        i = i + 1;
    }
    false
}

/// Why the probe's output could not be read.
#[derive(Clone, Copy, PartialEq, Eq, Structural, Debug)]
pub enum ProbeErrorKind {
    /// No file name line was left for a crate type.
    MissingFileNames(CrateType),
    /// A file name line held no separator.
    FileNamesChanged,
    /// No line was left for the support file tree.
    MissingSysroot,
    /// A predicate line could not be parsed.
    BadCfg,
}

/// A malformed probe output, with the command and what it printed.
#[derive(Clone, Debug)]
pub struct ProbeError {
    pub kind: ProbeErrorKind,
    pub detail: String,
}

/// The diagnostic text of a failed probe: the command, then each non-empty
/// output stream under its own heading.
pub open spec fn spec_output_err_info(cmd: Seq<char>, stdout: Seq<char>, stderr: Seq<char>) -> Seq<
    char,
> {
    let head = "command was: "@ + cmd + "\n"@;
    let out = if stdout.len() > 0 {
        "\n--- stdout\n"@ + stdout
    } else {
        seq![]
    };
    let err = if stderr.len() > 0 {
        "\n--- stderr\n"@ + stderr
    } else {
        seq![]
    };
    let none = if stdout.len() == 0 && stderr.len() == 0 {
        "(no output received)"@
    } else {
        seq![]
    };
    head + out + err + none
}

pub fn output_err_info(cmd: &str, stdout: &str, stderr: &str) -> (r: String)
    ensures
        r@ == spec_output_err_info(cmd@, stdout@, stderr@),
{
    let mut result = String::from_str("command was: ");
    result.append(cmd);
    result.append("\n");
    let out_empty = stdout.unicode_len() == 0;
    let err_empty = stderr.unicode_len() == 0;
    if !out_empty {
        result.append("\n--- stdout\n");
        result.append(stdout);
    }
    if !err_empty {
        result.append("\n--- stderr\n");
        result.append(stderr);
    }
    if out_empty && err_empty {
        result.append("(no output received)");
    }
    assert(result@ =~= spec_output_err_info(cmd@, stdout@, stderr@));
    result
}

/// Reading the probe's answer for one crate type at line `pos`: the
/// prefix and suffix (or `None` when the diagnostics reject the type, which
/// takes no line) and the next line to read.
pub open spec fn spec_parse_crate_type(
    ct: CrateType,
    err_lines: Seq<Seq<char>>,
    out_lines: Seq<Seq<char>>,
    pos: int,
) -> Result<(Option<(Seq<char>, Seq<char>)>, int), ProbeErrorKind> {
    if spec_unsupported(err_lines, ct) {
        Ok((None, pos))
    } else if pos >= out_lines.len() {
        Err(ProbeErrorKind::MissingFileNames(ct))
    } else {
        match file_name_parts(trimmed(out_lines[pos])) {
            None => Err(ProbeErrorKind::FileNamesChanged),
            Some(p) => Ok((Some(p), pos + 1)),
        }
    }
}

/// Reads the answer for one crate type; `cmd`, `output` and `error` only
/// go into the error's detail.
pub fn parse_crate_type(
    crate_type: CrateType,
    cmd: &str,
    output: &str,
    error: &str,
    err_lines: &Vec<String>,
    out_lines: &Vec<String>,
    pos: usize,
) -> (r: Result<(Option<(String, String)>, usize), ProbeError>)
    requires
        pos <= out_lines@.len(),
    ensures
        match r {
            Ok((names, next)) => spec_parse_crate_type(
                crate_type,
                strings_view(err_lines@),
                strings_view(out_lines@),
                pos as int,
            ) == Ok::<(Option<(Seq<char>, Seq<char>)>, int), ProbeErrorKind>(
                (names_view(names), next as int),
            ),
            Err(e) => spec_parse_crate_type(
                crate_type,
                strings_view(err_lines@),
                strings_view(out_lines@),
                pos as int,
            ) == Err::<(Option<(Seq<char>, Seq<char>)>, int), ProbeErrorKind>(e.kind)
                && e.detail@ == spec_output_err_info(cmd@, output@, error@),
        },
        r matches Ok((_, next)) ==> next <= out_lines@.len(),
{
    if is_unsupported(err_lines, crate_type) {
        return Ok((None, pos));
    }
    if pos >= out_lines.len() {
        return Err(
            ProbeError {
                kind: ProbeErrorKind::MissingFileNames(crate_type),
                detail: output_err_info(cmd, output, error),
            },
        );
    }
    let line = trim(out_lines[pos].as_str());
    match split_file_names(line.as_str()) {
        None => Err(
            ProbeError {
                kind: ProbeErrorKind::FileNamesChanged,
                detail: output_err_info(cmd, output, error),
            },
        ),
        Some(names) => Ok((Some(names), pos + 1)),
    }
}

/// A crate type that the diagnostics reject takes no line of the output.
pub proof fn lemma_unsupported_takes_no_line(
    ct: CrateType,
    err_lines: Seq<Seq<char>>,
    out_lines: Seq<Seq<char>>,
    pos: int,
)
    requires
        spec_unsupported(err_lines, ct),
    ensures
        spec_parse_crate_type(ct, err_lines, out_lines, pos) == Ok::<
            (Option<(Seq<char>, Seq<char>)>, int),
            ProbeErrorKind,
        >((None, pos)),
{
}

} // verus!
