//! Line-level syntax of `.reg` files.

use vstd::prelude::*;

use super::string::{is_lone_quote, is_quoted, parse_string_literal, string_literal};
use super::value::{parse_registry_value, reg_value, value_panics};
use crate::registry::error::{ErrorModel, RegistryError};
use crate::registry::key::{hive_of, KeyModel, RegistryHive};
use crate::registry::store::{model_append, model_set, Registry, RegistryMergeMode, RegistryModel, well_formed_model};
use crate::registry::value::ValueModel;
use crate::text::{
    chars_of, ends_with, eq_ignore_case, has_prefix, has_suffix, is_lit, is_lit_ignore_case,
    nonempty, split_all, split_pieces, starts_with, string_from, string_views, sub_chars, trim,
    trim_bounds, trim_end, trimmed, utf8_len, utf8_length, views,
};

verus! {

/// Quote state after scanning `s`: (inside quotes, after a backslash).
pub open spec fn quote_scan(s: Seq<char>) -> (bool, bool)
    decreases s.len(),
{
    if s.len() == 0 {
        (false, false)
    } else {
        let (q, e) = quote_scan(s.drop_last());
        let c = s.last();
        if e {
            (q, false)
        } else if c == '\\' {
            (q, true)
        } else if c == '"' {
            (!q, false)
        } else {
            (q, false)
        }
    }
}

/// Whether `s[i]` is an `=` outside quotes and not escaped.
pub open spec fn is_value_sep(s: Seq<char>, i: int) -> bool {
    0 <= i < s.len() && s[i] == '=' && !quote_scan(s.take(i)).0 && !quote_scan(s.take(i)).1
}

/// The first unquoted, unescaped `=` of `s`, if any.
pub open spec fn value_sep(s: Seq<char>) -> Option<int> {
    if exists|i: int| is_value_sep(s, i) {
        Some(choose|i: int| is_value_sep(s, i) && forall|k: int| 0 <= k < i ==> !is_value_sep(s, k))
    } else {
        None
    }
}

/// A `name=value` line split at its first unquoted `=`.
pub open spec fn split_line(s: Seq<char>) -> Option<(Seq<char>, Seq<char>)> {
    match value_sep(s) {
        Some(i) => Some((s.subrange(0, i), s.subrange(i + 1, s.len() as int))),
        None => None,
    }
}

/// Number of backslashes at the end of `s`.
pub open spec fn trailing_backslashes(s: Seq<char>) -> nat
    decreases s.len(),
{
    if s.len() > 0 && s.last() == '\\' {
        trailing_backslashes(s.drop_last()) + 1
    } else {
        0
    }
}

/// Whether a quoted value is closed by an unescaped `"`.
pub open spec fn is_complete(v: Seq<char>) -> bool {
    let t = trim_end(v);
    is_quoted(t) && trailing_backslashes(t.subrange(0, t.len() - 1)) % 2 == 0
}

/// Whether the text before `=` names a value.
pub open spec fn is_name(n: Seq<char>) -> bool {
    let t = trim(n);
    t == "@"@ || eq_ignore_case(t, "(default)"@) || is_quoted(t)
}

/// The value name that the text before `=` gives: `None` for the default value.
pub open spec fn value_name(n: Seq<char>) -> Result<Option<Seq<char>>, ErrorModel> {
    let t = trim(n);
    if t == "@"@ || eq_ignore_case(t, "(default)"@) {
        Ok(None)
    } else {
        match string_literal(t) {
            Ok(s) => Ok(Some(s)),
            Err(e) => Err(e),
        }
    }
}

/// Whether `value_name` would slice a lone `"`.
pub open spec fn name_panics(n: Seq<char>) -> bool {
    let t = trim(n);
    !(t == "@"@ || eq_ignore_case(t, "(default)"@)) && is_lone_quote(t)
}

/// The hive and path of a `[...]` section header.
pub open spec fn key_path(line: Seq<char>) -> Result<(RegistryHive, Seq<Seq<char>>), ErrorModel> {
    let parts = split_all(trim(line), '\\', '/');
    match hive_of(parts[0]) {
        None => Err(ErrorModel::InvalidHive(parts[0])),
        Some(h) => Ok((h, parts.drop_first().filter(nonempty()))),
    }
}

/// Scans a line for its first unquoted, unescaped `=`.
pub fn split_value_line(line: &[char]) -> (r: Option<usize>)
    ensures
        match r {
            Some(i) => i < line.len() && value_sep(line@) == Some(i as int),
            None => value_sep(line@) is None,
        },
{
    let mut in_quotes = false;
    let mut escaped = false;
    let mut i: usize = 0;
    while i < line.len()
        invariant
            i <= line.len(),
            (in_quotes, escaped) == quote_scan(line@.take(i as int)),
            forall|k: int| 0 <= k < i ==> !is_value_sep(line@, k),
        decreases line.len() - i,
    {
        let ch = line[i];
        assert(line@.take(i + 1).drop_last() =~= line@.take(i as int));
        if escaped {
            escaped = false;
        } else if ch == '\\' {
            escaped = true;
        } else if ch == '"' {
            in_quotes = !in_quotes;
        } else if ch == '=' && !in_quotes {
            proof {
                assert(is_value_sep(line@, i as int));
                assert(exists|j: int| is_value_sep(line@, j));
                let j = choose|j: int| is_value_sep(line@, j) && forall|k: int| 0 <= k < j ==> !is_value_sep(line@, k);
                if j < i {
                    assert(!is_value_sep(line@, j));
                }
                if j > i {
                    assert(!is_value_sep(line@, i as int));
                }
            }
            return Some(i);
        }
        i = i + 1;
    }
    None
}

/// Whether a quoted value ends with an unescaped closing quote.
pub fn is_complete_quoted_value(v: &[char]) -> (r: bool)
    ensures
        r == is_complete(v@),
{
    let end = v.len();
    let mut j = end;
    assert(v@.subrange(0, j as int) =~= v@);
    while j > 0 && crate::text::is_whitespace(v[j - 1])
        invariant
            j <= end == v.len(),
            trim_end(v@) == trim_end(v@.subrange(0, j as int)),
        decreases j,
    {
        assert(v@.subrange(0, j as int).drop_last() =~= v@.subrange(0, j - 1));
        j = j - 1;
    }
    let ghost t = v@.subrange(0, j as int);
    assert(trim_end(t) == t);
    if j == 0 || v[0] != '"' || v[j - 1] != '"' {
        proof {
            if is_quoted(t) {
                assert(t.subrange(0, 1)[0] == t[0]);
                assert(t.subrange(t.len() - 1, t.len() as int)[0] == t[t.len() - 1]);
            }
        }
        return false;
    }
    assert(t.subrange(0, 1) =~= seq!['"']);
    assert(t.subrange(t.len() - 1, t.len() as int) =~= seq!['"']);
    let mut count: usize = 0;
    let mut k = j - 1;
    assert(t.subrange(0, t.len() - 1) =~= v@.subrange(0, k as int));
    while k > 0 && v[k - 1] == '\\'
        invariant
            k <= j - 1,
            j <= v.len(),
            count + k == j - 1,
            trailing_backslashes(v@.subrange(0, (j - 1) as int)) == count + trailing_backslashes(v@.subrange(0, k as int)),
        decreases k,
    {
        assert(v@.subrange(0, k as int).drop_last() =~= v@.subrange(0, k - 1));
        count = count + 1;
        k = k - 1;
    }
    count % 2 == 0
}

/// Whether the text before `=` names a value (`@`, `(default)` or a quoted name).
pub fn is_registry_name(name_raw: &[char]) -> (r: bool)
    ensures
        r == is_name(name_raw@),
{
    let t = trimmed(name_raw);
    if is_lit(t.as_slice(), "@") || is_lit_ignore_case(t.as_slice(), "(default)") {
        return true;
    }
    t.len() >= 1 && t[0] == '"' && t[t.len() - 1] == '"' && {
        proof {
            assert(t@.subrange(0, 1) =~= seq![t@[0]]);
            assert(t@.subrange(t@.len() - 1, t@.len() as int) =~= seq![t@[t@.len() - 1]]);
        }
        true
    } || {
        proof {
            if is_quoted(t@) {
                assert(t@.subrange(0, 1)[0] == t@[0]);
                assert(t@.subrange(t@.len() - 1, t@.len() as int)[0] == t@[t@.len() - 1]);
            }
        }
        false
    }
}

/// The value name before `=`.
pub fn parse_value_name(name_raw: &[char]) -> (r: Result<Option<String>, RegistryError>)
    requires
        !name_panics(name_raw@),
    ensures
        match value_name(name_raw@) {
            Ok(o) => r matches Ok(ro) && match ro {
                Some(s) => o == Some(s@),
                None => o is None,
            },
            Err(e) => r matches Err(err) && err.model() == e,
        },
{
    let t = trimmed(name_raw);
    if is_lit(t.as_slice(), "@") || is_lit_ignore_case(t.as_slice(), "(default)") {
        return Ok(None);
    }
    proof {
        crate::text::lemma_trim_idempotent(name_raw@);
    }
    let s = parse_string_literal(t.as_slice())?;
    Ok(Some(s))
}

/// The hive and path of a section header `HIVE\path`.
pub fn parse_key_path(line: &[char]) -> (r: Result<(RegistryHive, Vec<String>), RegistryError>)
    ensures
        match key_path(line@) {
            Ok((h, p)) => r matches Ok((rh, rp)) && rh == h && string_views(rp@) == p,
            Err(e) => r matches Err(err) && err.model() == e,
        },
{
    let t = trimmed(line);
    let parts = split_pieces(t.as_slice(), '\\', '/');
    let ghost ps = views(parts@);
    assert(ps.len() > 0);
    assert(ps[0] == parts@[0]@);
    let hive = match crate::registry::key::RegistryHive::parse_chars(parts[0].as_slice()) {
        Some(h) => h,
        None => {
            return Err(RegistryError::InvalidHive(string_from(parts[0].as_slice())));
        },
    };
    let mut path: Vec<String> = Vec::new();
    let mut i: usize = 1;
    assert(ps.drop_first().take(0).filter(nonempty()) =~= Seq::<Seq<char>>::empty()) by {
        reveal(Seq::filter);
    }
    while i < parts.len()
        invariant
            ps == views(parts@),
            1 <= i <= parts.len(),
            string_views(path@) == ps.drop_first().take(i - 1).filter(nonempty()),
        decreases parts.len() - i,
    {
        let ghost pre = ps.drop_first().take(i - 1);
        assert(ps.drop_first().take(i as int).drop_last() =~= pre);
        assert(ps.drop_first()[i - 1] == parts@[i as int]@);
        proof {
            pre.lemma_filter_push(parts@[i as int]@, nonempty());
            assert(ps.drop_first().take(i as int) =~= pre.push(parts@[i as int]@));
        }
        if parts[i].len() > 0 {
            let s = string_from(parts[i].as_slice());
            let ghost before = path@;
            path.push(s);
            assert(string_views(path@) =~= string_views(before).push(s@));
        }
        i = i + 1;
    }
    assert(ps.drop_first().take(parts.len() - 1) =~= ps.drop_first());
    Ok((hive, path))
}

/// A quoted value whose closing quote is on a later line.
pub struct PendingModel {
    pub hive: RegistryHive,
    pub path: Seq<Seq<char>>,
    pub name: Option<Seq<char>>,
    pub value: Seq<char>,
}

/// Where the line scanner stands between lines.
pub struct ScanState {
    pub hive: Option<RegistryHive>,
    pub path: Seq<Seq<char>>,
    pub pending: Seq<char>,
    pub pending_value: Option<PendingModel>,
}

/// A value to store: hive, path, value name and data.
pub struct Assignment {
    pub hive: RegistryHive,
    pub path: Seq<Seq<char>>,
    pub name: Option<Seq<char>>,
    pub value: ValueModel,
}

/// What one line does.
pub enum LineOutcome {
    Next(ScanState, Option<Assignment>),
    Fail(ErrorModel),
    /// The line makes the parser slice a lone `"`; such input is left out.
    Panic,
}

/// Longest a value spanning lines may grow, in bytes.
pub open spec fn max_pending_len() -> nat {
    256 * 1024
}

pub open spec fn initial_scan() -> ScanState {
    ScanState { hive: None, path: Seq::empty(), pending: Seq::empty(), pending_value: None }
}

/// The line without all of its trailing backslashes.
pub open spec fn strip_backslashes(s: Seq<char>) -> Seq<char>
    decreases s.len(),
{
    if s.len() > 0 && s.last() == '\\' {
        strip_backslashes(s.drop_last())
    } else {
        s
    }
}

/// A line continuing a pending quoted value (before any other rule applies).
/// `None` means: drop the pending value and read the line normally.
pub open spec fn continue_pending(pv: PendingModel, line: Seq<char>, st: ScanState) -> Option<LineOutcome> {
    if starts_with(line, seq!['[']) && ends_with(line, seq![']']) {
        None
    } else if (match split_line(line) {
        Some((n, _)) => is_name(n),
        None => false,
    }) {
        None
    } else {
        let v = pv.value + seq!['\n'] + line;
        if utf8_len(v) > max_pending_len() {
            Some(LineOutcome::Next(ScanState { pending_value: None, ..st }, None))
        } else if is_complete(v) {
            if value_panics(v) {
                Some(LineOutcome::Panic)
            } else {
                match reg_value(v) {
                    Err(e) => Some(LineOutcome::Fail(e)),
                    Ok(val) => Some(LineOutcome::Next(
                        ScanState { pending_value: None, ..st },
                        Some(Assignment { hive: pv.hive, path: pv.path, name: pv.name, value: val }),
                    )),
                }
            }
        } else {
            Some(LineOutcome::Next(ScanState { pending_value: Some(PendingModel { value: v, ..pv }), ..st }, None))
        }
    }
}

/// A line read with no value pending.
pub open spec fn plain_line(st: ScanState, line: Seq<char>) -> LineOutcome {
    if starts_with(line, "Windows Registry Editor"@) || starts_with(line, seq![';']) || starts_with(line, seq!['#']) {
        LineOutcome::Next(st, None)
    } else if ends_with(line, seq!['\\']) {
        LineOutcome::Next(ScanState { pending: st.pending + strip_backslashes(line), ..st }, None)
    } else {
        let full = if st.pending.len() > 0 { st.pending + line } else { line };
        statement(ScanState { pending: Seq::empty(), ..st }, full)
    }
}

/// A complete logical line: a section header or a value assignment.
pub open spec fn statement(st: ScanState, full: Seq<char>) -> LineOutcome {
    if starts_with(full, seq!['[']) && ends_with(full, seq![']']) {
        match key_path(full.subrange(1, full.len() - 1)) {
            Err(e) => LineOutcome::Fail(e),
            Ok((h, p)) => LineOutcome::Next(ScanState { hive: Some(h), path: p, ..st }, None),
        }
    } else if st.hive is None || starts_with(full, seq!['[']) {
        LineOutcome::Next(st, None)
    } else {
        assignment(st, full)
    }
}

/// A `name=value` line inside a section.
pub open spec fn assignment(st: ScanState, full: Seq<char>) -> LineOutcome {
    match split_line(full) {
        None => LineOutcome::Next(st, None),
        Some((name_raw, value_raw)) => {
            if name_panics(name_raw) {
                LineOutcome::Panic
            } else {
                match value_name(name_raw) {
                    Err(_) => LineOutcome::Next(st, None),
                    Ok(name) => {
                        let h = st.hive->0;
                        if starts_with(value_raw, seq!['"']) && !is_complete(value_raw) {
                            LineOutcome::Next(
                                ScanState {
                                    pending_value: Some(PendingModel { hive: h, path: st.path, name, value: value_raw }),
                                    ..st
                                },
                                None,
                            )
                        } else if value_panics(value_raw) {
                            LineOutcome::Panic
                        } else {
                            match reg_value(value_raw) {
                                Err(e) => LineOutcome::Fail(e),
                                Ok(v) => LineOutcome::Next(st, Some(Assignment { hive: h, path: st.path, name, value: v })),
                            }
                        }
                    },
                }
            }
        },
    }
}

/// What one raw line of a `.reg` file does.
pub open spec fn scan_line(st: ScanState, raw: Seq<char>) -> LineOutcome {
    let line = trim(raw);
    if line.len() == 0 {
        LineOutcome::Next(st, None)
    } else {
        match st.pending_value {
            Some(pv) => match continue_pending(pv, line, st) {
                Some(o) => o,
                None => plain_line(ScanState { pending_value: None, ..st }, line),
            },
            None => plain_line(st, line),
        }
    }
}

/// The registry after storing one assignment.
pub open spec fn assign(m: RegistryModel, a: Assignment, mode: RegistryMergeMode) -> RegistryModel {
    let k = KeyModel { hive: a.hive, path: a.path, value_name: a.name };
    match mode {
        RegistryMergeMode::Append => model_append(m, k, a.value),
        RegistryMergeMode::Overwrite => model_set(m, k, a.value),
    }
}

/// How a run over lines ends.
pub enum RunEnd {
    Done,
    Failed(ErrorModel),
    Panicked,
}

/// The result of reading the lines in order from registry `m`: how the run
/// ended, the scanner state and the registry at that point.
pub open spec fn run_lines(lines: Seq<Seq<char>>, m: RegistryModel, mode: RegistryMergeMode) -> (RunEnd, ScanState, RegistryModel)
    decreases lines.len(),
{
    if lines.len() == 0 {
        (RunEnd::Done, initial_scan(), m)
    } else {
        let (end, st, m2) = run_lines(lines.drop_last(), m, mode);
        match end {
            RunEnd::Done => match scan_line(st, lines.last()) {
                LineOutcome::Next(st2, None) => (RunEnd::Done, st2, m2),
                LineOutcome::Next(st2, Some(a)) => (RunEnd::Done, st2, assign(m2, a, mode)),
                LineOutcome::Fail(e) => (RunEnd::Failed(e), st, m2),
                LineOutcome::Panic => (RunEnd::Panicked, st, m2),
            },
            _ => (end, st, m2),
        }
    }
}

/// The lines of a text (pieces between `\n`; a `\r` before it is trimmed
/// with the line).
pub open spec fn text_lines(text: Seq<char>) -> Seq<Seq<char>> {
    split_all(text, '\n', '\n')
}

/// Merging `.reg` text into registry `m`.
pub open spec fn merge_text(text: Seq<char>, m: RegistryModel, mode: RegistryMergeMode) -> (RunEnd, RegistryModel) {
    let (end, _, m2) = run_lines(text_lines(text), m, mode);
    (end, m2)
}

/// A quoted value whose closing quote has not been read yet.
pub struct PendingValue {
    pub hive: RegistryHive,
    pub path: Vec<String>,
    pub name: Option<String>,
    pub value: Vec<char>,
}

/// The line scanner's state.
pub struct Scan {
    pub hive: Option<RegistryHive>,
    pub path: Vec<String>,
    pub pending: Vec<char>,
    pub pending_value: Option<PendingValue>,
}

pub open spec fn opt_str(o: Option<String>) -> Option<Seq<char>> {
    match o {
        Some(s) => Some(s@),
        None => None,
    }
}

impl PendingValue {
    pub open spec fn model(&self) -> PendingModel {
        PendingModel { hive: self.hive, path: string_views(self.path@), name: opt_str(self.name), value: self.value@ }
    }
}

impl Scan {
    pub open spec fn model(&self) -> ScanState {
        ScanState {
            hive: self.hive,
            path: string_views(self.path@),
            pending: self.pending@,
            pending_value: match self.pending_value {
                Some(pv) => Some(pv.model()),
                None => None,
            },
        }
    }

    pub fn new() -> (r: Scan)
        ensures
            r.model() == initial_scan(),
    {
        let r = Scan { hive: None, path: Vec::new(), pending: Vec::new(), pending_value: None };
        assert(string_views(r.path@) =~= Seq::<Seq<char>>::empty());
        r
    }
}

/// Why merging stopped early.
pub enum Halt {
    Error(RegistryError),
    /// A lone `"` stands where a quoted string is expected; the text
    /// cannot be merged.
    Panic,
}

/// The effect of a line outcome on the scanner, the registry and the result.
pub open spec fn line_effect(
    o: LineOutcome,
    st0: ScanState,
    st1: ScanState,
    m0: RegistryModel,
    m1: RegistryModel,
    mode: RegistryMergeMode,
    r: Result<(), Halt>,
) -> bool {
    match o {
        LineOutcome::Next(st2, None) => r is Ok && st1 == st2 && m1 == m0,
        LineOutcome::Next(st2, Some(a)) => r is Ok && st1 == st2 && m1 == assign(m0, a, mode),
        LineOutcome::Fail(e) => r matches Err(Halt::Error(err)) && err.model() == e && m1 == m0,
        LineOutcome::Panic => r matches Err(Halt::Panic) && m1 == m0,
    }
}

fn concat_chars(a: &[char], b: &[char]) -> (r: Vec<char>)
    ensures
        r@ == a@ + b@,
{
    let mut r = sub_chars(a, 0, a.len());
    let mut i: usize = 0;
    while i < b.len()
        invariant
            i <= b.len(),
            r@ == a@ + b@.subrange(0, i as int),
        decreases b.len() - i,
    {
        r.push(b[i]);
        i = i + 1;
        assert(r@ =~= a@ + b@.subrange(0, i as int));
    }
    assert(b@.subrange(0, b.len() as int) =~= b@);
    assert(a@.subrange(0, a.len() as int) =~= a@);
    r
}

fn strip_trailing_backslashes(s: &[char]) -> (r: Vec<char>)
    ensures
        r@ == strip_backslashes(s@),
{
    let mut j = s.len();
    assert(s@.subrange(0, j as int) =~= s@);
    while j > 0 && s[j - 1] == '\\'
        invariant
            j <= s.len(),
            strip_backslashes(s@) == strip_backslashes(s@.subrange(0, j as int)),
        decreases j,
    {
        assert(s@.subrange(0, j as int).drop_last() =~= s@.subrange(0, j - 1));
        j = j - 1;
    }
    sub_chars(s, 0, j)
}

fn starts_with_char(s: &[char], c: char) -> (r: bool)
    ensures
        r == starts_with(s@, seq![c]),
{
    let p = vec![c];
    assert(p@ =~= seq![c]);
    has_prefix(s, p.as_slice())
}

fn ends_with_char(s: &[char], c: char) -> (r: bool)
    ensures
        r == ends_with(s@, seq![c]),
{
    let p = vec![c];
    assert(p@ =~= seq![c]);
    has_suffix(s, p.as_slice())
}

/// Whether the trimmed text is a lone `"`.
fn lone_quote(s: &[char]) -> (r: bool)
    ensures
        r == is_lone_quote(trim(s@)),
{
    let t = trimmed(s);
    t.len() == 1 && t[0] == '"'
}

fn value_would_panic(v: &[char]) -> (r: bool)
    ensures
        r == value_panics(v@),
{
    let lowered_first = v.len() > 0 && crate::text::to_lower(v[0]) == '"';
    proof {
        if v.len() > 0 {
            assert(crate::text::lower_seq(v@).subrange(0, 1) =~= seq![crate::text::lower(v@[0])]);
        }
        if starts_with(crate::text::lower_seq(v@), seq!['"']) {
            assert(crate::text::lower_seq(v@).subrange(0, 1)[0] == crate::text::lower(v@[0]));
        }
    }
    lowered_first && lone_quote(v)
}

fn name_would_panic(n: &[char]) -> (r: bool)
    ensures
        r == name_panics(n@),
{
    let t = trimmed(n);
    !(is_lit(t.as_slice(), "@") || is_lit_ignore_case(t.as_slice(), "(default)")) && t.len() == 1 && t[0] == '"'
}

fn clone_strings(v: &Vec<String>) -> (r: Vec<String>)
    ensures
        string_views(r@) == string_views(v@),
{
    let mut r: Vec<String> = Vec::new();
    let mut i: usize = 0;
    while i < v.len()
        invariant
            i <= v.len(),
            string_views(r@) == string_views(v@).take(i as int),
        decreases v.len() - i,
    {
        let s = v[i].clone();
        let ghost before = r@;
        r.push(s);
        assert(string_views(r@) =~= string_views(before).push(s@));
        assert(string_views(v@)[i as int] == v@[i as int]@);
        assert(string_views(r@) =~= string_views(v@).take(i + 1));
        i = i + 1;
    }
    assert(string_views(v@).take(v.len() as int) =~= string_views(v@));
    r
}

fn store_value(
    reg: &mut Registry,
    hive: RegistryHive,
    path: &Vec<String>,
    name: &Option<String>,
    value: crate::registry::value::RegistryValue,
    mode: RegistryMergeMode,
)
    ensures
        final(reg)@ == assign(
            old(reg)@,
            Assignment { hive, path: string_views(path@), name: opt_str(*name), value: value.model() },
            mode,
        ),
{
    let n: Option<&str> = match name {
        Some(s) => Some(s.as_str()),
        None => None,
    };
    reg.apply_value(hive, path.as_slice(), n, value, mode);
}

/// A `name=value` line inside a section.
#[verifier::spinoff_prover]
fn assignment_exec(reg: &mut Registry, st: &mut Scan, full: &[char], mode: RegistryMergeMode) -> (r: Result<(), Halt>)
    requires
        old(st).pending_value is None,
        old(st).hive is Some,
    ensures
        line_effect(assignment(old(st).model(), full@), old(st).model(), final(st).model(), old(reg)@, final(reg)@, mode, r),
{
    let hive = st.hive.unwrap();
    let sep = match split_value_line(full) {
        None => {
            return Ok(());
        },
        Some(i) => i,
    };
    let name_raw = sub_chars(full, 0, sep);
    let value_raw = sub_chars(full, sep + 1, full.len());
    assert(split_line(full@) == Some((name_raw@, value_raw@)));
    if name_would_panic(name_raw.as_slice()) {
        return Err(Halt::Panic);
    }
    let name = match parse_value_name(name_raw.as_slice()) {
        Err(_) => {
            return Ok(());
        },
        Ok(n) => n,
    };
    assert(value_name(name_raw@) == Ok::<Option<Seq<char>>, ErrorModel>(opt_str(name)));
    if starts_with_char(value_raw.as_slice(), '"') && !is_complete_quoted_value(value_raw.as_slice()) {
        let path = clone_strings(&st.path);
        st.pending_value = Some(PendingValue { hive, path, name, value: value_raw });
        return Ok(());
    }
    if value_would_panic(value_raw.as_slice()) {
        return Err(Halt::Panic);
    }
    match parse_registry_value(value_raw.as_slice()) {
        Err(e) => Err(Halt::Error(e)),
        Ok(v) => {
            store_value(reg, hive, &st.path, &name, v, mode);
            Ok(())
        },
    }
}

/// A complete logical line.
fn statement_exec(reg: &mut Registry, st: &mut Scan, full: &[char], mode: RegistryMergeMode) -> (r: Result<(), Halt>)
    requires
        old(st).pending_value is None,
    ensures
        line_effect(statement(old(st).model(), full@), old(st).model(), final(st).model(), old(reg)@, final(reg)@, mode, r),
{
    if starts_with_char(full, '[') && ends_with_char(full, ']') {
        proof {
            assert(full@.subrange(0, 1)[0] == full@[0]);
            assert(full@.subrange(full@.len() - 1, full@.len() as int)[0] == full@[full@.len() - 1]);
            assert(full@.len() >= 2);
        }
        let inner = sub_chars(full, 1, full.len() - 1);
        return match parse_key_path(inner.as_slice()) {
            Err(e) => Err(Halt::Error(e)),
            Ok((h, p)) => {
                st.hive = Some(h);
                st.path = p;
                Ok(())
            },
        };
    }
    if st.hive.is_none() || starts_with_char(full, '[') {
        return Ok(());
    }
    assignment_exec(reg, st, full, mode)
}

/// A line read with no value pending (`line` is trimmed and not empty).
fn plain_line_exec(reg: &mut Registry, st: &mut Scan, line: &[char], mode: RegistryMergeMode) -> (r: Result<(), Halt>)
    requires
        old(st).pending_value is None,
    ensures
        line_effect(plain_line(old(st).model(), line@), old(st).model(), final(st).model(), old(reg)@, final(reg)@, mode, r),
{
    let ghost st0 = st.model();
    let header = chars_of("Windows Registry Editor");
    if has_prefix(line, header.as_slice()) || starts_with_char(line, ';') || starts_with_char(line, '#') {
        return Ok(());
    }
    if ends_with_char(line, '\\') {
        let stripped = strip_trailing_backslashes(line);
        let joined = concat_chars(st.pending.as_slice(), stripped.as_slice());
        st.pending = joined;
        return Ok(());
    }
    let full = if st.pending.len() > 0 {
        concat_chars(st.pending.as_slice(), line)
    } else {
        sub_chars(line, 0, line.len())
    };
    assert(line@.subrange(0, line.len() as int) =~= line@);
    st.pending = Vec::new();
    assert(st.model() == ScanState { pending: Seq::empty(), ..st0 });
    statement_exec(reg, st, full.as_slice(), mode)
}

/// A line following a pending quoted value (`line` is trimmed and not
/// empty); returns `None` where the line is read normally instead.
fn continue_pending_exec(reg: &mut Registry, st: &mut Scan, line: &[char], mode: RegistryMergeMode) -> (r: Option<Result<(), Halt>>)
    requires
        old(st).pending_value is Some,
    ensures
        match continue_pending(old(st).model().pending_value->0, line@, old(st).model()) {
            None => r is None && *final(st) == *old(st) && final(reg)@ == old(reg)@,
            Some(o) => r matches Some(res) && line_effect(o, old(st).model(), final(st).model(), old(reg)@, final(reg)@, mode, res),
        },
{
    if starts_with_char(line, '[') && ends_with_char(line, ']') {
        return None;
    }
    match split_value_line(line) {
        Some(i) => {
            let name_raw = sub_chars(line, 0, i);
            if is_registry_name(name_raw.as_slice()) {
                return None;
            }
        },
        None => {},
    }
    let mut pv = st.pending_value.take().unwrap();
    let nl = vec!['\n'];
    let v1 = concat_chars(pv.value.as_slice(), nl.as_slice());
    let v = concat_chars(v1.as_slice(), line);
    assert(nl@ =~= seq!['\n']);
    if utf8_length(v.as_slice()) > 262144 {
        return Some(Ok(()));
    }
    if is_complete_quoted_value(v.as_slice()) {
        if value_would_panic(v.as_slice()) {
            return Some(Err(Halt::Panic));
        }
        return match parse_registry_value(v.as_slice()) {
            Err(e) => Some(Err(Halt::Error(e))),
            Ok(val) => {
                store_value(reg, pv.hive, &pv.path, &pv.name, val, mode);
                Some(Ok(()))
            },
        };
    }
    pv.value = v;
    st.pending_value = Some(pv);
    Some(Ok(()))
}

/// One raw line of a `.reg` file.
pub fn scan_line_exec(reg: &mut Registry, st: &mut Scan, raw: &[char], mode: RegistryMergeMode) -> (r: Result<(), Halt>)
    ensures
        line_effect(scan_line(old(st).model(), raw@), old(st).model(), final(st).model(), old(reg)@, final(reg)@, mode, r),
        well_formed_model(final(reg)@),
{
    proof {
        use_type_invariant(&*reg);
        reg.lemma_inv_well_formed();
    }
    let line = trimmed(raw);
    if line.len() == 0 {
        return Ok(());
    }
    if st.pending_value.is_some() {
        match continue_pending_exec(reg, st, line.as_slice(), mode) {
            Some(res) => {
                proof {
                    use_type_invariant(&*reg);
                    reg.lemma_inv_well_formed();
                }
                return res;
            },
            None => {
                st.pending_value = None;
            },
        }
    }
    let r = plain_line_exec(reg, st, line.as_slice(), mode);
    proof {
        use_type_invariant(&*reg);
        reg.lemma_inv_well_formed();
    }
    r
}

proof fn lemma_run_stops(lines: Seq<Seq<char>>, i: int, m: RegistryModel, mode: RegistryMergeMode)
    requires
        0 <= i <= lines.len(),
        !(run_lines(lines.take(i), m, mode).0 is Done),
    ensures
        run_lines(lines, m, mode) == run_lines(lines.take(i), m, mode),
    decreases lines.len() - i,
{
    if i < lines.len() {
        assert(lines.take(i + 1).drop_last() =~= lines.take(i));
        lemma_run_stops(lines, i + 1, m, mode);
    } else {
        assert(lines.take(i) =~= lines);
    }
}

/// Merges the lines of `.reg` text into `reg`, stopping at the first error.
pub fn merge_reg_text(reg: &mut Registry, contents: &[char], mode: RegistryMergeMode) -> (r: Result<(), Halt>)
    ensures
        ({
            let (end, m) = merge_text(contents@, old(reg)@, mode);
            &&& final(reg)@ == m
            &&& match end {
                RunEnd::Done => r is Ok,
                RunEnd::Failed(e) => r matches Err(Halt::Error(err)) && err.model() == e,
                RunEnd::Panicked => r matches Err(Halt::Panic),
            }
        }),
        well_formed_model(final(reg)@),
{
    let lines = split_pieces(contents, '\n', '\n');
    let ghost ls = views(lines@);
    let ghost m0 = reg@;
    let mut st = Scan::new();
    let mut i: usize = 0;
    assert(ls.take(0) =~= Seq::<Seq<char>>::empty());
    while i < lines.len()
        invariant
            ls == views(lines@),
            ls == text_lines(contents@),
            m0 == old(reg)@,
            i <= lines.len(),
            run_lines(ls.take(i as int), m0, mode) == (RunEnd::Done, st.model(), reg@),
        decreases lines.len() - i,
    {
        assert(ls.take(i + 1).drop_last() =~= ls.take(i as int));
        assert(ls.take(i + 1).last() == lines@[i as int]@);
        let ghost st0 = st.model();
        let ghost reg0 = reg@;
        let res = scan_line_exec(reg, &mut st, lines[i].as_slice(), mode);
        match res {
            Ok(()) => {},
            Err(h) => {
                proof {
                    let o = scan_line(st0, ls.take(i + 1).last());
                    match o {
                        LineOutcome::Fail(e) => {
                            assert(run_lines(ls.take(i + 1), m0, mode) == (RunEnd::Failed(e), st0, reg0));
                            lemma_run_stops(ls, i + 1, m0, mode);
                            assert(merge_text(contents@, m0, mode).0 == RunEnd::Failed(e));
                        },
                        LineOutcome::Panic => {
                            assert(run_lines(ls.take(i + 1), m0, mode) == (RunEnd::Panicked, st0, reg0));
                            lemma_run_stops(ls, i + 1, m0, mode);
                            assert(merge_text(contents@, m0, mode).0 == RunEnd::Panicked);
                        },
                        _ => {
                            assert(false);
                        },
                    }
                    assert(merge_text(contents@, m0, mode).1 == reg@);
                }
                return Err(h);
            },
        }
        i = i + 1;
    }
    assert(ls.take(lines.len() as int) =~= ls);
    proof {
        use_type_invariant(&*reg);
        reg.lemma_inv_well_formed();
    }
    Ok(())
}

/// Whether merging the text would reach input that the parser slices
/// wrongly (a lone `"` where a quoted string is expected).
pub open spec fn merge_panics(text: Seq<char>, m: RegistryModel, mode: RegistryMergeMode) -> bool {
    merge_text(text, m, mode).0 is Panicked
}

/// Merges `.reg` text into `registry`, stopping at the first error; values
/// stored before the error stay.
pub fn merge_reg_str(registry: &mut Registry, contents: &str, mode: RegistryMergeMode) -> (r: Result<(), RegistryError>)
    requires
        !merge_panics(contents@, old(registry)@, mode),
    ensures
        ({
            let (end, m) = merge_text(contents@, old(registry)@, mode);
            &&& final(registry)@ == m
            &&& match end {
                RunEnd::Failed(e) => r matches Err(err) && err.model() == e,
                _ => r is Ok,
            }
        }),
        well_formed_model(final(registry)@),
{
    let cs = chars_of(contents);
    let r = match merge_reg_text(registry, cs.as_slice(), mode) {
        Ok(()) => Ok(()),
        Err(Halt::Error(e)) => Err(e),
        Err(Halt::Panic) => Ok(()),
    };
    proof {
        use_type_invariant(&*registry);
        registry.lemma_inv_well_formed();
    }
    r
}

} // verus!
