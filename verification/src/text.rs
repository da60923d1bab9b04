//! Character and string helpers shared by the parsers.

use vstd::prelude::*;

verus! {

/// Unicode `White_Space` property, the set that `char::is_whitespace` tests.
pub open spec fn is_ws(c: char) -> bool {
    ||| c == '\t' || c == '\n' || c == '\u{0B}' || c == '\u{0C}' || c == '\r' || c == ' '
    ||| c == '\u{85}' || c == '\u{A0}' || c == '\u{1680}'
    ||| ('\u{2000}' <= c && c <= '\u{200A}')
    ||| c == '\u{2028}' || c == '\u{2029}' || c == '\u{202F}' || c == '\u{205F}' || c == '\u{3000}'
}

/// The sequence without its leading whitespace.
pub open spec fn trim_start(s: Seq<char>) -> Seq<char>
    decreases s.len(),
{
    if s.len() > 0 && is_ws(s[0]) {
        trim_start(s.drop_first())
    } else {
        s
    }
}

/// The sequence without its trailing whitespace.
pub open spec fn trim_end(s: Seq<char>) -> Seq<char>
    decreases s.len(),
{
    if s.len() > 0 && is_ws(s.last()) {
        trim_end(s.drop_last())
    } else {
        s
    }
}

/// The sequence without leading and trailing whitespace (`str::trim`).
pub open spec fn trim(s: Seq<char>) -> Seq<char> {
    trim_end(trim_start(s))
}

/// ASCII upper-casing of one character (`char::to_ascii_uppercase`).
pub open spec fn upper(c: char) -> char {
    if 'a' <= c && c <= 'z' {
        ((c as u32) - 32) as char
    } else {
        c
    }
}

/// ASCII lower-casing of one character (`char::to_ascii_lowercase`).
pub open spec fn lower(c: char) -> char {
    if 'A' <= c && c <= 'Z' {
        ((c as u32) + 32) as char
    } else {
        c
    }
}

/// ASCII upper-casing of a string (`str::to_ascii_uppercase`).
pub open spec fn upper_seq(s: Seq<char>) -> Seq<char> {
    s.map_values(|c: char| upper(c))
}

/// Upper-casing an upper-cased string changes nothing.
pub proof fn lemma_upper_idempotent(s: Seq<char>)
    ensures
        upper_seq(upper_seq(s)) == upper_seq(s),
{
    assert forall|i: int| 0 <= i < s.len() implies #[trigger] upper(upper(s[i])) == upper(s[i]) by {
        let c = s[i];
        if 'a' <= c && c <= 'z' {
            assert(upper(c) as u32 == c as u32 - 32);
        }
    }
    assert(upper_seq(upper_seq(s)) =~= upper_seq(s));
}

/// ASCII lower-casing of a string (`str::to_ascii_lowercase`).
pub open spec fn lower_seq(s: Seq<char>) -> Seq<char> {
    s.map_values(|c: char| lower(c))
}

/// Equality up to ASCII case (`str::eq_ignore_ascii_case`).
pub open spec fn eq_ignore_case(a: Seq<char>, b: Seq<char>) -> bool {
    upper_seq(a) == upper_seq(b)
}

pub open spec fn starts_with(s: Seq<char>, p: Seq<char>) -> bool {
    p.len() <= s.len() && s.subrange(0, p.len() as int) == p
}

pub open spec fn ends_with(s: Seq<char>, p: Seq<char>) -> bool {
    p.len() <= s.len() && s.subrange(s.len() - p.len(), s.len() as int) == p
}

pub fn is_whitespace(c: char) -> (b: bool)
    ensures
        b == is_ws(c),
{
    c == '\t' || c == '\n' || c == '\u{0B}' || c == '\u{0C}' || c == '\r' || c == ' '
        || c == '\u{85}' || c == '\u{A0}' || c == '\u{1680}' || ('\u{2000}' <= c && c
        <= '\u{200A}') || c == '\u{2028}' || c == '\u{2029}' || c == '\u{202F}' || c
        == '\u{205F}' || c == '\u{3000}'
}

pub fn to_upper(c: char) -> (r: char)
    ensures
        r == upper(c),
{
    if 'a' <= c && c <= 'z' {
        let b: u8 = (c as u8) - 32;
        assert((c as u32) < 256);
        b as char
    } else {
        c
    }
}


pub fn to_lower(c: char) -> (r: char)
    ensures
        r == lower(c),
{
    if 'A' <= c && c <= 'Z' {
        let b: u8 = (c as u8) + 32;
        assert((c as u32) < 256);
        b as char
    } else {
        c
    }
}

/// The characters of a string slice, in order.
pub fn chars_of(s: &str) -> (v: Vec<char>)
    ensures
        v@ == s@,
{
    let n = s.unicode_len();
    let mut v: Vec<char> = Vec::new();
    let mut i: usize = 0;
    while i < n
        invariant
            n == s@.len(),
            i <= n,
            v@ == s@.subrange(0, i as int),
        decreases n - i,
    {
        v.push(s.get_char(i));
        i = i + 1;
        assert(v@ =~= s@.subrange(0, i as int));
    }
    assert(v@ =~= s@);
    v
}

/// Appends one character (`String::push`).
#[verifier::external_body]
pub(crate) fn push_char(s: &mut String, c: char)
    ensures
        final(s)@ == old(s)@.push(c),
{
    s.push(c)
}

/// A `String` holding the given characters.
pub fn string_from(cs: &[char]) -> (s: String)
    ensures
        s@ == cs@,
{
    let mut s = String::new();
    let mut i: usize = 0;
    while i < cs.len()
        invariant
            i <= cs.len(),
            s@ == cs@.subrange(0, i as int),
        decreases cs.len() - i,
    {
        push_char(&mut s, cs[i]);
        i = i + 1;
        assert(s@ =~= cs@.subrange(0, i as int));
    }
    assert(cs@ =~= cs@.subrange(0, cs@.len() as int));
    s
}

/// The characters `cs[from..to]` as a new vector.
pub fn sub_chars(cs: &[char], from: usize, to: usize) -> (v: Vec<char>)
    requires
        from <= to <= cs.len(),
    ensures
        v@ == cs@.subrange(from as int, to as int),
{
    let mut v: Vec<char> = Vec::new();
    let mut i = from;
    while i < to
        invariant
            from <= i <= to <= cs.len(),
            v@ == cs@.subrange(from as int, i as int),
        decreases to - i,
    {
        v.push(cs[i]);
        i = i + 1;
        assert(v@ =~= cs@.subrange(from as int, i as int));
    }
    v
}

proof fn lemma_trim_start_step(s: Seq<char>, i: int)
    requires
        0 <= i < s.len(),
        is_ws(s[i]),
    ensures
        trim_start(s.subrange(i, s.len() as int)) == trim_start(s.subrange(i + 1, s.len() as int)),
{
    assert(s.subrange(i, s.len() as int).drop_first() =~= s.subrange(i + 1, s.len() as int));
}

proof fn lemma_trim_end_step(s: Seq<char>, j: int)
    requires
        0 < j <= s.len(),
        is_ws(s[j - 1]),
    ensures
        trim_end(s.subrange(0, j)) == trim_end(s.subrange(0, j - 1)),
{
    assert(s.subrange(0, j).drop_last() =~= s.subrange(0, j - 1));
}

/// Bounds of the text that `str::trim` keeps.
pub fn trim_bounds(cs: &[char]) -> (r: (usize, usize))
    ensures
        r.0 <= r.1 <= cs.len(),
        cs@.subrange(r.0 as int, r.1 as int) == trim(cs@),
        trim_start(cs@) == cs@.subrange(r.0 as int, cs.len() as int),
{
    let n = cs.len();
    let mut i: usize = 0;
    assert(cs@.subrange(0, n as int) =~= cs@);
    while i < n && is_whitespace(cs[i])
        invariant
            i <= n == cs.len(),
            trim_start(cs@) == trim_start(cs@.subrange(i as int, n as int)),
        decreases n - i,
    {
        proof {
            lemma_trim_start_step(cs@, i as int);
        }
        i = i + 1;
    }
    let ghost t = cs@.subrange(i as int, n as int);
    assert(trim_start(t) == t);
    let mut j: usize = n;
    assert(t.subrange(0, (j - i) as int) =~= t);
    while j > i && is_whitespace(cs[j - 1])
        invariant
            i <= j <= n == cs.len(),
            t == cs@.subrange(i as int, n as int),
            trim_end(t) == trim_end(t.subrange(0, (j - i) as int)),
        decreases j,
    {
        proof {
            lemma_trim_end_step(t, (j - i) as int);
            assert(t.subrange(0, (j - i) as int).subrange(0, (j - i - 1) as int) =~= t.subrange(
                0,
                (j - i - 1) as int,
            ));
        }
        j = j - 1;
    }
    let ghost u = t.subrange(0, (j - i) as int);
    assert(trim_end(u) == u);
    assert(u =~= cs@.subrange(i as int, j as int));
    (i, j)
}

/// `s.trim()` as characters.
pub fn trimmed(cs: &[char]) -> (v: Vec<char>)
    ensures
        v@ == trim(cs@),
{
    let (a, b) = trim_bounds(cs);
    sub_chars(cs, a, b)
}

/// `s.to_ascii_uppercase()` as characters.
pub fn upper_chars(cs: &[char]) -> (v: Vec<char>)
    ensures
        v@ == upper_seq(cs@),
{
    let mut v: Vec<char> = Vec::new();
    let mut i: usize = 0;
    while i < cs.len()
        invariant
            i <= cs.len(),
            v@ == upper_seq(cs@.subrange(0, i as int)),
        decreases cs.len() - i,
    {
        v.push(to_upper(cs[i]));
        i = i + 1;
        assert(upper_seq(cs@.subrange(0, i as int)) =~= v@);
    }
    assert(cs@.subrange(0, cs@.len() as int) =~= cs@);
    v
}

/// Character-wise equality of two character slices.
pub fn chars_eq(a: &[char], b: &[char]) -> (r: bool)
    ensures
        r == (a@ == b@),
{
    if a.len() != b.len() {
        return false;
    }
    let mut i: usize = 0;
    while i < a.len()
        invariant
            a.len() == b.len(),
            i <= a.len(),
            forall|k: int| 0 <= k < i ==> a@[k] == b@[k],
        decreases a.len() - i,
    {
        if a[i] != b[i] {
            return false;
        }
        i = i + 1;
    }
    assert(a@ =~= b@);
    true
}

/// Equality up to ASCII case (`eq_ignore_ascii_case`).
pub fn eq_ignore_ascii_case(a: &[char], b: &[char]) -> (r: bool)
    ensures
        r == eq_ignore_case(a@, b@),
{
    if a.len() != b.len() {
        assert(upper_seq(a@).len() != upper_seq(b@).len());
        return false;
    }
    let mut i: usize = 0;
    while i < a.len()
        invariant
            a.len() == b.len(),
            i <= a.len(),
            forall|k: int| 0 <= k < i ==> upper(a@[k]) == upper(b@[k]),
        decreases a.len() - i,
    {
        if to_upper(a[i]) != to_upper(b[i]) {
            assert(upper_seq(a@)[i as int] != upper_seq(b@)[i as int]);
            return false;
        }
        i = i + 1;
    }
    assert(upper_seq(a@) =~= upper_seq(b@));
    true
}

/// Whether `s` begins with `p`.
pub fn has_prefix(s: &[char], p: &[char]) -> (r: bool)
    ensures
        r == starts_with(s@, p@),
{
    if p.len() > s.len() {
        return false;
    }
    let mut i: usize = 0;
    while i < p.len()
        invariant
            p.len() <= s.len(),
            i <= p.len(),
            forall|k: int| 0 <= k < i ==> s@[k] == p@[k],
        decreases p.len() - i,
    {
        if s[i] != p[i] {
            assert(s@.subrange(0, p.len() as int)[i as int] != p@[i as int]);
            return false;
        }
        i = i + 1;
    }
    assert(s@.subrange(0, p.len() as int) =~= p@);
    true
}

/// Whether `s` ends with `p`.
pub fn has_suffix(s: &[char], p: &[char]) -> (r: bool)
    ensures
        r == ends_with(s@, p@),
{
    if p.len() > s.len() {
        return false;
    }
    let off = s.len() - p.len();
    let mut i: usize = 0;
    while i < p.len()
        invariant
            p.len() <= s.len(),
            off == s.len() - p.len(),
            i <= p.len(),
            forall|k: int| 0 <= k < i ==> s@[off + k] == p@[k],
        decreases p.len() - i,
    {
        if s[off + i] != p[i] {
            assert(s@.subrange(off as int, s.len() as int)[i as int] != p@[i as int]);
            return false;
        }
        i = i + 1;
    }
    assert(s@.subrange(off as int, s.len() as int) =~= p@);
    true
}


/// Views of a sequence of character vectors.
pub open spec fn views(v: Seq<Vec<char>>) -> Seq<Seq<char>> {
    v.map_values(|p: Vec<char>| p@)
}

/// Views of a sequence of strings.
pub open spec fn string_views(v: Seq<String>) -> Seq<Seq<char>> {
    v.map_values(|p: String| p@)
}

/// Whether `c` is one of the two separators `a` and `b`.
pub open spec fn is_sep(c: char, a: char, b: char) -> bool {
    c == a || c == b
}

/// Left-to-right scan of `s` for `str::split`: the pieces closed so far
/// and the piece still open.
pub open spec fn split_scan(s: Seq<char>, a: char, b: char) -> (Seq<Seq<char>>, Seq<char>)
    decreases s.len(),
{
    if s.len() == 0 {
        (Seq::empty(), Seq::empty())
    } else {
        let (done, cur) = split_scan(s.drop_last(), a, b);
        if is_sep(s.last(), a, b) {
            (done.push(cur), Seq::empty())
        } else {
            (done, cur.push(s.last()))
        }
    }
}

/// The pieces between separators, empty ones included (`str::split`).
pub open spec fn split_all(s: Seq<char>, a: char, b: char) -> Seq<Seq<char>> {
    split_scan(s, a, b).0.push(split_scan(s, a, b).1)
}

/// Predicate selecting non-empty pieces.
pub open spec fn nonempty() -> spec_fn(Seq<char>) -> bool {
    |p: Seq<char>| p.len() > 0
}

/// The non-empty pieces between separators.
pub open spec fn split_nonempty(s: Seq<char>, a: char, b: char) -> Seq<Seq<char>> {
    split_all(s, a, b).filter(nonempty())
}

/// All pieces of `cs` between characters equal to `a` or `b` (`str::split`).
pub fn split_pieces(cs: &[char], a: char, b: char) -> (r: Vec<Vec<char>>)
    ensures
        views(r@) == split_all(cs@, a, b),
{
    let mut done: Vec<Vec<char>> = Vec::new();
    let mut cur: Vec<char> = Vec::new();
    let mut i: usize = 0;
    while i < cs.len()
        invariant
            i <= cs.len(),
            (views(done@), cur@) == split_scan(cs@.subrange(0, i as int), a, b),
        decreases cs.len() - i,
    {
        let ghost pre = cs@.subrange(0, i as int);
        assert(cs@.subrange(0, i + 1).drop_last() =~= pre);
        let c = cs[i];
        if c == a || c == b {
            let piece = cur;
            cur = Vec::new();
            done.push(piece);
            assert(views(done@) =~= split_scan(pre, a, b).0.push(piece@));
        } else {
            cur.push(c);
        }
        i = i + 1;
    }
    assert(cs@.subrange(0, cs.len() as int) =~= cs@);
    let last = cur;
    done.push(last);
    assert(views(done@) =~= split_all(cs@, a, b));
    done
}

/// The non-empty pieces of `cs` between characters equal to `a` or `b`.
pub fn split_nonempty_pieces(cs: &[char], a: char, b: char) -> (r: Vec<Vec<char>>)
    ensures
        views(r@) == split_nonempty(cs@, a, b),
{
    let mut done: Vec<Vec<char>> = Vec::new();
    let mut cur: Vec<char> = Vec::new();
    let mut i: usize = 0;
    while i < cs.len()
        invariant
            i <= cs.len(),
            views(done@) == split_scan(cs@.subrange(0, i as int), a, b).0.filter(nonempty()),
            cur@ == split_scan(cs@.subrange(0, i as int), a, b).1,
        decreases cs.len() - i,
    {
        let ghost pre = cs@.subrange(0, i as int);
        assert(cs@.subrange(0, i + 1).drop_last() =~= pre);
        let c = cs[i];
        if c == a || c == b {
            proof {
                split_scan(pre, a, b).0.lemma_filter_push(cur@, nonempty());
            }
            let piece = cur;
            cur = Vec::new();
            if piece.len() > 0 {
                done.push(piece);
                assert(views(done@) =~= split_scan(pre, a, b).0.filter(nonempty()).push(piece@));
            }
        } else {
            cur.push(c);
        }
        i = i + 1;
    }
    assert(cs@.subrange(0, cs.len() as int) =~= cs@);
    proof {
        split_scan(cs@, a, b).0.lemma_filter_push(cur@, nonempty());
    }
    if cur.len() > 0 {
        let last = cur;
        done.push(last);
        assert(views(done@) =~= split_scan(cs@, a, b).0.filter(nonempty()).push(last@));
    }
    done
}

/// Index of the first occurrence of `c` in `s`, if any.
pub open spec fn find_char(s: Seq<char>, c: char) -> Option<int> {
    if exists|i: int| 0 <= i < s.len() && s[i] == c {
        Some(choose|i: int| 0 <= i < s.len() && s[i] == c && forall|k: int| 0 <= k < i ==> s[k] != c)
    } else {
        None
    }
}

/// Characterises `find_char` by the position it gives.
pub proof fn lemma_find_char(s: Seq<char>, c: char, i: int)
    requires
        0 <= i <= s.len(),
        forall|k: int| 0 <= k < i ==> s[k] != c,
    ensures
        i < s.len() && s[i] == c ==> find_char(s, c) == Some(i),
        i == s.len() ==> find_char(s, c) is None,
{
    if i < s.len() && s[i] == c {
        assert(exists|j: int| 0 <= j < s.len() && s[j] == c && forall|k: int| 0 <= k < j ==> s[k] != c);
        let j = choose|j: int| 0 <= j < s.len() && s[j] == c && forall|k: int| 0 <= k < j ==> s[k] != c;
        if j < i {
            assert(s[j] != c);
        }
        if i < j {
            assert(s[i] != c);
        }
    }
}

/// Position of the first `c` in `cs`.
pub fn find_first(cs: &[char], c: char) -> (r: Option<usize>)
    ensures
        match r {
            Some(i) => i < cs.len() && cs@[i as int] == c && find_char(cs@, c) == Some(i as int),
            None => find_char(cs@, c) is None,
        },
{
    let mut i: usize = 0;
    while i < cs.len()
        invariant
            i <= cs.len(),
            forall|k: int| 0 <= k < i ==> cs@[k] != c,
        decreases cs.len() - i,
    {
        if cs[i] == c {
            proof {
                lemma_find_char(cs@, c, i as int);
            }
            return Some(i);
        }
        i = i + 1;
    }
    proof {
        lemma_find_char(cs@, c, i as int);
    }
    None
}

/// Whether `cs` holds exactly the characters of `lit`.
pub fn is_lit(cs: &[char], lit: &str) -> (r: bool)
    ensures
        r == (cs@ == lit@),
{
    let l = chars_of(lit);
    chars_eq(cs, l.as_slice())
}

/// Whether `cs` equals `lit` up to ASCII case.
pub fn is_lit_ignore_case(cs: &[char], lit: &str) -> (r: bool)
    ensures
        r == eq_ignore_case(cs@, lit@),
{
    let l = chars_of(lit);
    eq_ignore_ascii_case(cs, l.as_slice())
}

/// An owned copy of a string literal.
pub fn owned(lit: &str) -> (s: String)
    ensures
        s@ == lit@,
{
    lit.to_owned()
}

/// Lexicographic order of code points, which is also the byte order of
/// the UTF-8 encodings (the order of `String`).
pub open spec fn lex_lt(a: Seq<char>, b: Seq<char>) -> bool
    decreases a.len(),
{
    if a.len() == 0 {
        b.len() > 0
    } else if b.len() == 0 {
        false
    } else if a[0] < b[0] {
        true
    } else if a[0] == b[0] {
        lex_lt(a.drop_first(), b.drop_first())
    } else {
        false
    }
}

pub proof fn lemma_lex_irreflexive(a: Seq<char>)
    ensures
        !lex_lt(a, a),
    decreases a.len(),
{
    if a.len() > 0 {
        lemma_lex_irreflexive(a.drop_first());
    }
}

pub proof fn lemma_lex_transitive(a: Seq<char>, b: Seq<char>, c: Seq<char>)
    requires
        lex_lt(a, b),
        lex_lt(b, c),
    ensures
        lex_lt(a, c),
    decreases a.len(),
{
    if a.len() > 0 && b.len() > 0 && c.len() > 0 && a[0] == b[0] && b[0] == c[0] {
        lemma_lex_transitive(a.drop_first(), b.drop_first(), c.drop_first());
    }
}

pub proof fn lemma_lex_total(a: Seq<char>, b: Seq<char>)
    ensures
        a == b || lex_lt(a, b) || lex_lt(b, a),
    decreases a.len(),
{
    if a.len() > 0 && b.len() > 0 && a[0] == b[0] {
        lemma_lex_total(a.drop_first(), b.drop_first());
        if a.drop_first() == b.drop_first() {
            assert(a =~= seq![a[0]] + a.drop_first());
            assert(b =~= seq![b[0]] + b.drop_first());
        }
    } else if a.len() == 0 && b.len() == 0 {
        assert(a =~= b);
    } else if a.len() > 0 && b.len() > 0 {
        if a[0] < b[0] {
            assert(lex_lt(a, b));
        } else {
            assert(lex_lt(b, a));
        }
    }
}

/// `lex_lt(a@, b@)`, decided.
pub fn chars_lt(a: &[char], b: &[char]) -> (r: bool)
    ensures
        r == lex_lt(a@, b@),
{
    let mut i: usize = 0;
    assert(a@.skip(0) =~= a@);
    assert(b@.skip(0) =~= b@);
    loop
        invariant
            i <= a.len(),
            i <= b.len(),
            lex_lt(a@, b@) == lex_lt(a@.skip(i as int), b@.skip(i as int)),
        decreases a.len() - i,
    {
        if i == a.len() {
            return i < b.len();
        }
        if i == b.len() {
            return false;
        }
        assert(a@.skip(i as int)[0] == a@[i as int]);
        assert(b@.skip(i as int)[0] == b@[i as int]);
        if a[i] < b[i] {
            return true;
        }
        if a[i] != b[i] {
            return false;
        }
        assert(a@.skip(i as int).drop_first() =~= a@.skip(i + 1));
        assert(b@.skip(i as int).drop_first() =~= b@.skip(i + 1));
        i = i + 1;
    }
}

/// Strictly increasing in `lex_lt`.
pub open spec fn sorted_strict(s: Seq<Seq<char>>) -> bool {
    forall|i: int, j: int| 0 <= i < j < s.len() ==> lex_lt(#[trigger] s[i], #[trigger] s[j])
}

/// Inserts `x` into a strictly sorted list that lacks it.
pub fn insert_sorted(v: &mut Vec<String>, x: String)
    requires
        sorted_strict(string_views(old(v)@)),
        !string_views(old(v)@).contains(x@),
    ensures
        sorted_strict(string_views(final(v)@)),
        forall|c: Seq<char>| #[trigger] string_views(final(v)@).contains(c) <==> (string_views(old(v)@).contains(c) || c == x@),
{
    let ghost s = string_views(v@);
    let xc = chars_of(x.as_str());
    let mut i: usize = 0;
    while i < v.len()
        invariant
            s == string_views(v@),
            i <= v.len(),
            forall|k: int| 0 <= k < i ==> lex_lt(#[trigger] s[k], x@),
            xc@ == x@,
            !s.contains(x@),
        ensures
            i == v.len() || lex_lt(x@, s[i as int]),
        decreases v.len() - i,
    {
        let vc = chars_of(v[i].as_str());
        assert(s[i as int] == v@[i as int]@);
        assert(vc@ == s[i as int]);
        if chars_lt(xc.as_slice(), vc.as_slice()) {
            break;
        }
        proof {
            lemma_lex_total(x@, s[i as int]);
            if x@ == s[i as int] {
                assert(s.contains(x@));
            }
            assert(lex_lt(s[i as int], x@));
        }
        i = i + 1;
    }
    // Every element from `i` on is above `x`.
    proof {
        assert forall|k: int| i <= k < s.len() implies lex_lt(x@, #[trigger] s[k]) by {
            if k > i {
                lemma_lex_transitive(x@, s[i as int], s[k]);
            }
        }
    }
    let ghost old_v = v@;
    v.insert(i, x);
    proof {
        let t = string_views(v@);
        assert(t =~= s.insert(i as int, x@));
        assert forall|a: int, b: int| 0 <= a < b < t.len() implies lex_lt(#[trigger] t[a], #[trigger] t[b]) by {
            if b < i {
            } else if a < i && b == i {
            } else if a < i {
                assert(t[b] == s[b - 1]);
                lemma_lex_transitive(s[a], x@, s[b - 1]);
            } else if a == i {
                assert(t[b] == s[b - 1]);
            } else {
                assert(t[a] == s[a - 1] && t[b] == s[b - 1]);
            }
        }
        assert forall|c: Seq<char>| #[trigger] t.contains(c) <==> (s.contains(c) || c == x@) by {
            if t.contains(c) {
                let k = choose|k: int| 0 <= k < t.len() && t[k] == c;
                if k < i {
                    assert(s[k] == c);
                } else if k > i {
                    assert(s[k - 1] == c);
                }
            }
            if s.contains(c) {
                let k = choose|k: int| 0 <= k < s.len() && s[k] == c;
                if k < i {
                    assert(t[k] == c);
                } else {
                    assert(t[k + 1] == c);
                }
            }
            if c == x@ {
                assert(t[i as int] == c);
            }
        }
    }
}

/// Bytes that a character takes in UTF-8.
pub open spec fn utf8_width(c: char) -> nat {
    if (c as u32) < 0x80 {
        1
    } else if (c as u32) < 0x800 {
        2
    } else if (c as u32) < 0x10000 {
        3
    } else {
        4
    }
}

/// Bytes that a character takes in UTF-16.
pub open spec fn utf16_width(c: char) -> nat {
    if (c as u32) < 0x10000 {
        2
    } else {
        4
    }
}

/// Length in bytes of the UTF-8 encoding (`str::len`).
pub open spec fn utf8_len(s: Seq<char>) -> nat
    decreases s.len(),
{
    if s.len() == 0 {
        0
    } else {
        utf8_len(s.drop_last()) + utf8_width(s.last())
    }
}

/// Number of UTF-16 code units (`str::encode_utf16().count()`).
pub open spec fn utf16_units(s: Seq<char>) -> nat
    decreases s.len(),
{
    if s.len() == 0 {
        0
    } else {
        utf16_units(s.drop_last()) + utf16_width(s.last()) / 2
    }
}

proof fn lemma_utf8_len_bound(s: Seq<char>)
    ensures
        utf8_len(s) <= 4 * s.len(),
    decreases s.len(),
{
    if s.len() > 0 {
        lemma_utf8_len_bound(s.drop_last());
    }
}

proof fn lemma_utf16_units_bound(s: Seq<char>)
    ensures
        utf16_units(s) <= 2 * s.len(),
    decreases s.len(),
{
    if s.len() > 0 {
        lemma_utf16_units_bound(s.drop_last());
    }
}

/// UTF-8 length of `cs`, or `usize::MAX` where it does not fit.
pub fn utf8_length(cs: &[char]) -> (r: usize)
    ensures
        r == if utf8_len(cs@) <= usize::MAX { utf8_len(cs@) as int } else { usize::MAX as int },
{
    let mut n: usize = 0;
    let mut i: usize = 0;
    while i < cs.len()
        invariant
            i <= cs.len(),
            n == if utf8_len(cs@.take(i as int)) <= usize::MAX { utf8_len(cs@.take(i as int)) as int } else { usize::MAX as int },
        decreases cs.len() - i,
    {
        let c = cs[i];
        let w: usize = if (c as u32) < 0x80 {
            1
        } else if (c as u32) < 0x800 {
            2
        } else if (c as u32) < 0x10000 {
            3
        } else {
            4
        };
        assert(cs@.take(i + 1).drop_last() =~= cs@.take(i as int));
        n = n.saturating_add(w);
        i = i + 1;
    }
    assert(cs@.take(cs.len() as int) =~= cs@);
    n
}

/// UTF-16 unit count of `cs`, or `usize::MAX` where it does not fit.
pub fn utf16_length(cs: &[char]) -> (r: usize)
    ensures
        r == if utf16_units(cs@) <= usize::MAX { utf16_units(cs@) as int } else { usize::MAX as int },
{
    let mut n: usize = 0;
    let mut i: usize = 0;
    while i < cs.len()
        invariant
            i <= cs.len(),
            n == if utf16_units(cs@.take(i as int)) <= usize::MAX { utf16_units(cs@.take(i as int)) as int } else { usize::MAX as int },
        decreases cs.len() - i,
    {
        let c = cs[i];
        let w: usize = if (c as u32) < 0x10000 { 1 } else { 2 };
        assert(cs@.take(i + 1).drop_last() =~= cs@.take(i as int));
        n = n.saturating_add(w);
        i = i + 1;
    }
    assert(cs@.take(cs.len() as int) =~= cs@);
    n
}

pub proof fn lemma_trim_start_idempotent(s: Seq<char>)
    ensures
        trim_start(trim_start(s)) == trim_start(s),
    decreases s.len(),
{
    if s.len() > 0 && is_ws(s[0]) {
        lemma_trim_start_idempotent(s.drop_first());
    }
}

pub proof fn lemma_trim_end_idempotent(s: Seq<char>)
    ensures
        trim_end(trim_end(s)) == trim_end(s),
    decreases s.len(),
{
    if s.len() > 0 && is_ws(s.last()) {
        lemma_trim_end_idempotent(s.drop_last());
    }
}

proof fn lemma_trim_start_len(s: Seq<char>)
    ensures
        trim_start(s).len() <= s.len(),
    decreases s.len(),
{
    if s.len() > 0 && is_ws(s[0]) {
        lemma_trim_start_len(s.drop_first());
    }
}

proof fn lemma_trim_end_keeps_start(s: Seq<char>)
    requires
        trim_start(s) == s,
    ensures
        trim_start(trim_end(s)) == trim_end(s),
    decreases s.len(),
{
    if s.len() > 0 {
        if is_ws(s[0]) {
            lemma_trim_start_len(s.drop_first());
            assert(false);
        }
    }
    if s.len() > 0 && is_ws(s.last()) {
        assert(trim_start(s.drop_last()) == s.drop_last()) by {
            if s.drop_last().len() > 0 {
                assert(s.drop_last()[0] == s[0]);
            }
        }
        lemma_trim_end_keeps_start(s.drop_last());
    }
}

/// Trimming twice trims once.
pub proof fn lemma_trim_idempotent(s: Seq<char>)
    ensures
        trim(trim(s)) == trim(s),
{
    lemma_trim_start_idempotent(s);
    lemma_trim_end_keeps_start(trim_start(s));
    lemma_trim_end_idempotent(trim_start(s));
}

} // verus!
