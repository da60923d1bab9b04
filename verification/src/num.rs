//! Number parsing (`from_str_radix`) and UTF-16 decoding.

use vstd::prelude::*;

use crate::text::push_char;

verus! {

/// The value of a digit in the given radix (2 to 36), if it is one.
pub open spec fn digit_value(c: char, radix: nat) -> Option<nat> {
    let v: int = if '0' <= c && c <= '9' {
        (c as u32) - ('0' as u32)
    } else if 'a' <= c && c <= 'z' {
        (c as u32) - ('a' as u32) + 10
    } else if 'A' <= c && c <= 'Z' {
        (c as u32) - ('A' as u32) + 10
    } else {
        99
    };
    if v < radix {
        Some(v as nat)
    } else {
        None
    }
}

pub open spec fn all_digits(d: Seq<char>, radix: nat) -> bool {
    forall|i: int| 0 <= i < d.len() ==> (#[trigger] digit_value(d[i], radix)) is Some
}

/// The number that a string of digits denotes.
pub open spec fn digits_value(d: Seq<char>, radix: nat) -> nat
    decreases d.len(),
{
    if d.len() == 0 {
        0
    } else {
        digits_value(d.drop_last(), radix) * radix + digit_value(d.last(), radix).unwrap_or(0)
    }
}

/// What `from_str_radix` gives for an unsigned type whose largest value
/// is `max`: an optional `+`, then at least one digit, and no overflow.
pub open spec fn str_radix(s: Seq<char>, radix: nat, max: nat) -> Option<nat> {
    let d = if s.len() > 0 && s[0] == '+' { s.drop_first() } else { s };
    if d.len() > 0 && all_digits(d, radix) && digits_value(d, radix) <= max {
        Some(digits_value(d, radix))
    } else {
        None
    }
}

proof fn lemma_digits_monotone(d: Seq<char>, i: int, radix: nat)
    requires
        0 <= i <= d.len(),
        radix >= 1,
    ensures
        digits_value(d.take(i), radix) <= digits_value(d, radix),
    decreases d.len() - i,
{
    if i < d.len() {
        lemma_digits_monotone(d, i + 1, radix);
        assert(d.take(i + 1).drop_last() =~= d.take(i));
        let a = digits_value(d.take(i), radix);
        assert(a * radix >= a) by (nonlinear_arith)
            requires
                radix >= 1,
                a >= 0,
        ;
    } else {
        assert(d.take(i) =~= d);
    }
}

fn digit_of(c: char, radix: u32) -> (r: Option<u32>)
    requires
        2 <= radix <= 36,
    ensures
        match r {
            Some(v) => digit_value(c, radix as nat) == Some(v as nat),
            None => digit_value(c, radix as nat) is None,
        },
{
    let v: u32 = if '0' <= c && c <= '9' {
        (c as u32) - ('0' as u32)
    } else if 'a' <= c && c <= 'z' {
        (c as u32) - ('a' as u32) + 10
    } else if 'A' <= c && c <= 'Z' {
        (c as u32) - ('A' as u32) + 10
    } else {
        99
    };
    if v < radix {
        Some(v)
    } else {
        None
    }
}

/// `from_str_radix` for an unsigned type whose largest value is `max`.
pub fn parse_radix(s: &[char], radix: u32, max: u32) -> (r: Option<u32>)
    requires
        2 <= radix <= 36,
    ensures
        match r {
            Some(v) => str_radix(s@, radix as nat, max as nat) == Some(v as nat),
            None => str_radix(s@, radix as nat, max as nat) is None,
        },
{
    let ghost d = if s@.len() > 0 && s@[0] == '+' { s@.drop_first() } else { s@ };
    let start: usize = if s.len() > 0 && s[0] == '+' { 1 } else { 0 };
    assert(d =~= s@.skip(start as int));
    if start >= s.len() {
        return None;
    }
    let mut value: u64 = 0;
    let mut i = start;
    while i < s.len()
        invariant
            start <= i <= s.len(),
            d == s@.skip(start as int),
            d == (if s@.len() > 0 && s@[0] == '+' { s@.drop_first() } else { s@ }),
            2 <= radix <= 36,
            value == digits_value(d.take(i - start), radix as nat),
            value <= max,
            all_digits(d.take(i - start), radix as nat),
        decreases s.len() - i,
    {
        let k = i - start;
        assert(d.take(k + 1).drop_last() =~= d.take(k as int));
        assert(d[k as int] == s@[i as int]);
        match digit_of(s[i], radix) {
            None => {
                assert(digit_value(d[k as int], radix as nat) is None);
                assert(!all_digits(d, radix as nat));
                return None;
            },
            Some(dv) => {
                assert(value * (radix as u64) <= (u32::MAX as u64) * 36) by (nonlinear_arith)
                    requires
                        value <= u32::MAX,
                        radix <= 36,
                ;
                let next: u64 = value * (radix as u64) + (dv as u64);
                assert(d.take(k + 1).last() == d[k as int]);
                assert(digits_value(d.take(k + 1), radix as nat) == next);
                if next > max as u64 {
                    proof {
                        if all_digits(d, radix as nat) {
                            lemma_digits_monotone(d, k + 1, radix as nat);
                        }
                    }
                    return None;
                }
                value = next;
                assert forall|j: int| 0 <= j < d.take(k + 1).len() implies (#[trigger] digit_value(d.take(k + 1)[j], radix as nat)) is Some by {
                    if j < k {
                        assert(d.take(k + 1)[j] == d.take(k as int)[j]);
                    }
                }
            },
        }
        i = i + 1;
    }
    assert(d.take(s.len() - start) =~= d);
    Some(value as u32)
}

/// The character a UTF-16 surrogate pair encodes.
pub open spec fn pair_char(hi: u16, lo: u16) -> char {
    (0x10000 + (hi - 0xD800) * 0x400 + (lo - 0xDC00)) as char
}

pub open spec fn is_high_surrogate(u: u16) -> bool {
    0xD800 <= u <= 0xDBFF
}

pub open spec fn is_low_surrogate(u: u16) -> bool {
    0xDC00 <= u <= 0xDFFF
}

/// UTF-16 decoding with U+FFFD for unpaired surrogates
/// (`String::from_utf16_lossy`).
pub open spec fn utf16_lossy(u: Seq<u16>) -> Seq<char>
    decreases u.len(),
{
    if u.len() == 0 {
        Seq::empty()
    } else if u[0] < 0xD800 || u[0] > 0xDFFF {
        seq![(u[0] as u32) as char] + utf16_lossy(u.drop_first())
    } else if is_high_surrogate(u[0]) && u.len() > 1 && is_low_surrogate(u[1]) {
        seq![pair_char(u[0], u[1])] + utf16_lossy(u.skip(2))
    } else {
        seq!['\u{FFFD}'] + utf16_lossy(u.drop_first())
    }
}

/// Decodes UTF-16 units, replacing unpaired surrogates with U+FFFD.
pub fn decode_utf16_lossy(units: &[u16]) -> (r: String)
    ensures
        r@ == utf16_lossy(units@),
{
    let mut out = String::new();
    let mut i: usize = 0;
    assert(units@.skip(0) =~= units@);
    while i < units.len()
        invariant
            i <= units.len(),
            utf16_lossy(units@) == out@ + utf16_lossy(units@.skip(i as int)),
        decreases units.len() - i,
    {
        let ghost rest = units@.skip(i as int);
        let u = units[i];
        assert(rest[0] == u);
        if u < 0xD800 || u > 0xDFFF {
            let c: char = char_from_u32(u as u32).unwrap();
            push_char(&mut out, c);
            assert(rest.drop_first() =~= units@.skip(i + 1));
            assert(utf16_lossy(units@) =~= out@ + utf16_lossy(units@.skip(i + 1)));
            i = i + 1;
        } else if u <= 0xDBFF && i + 1 < units.len() && 0xDC00 <= units[i + 1] && units[i + 1] <= 0xDFFF {
            let lo = units[i + 1];
            assert(rest[1] == lo);
            let v: u32 = 0x10000 + (u as u32 - 0xD800) * 0x400 + (lo as u32 - 0xDC00);
            let c: char = char_from_u32(v).unwrap();
            assert(c == pair_char(u, lo));
            push_char(&mut out, c);
            assert(rest.skip(2) =~= units@.skip(i + 2));
            assert(utf16_lossy(units@) =~= out@ + utf16_lossy(units@.skip(i + 2)));
            i = i + 2;
        } else {
            push_char(&mut out, '\u{FFFD}');
            assert(rest.drop_first() =~= units@.skip(i + 1));
            assert(utf16_lossy(units@) =~= out@ + utf16_lossy(units@.skip(i + 1)));
            i = i + 1;
        }
    }
    assert(units@.skip(i as int) =~= Seq::<u16>::empty());
    assert(out@ + Seq::<char>::empty() =~= out@);
    out
}

/// `char::from_u32`: the character with the code point `v` where `v` is a
/// Unicode scalar value (not a surrogate, at most `0x10FFFF`), else `None`.
#[verifier::external_body]
fn char_from_u32(v: u32) -> (r: Option<char>)
    ensures
        r == (if v < 0xD800 || (0xE000 <= v && v <= 0x10FFFF) { Some(v as char) } else { None::<char> }),
{
    char::from_u32(v)
}

/// The UTF-16 units of one character.
pub open spec fn utf16_of_char(c: char) -> Seq<u16> {
    let v = c as u32;
    if v < 0x10000 {
        seq![v as u16]
    } else {
        seq![(0xD800 + (v - 0x10000) / 1024) as u16, (0xDC00 + (v - 0x10000) % 1024) as u16]
    }
}

/// UTF-16 encoding (`str::encode_utf16`).
pub open spec fn utf16_encode(s: Seq<char>) -> Seq<u16>
    decreases s.len(),
{
    if s.len() == 0 {
        Seq::empty()
    } else {
        utf16_encode(s.drop_last()) + utf16_of_char(s.last())
    }
}

/// The UTF-16 units of a text.
pub fn encode_utf16(cs: &[char]) -> (r: Vec<u16>)
    ensures
        r@ == utf16_encode(cs@),
{
    let mut out: Vec<u16> = Vec::new();
    let mut i: usize = 0;
    while i < cs.len()
        invariant
            i <= cs.len(),
            out@ == utf16_encode(cs@.take(i as int)),
        decreases cs.len() - i,
    {
        let v = cs[i] as u32;
        assert(cs@.take(i + 1).drop_last() =~= cs@.take(i as int));
        if v < 0x10000 {
            out.push(v as u16);
        } else {
            out.push((0xD800 + (v - 0x10000) / 1024) as u16);
            out.push((0xDC00 + (v - 0x10000) % 1024) as u16);
        }
        i = i + 1;
        assert(out@ =~= utf16_encode(cs@.take(i as int)));
    }
    assert(cs@.take(cs@.len() as int) =~= cs@);
    out
}

/// The UTF-16 units of a text start with those of its first character.
pub proof fn lemma_utf16_encode_first(s: Seq<char>)
    requires
        s.len() > 0,
    ensures
        utf16_encode(s) == utf16_of_char(s[0]) + utf16_encode(s.drop_first()),
    decreases s.len(),
{
    if s.len() == 1 {
        assert(s.drop_last() =~= Seq::<char>::empty());
        assert(s.drop_first() =~= Seq::<char>::empty());
        assert(utf16_encode(s.drop_first()) =~= Seq::<u16>::empty());
        assert(utf16_encode(s.drop_last()) =~= Seq::<u16>::empty());
        assert(utf16_encode(s) =~= utf16_of_char(s[0]) + utf16_encode(s.drop_first()));
    } else {
        lemma_utf16_encode_first(s.drop_last());
        assert(s.drop_last().drop_first() =~= s.drop_first().drop_last());
        assert(s.drop_first().last() == s.last());
        assert(utf16_encode(s) =~= utf16_of_char(s[0]) + utf16_encode(s.drop_first()));
    }
}

/// Decoding the units of one character gives that character back.
pub proof fn lemma_utf16_char_round_trip(c: char, rest: Seq<u16>)
    ensures
        utf16_lossy(utf16_of_char(c) + rest) == seq![c] + utf16_lossy(rest),
{
    let v = c as u32;
    let u = utf16_of_char(c) + rest;
    if v < 0x10000 {
        assert(u[0] == v as u16);
        assert(u.drop_first() =~= rest);
        assert(((v as u16) as u32) as char == c);
    } else {
        let q = (v - 0x10000) / 1024;
        let r = (v - 0x10000) % 1024;
        assert(0 <= q < 1024 && 0 <= r < 1024 && v - 0x10000 == q * 1024 + r) by (nonlinear_arith)
            requires
                q == (v - 0x10000) / 1024,
                r == (v - 0x10000) % 1024,
                0x10000 <= v <= 0x10FFFF,
        ;
        let hi = (0xD800 + q) as u16;
        let lo = (0xDC00 + r) as u16;
        assert(u[0] == hi && u[1] == lo);
        assert(is_high_surrogate(hi) && is_low_surrogate(lo));
        assert(u.skip(2) =~= rest);
        assert(pair_char(hi, lo) == c);
    }
}

/// Decoding the units of a text gives the text back, whatever follows.
pub proof fn lemma_utf16_round_trip(s: Seq<char>, rest: Seq<u16>)
    ensures
        utf16_lossy(utf16_encode(s) + rest) == s + utf16_lossy(rest),
    decreases s.len(),
{
    if s.len() == 0 {
        assert(utf16_encode(s) + rest =~= rest);
        assert(s + utf16_lossy(rest) =~= utf16_lossy(rest));
    } else {
        lemma_utf16_encode_first(s);
        let t = s.drop_first();
        assert(utf16_encode(s) + rest =~= utf16_of_char(s[0]) + (utf16_encode(t) + rest));
        lemma_utf16_char_round_trip(s[0], utf16_encode(t) + rest);
        lemma_utf16_round_trip(t, rest);
        assert(s =~= seq![s[0]] + t);
        assert(seq![s[0]] + (t + utf16_lossy(rest)) =~= s + utf16_lossy(rest));
    }
}

/// Zero units decode to NUL characters.
pub proof fn lemma_utf16_zeros(n: nat)
    ensures
        utf16_lossy(Seq::new(n, |i: int| 0u16)) == Seq::new(n, |i: int| '\0'),
    decreases n,
{
    let z = Seq::new(n, |i: int| 0u16);
    if n > 0 {
        lemma_utf16_zeros((n - 1) as nat);
        assert(z.drop_first() =~= Seq::new((n - 1) as nat, |i: int| 0u16));
        assert(((0u16) as u32) as char == '\0');
        assert(seq!['\0'] + Seq::new((n - 1) as nat, |i: int| '\0') =~= Seq::new(n, |i: int| '\0'));
    } else {
        assert(z =~= Seq::<u16>::empty());
        assert(Seq::new(n, |i: int| '\0') =~= Seq::<char>::empty());
    }
}

} // verus!
