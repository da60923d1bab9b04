//! GUIDs in their registry text form, `{XXXXXXXX-XXXX-XXXX-XXXX-XXXXXXXXXXXX}`,
//! and in memory: the first three groups little-endian, the last two as
//! written.

use vstd::prelude::*;

use crate::text::{chars_of, string_from};

verus! {

/// The value of a hexadecimal digit.
pub open spec fn hex_val(c: char) -> Option<nat> {
    if '0' <= c && c <= '9' {
        Some((c as u32 - '0' as u32) as nat)
    } else if 'a' <= c && c <= 'f' {
        Some((c as u32 - 'a' as u32 + 10) as nat)
    } else if 'A' <= c && c <= 'F' {
        Some((c as u32 - 'A' as u32 + 10) as nat)
    } else {
        None
    }
}

/// The upper-case hexadecimal digit of `n < 16`.
pub open spec fn hex_char(n: nat) -> char {
    if n < 10 {
        (('0' as u32) + n) as char
    } else {
        (('A' as u32) + n - 10) as char
    }
}

/// Where the `d`-th hexadecimal digit stands in the 36-character form.
pub open spec fn digit_pos(d: int) -> int {
    if d < 8 {
        d
    } else if d < 12 {
        d + 1
    } else if d < 16 {
        d + 2
    } else if d < 20 {
        d + 3
    } else {
        d + 4
    }
}

/// Whether a dash stands at position `i` of the 36-character form.
pub open spec fn is_dash_pos(i: int) -> bool {
    i == 8 || i == 13 || i == 18 || i == 23
}

/// Which byte of the text (in written order) is the `k`-th byte in memory.
pub open spec fn text_index(k: int) -> int {
    if k < 4 {
        3 - k
    } else if k < 6 {
        9 - k
    } else if k < 8 {
        13 - k
    } else {
        k
    }
}

/// Whether `s` is 32 hexadecimal digits grouped 8-4-4-4-12 by dashes.
pub open spec fn is_guid_body(s: Seq<char>) -> bool {
    &&& s.len() == 36
    &&& forall|i: int| 0 <= i < 36 ==> (#[trigger] is_dash_pos(i) <==> s[i] == '-') || (is_dash_pos(i) && s[i] == '-')
    &&& forall|i: int| 0 <= i < 36 && !is_dash_pos(i) ==> (#[trigger] hex_val(s[i])) is Some
}

/// The `t`-th byte of a GUID body, in written order.
pub open spec fn text_byte(s: Seq<char>, t: int) -> u8 {
    (16 * hex_val(s[digit_pos(2 * t)])->0 + hex_val(s[digit_pos(2 * t + 1)])->0) as u8
}

/// The braces around a GUID are optional.
pub open spec fn guid_body(s: Seq<char>) -> Seq<char> {
    if s.len() >= 2 && s[0] == '{' && s.last() == '}' {
        s.subrange(1, s.len() - 1)
    } else {
        s
    }
}

/// The 16 bytes that a GUID text stands for.
pub open spec fn parse_guid_spec(s: Seq<char>) -> Option<Seq<u8>> {
    let b = guid_body(s);
    if is_guid_body(b) {
        Some(Seq::new(16, |k: int| text_byte(b, text_index(k))))
    } else {
        None
    }
}

/// The character at position `i` of the 36-character form of `g`.
pub open spec fn body_char(g: Seq<u8>, i: int) -> char {
    if is_dash_pos(i) {
        '-'
    } else {
        let d = if i < 8 {
            i
        } else if i < 13 {
            i - 1
        } else if i < 18 {
            i - 2
        } else if i < 23 {
            i - 3
        } else {
            i - 4
        };
        let byte = g[text_index(d / 2)];
        if d % 2 == 0 {
            hex_char((byte / 16) as nat)
        } else {
            hex_char((byte % 16) as nat)
        }
    }
}

/// The registry text form of the GUID whose memory bytes are `g`.
pub open spec fn format_guid_spec(g: Seq<u8>) -> Seq<char> {
    seq!['{'] + Seq::new(36, |i: int| body_char(g, i)) + seq!['}']
}

fn hex_value(c: char) -> (r: Option<u8>)
    ensures
        match r {
            Some(v) => hex_val(c) == Some(v as nat),
            None => hex_val(c) is None,
        },
{
    if '0' <= c && c <= '9' {
        Some((c as u32 - '0' as u32) as u8)
    } else if 'a' <= c && c <= 'f' {
        Some((c as u32 - 'a' as u32 + 10) as u8)
    } else if 'A' <= c && c <= 'F' {
        Some((c as u32 - 'A' as u32 + 10) as u8)
    } else {
        None
    }
}

fn hex_digit(n: u8) -> (c: char)
    requires
        n < 16,
    ensures
        c == hex_char(n as nat),
{
    if n < 10 {
        (48 + n) as char
    } else {
        (55 + n) as char
    }
}

fn digit_position(d: usize) -> (r: usize)
    requires
        d < 32,
    ensures
        r == digit_pos(d as int),
{
    if d < 8 {
        d
    } else if d < 12 {
        d + 1
    } else if d < 16 {
        d + 2
    } else if d < 20 {
        d + 3
    } else {
        d + 4
    }
}

fn text_position(k: usize) -> (r: usize)
    requires
        k < 16,
    ensures
        r == text_index(k as int),
{
    if k < 4 {
        3 - k
    } else if k < 6 {
        9 - k
    } else if k < 8 {
        13 - k
    } else {
        k
    }
}

/// The 16 bytes that a GUID text stands for, or `None` where it is not a
/// GUID.
pub fn parse_guid(text: &str) -> (r: Option<Vec<u8>>)
    ensures
        match r {
            Some(b) => parse_guid_spec(text@) == Some(b@),
            None => parse_guid_spec(text@) is None,
        },
{
    let all = chars_of(text);
    let n = all.len();
    let (from, to) = if n >= 2 && all[0] == '{' && all[n - 1] == '}' {
        (1, n - 1)
    } else {
        (0, n)
    };
    let ghost body = guid_body(text@);
    assert(body =~= all@.subrange(from as int, to as int));
    if to - from != 36 {
        return None;
    }
    let mut i: usize = 0;
    while i < 36
        invariant
            body == all@.subrange(from as int, to as int),
            body == guid_body(text@),
            to - from == 36,
            to <= all@.len(),
            i <= 36,
            forall|j: int| 0 <= j < i ==> (#[trigger] is_dash_pos(j) <==> body[j] == '-') || (is_dash_pos(j) && body[j] == '-'),
            forall|j: int| 0 <= j < i && !is_dash_pos(j) ==> (#[trigger] hex_val(body[j])) is Some,
        decreases 36 - i,
    {
        let c = all[from + i];
        let dash = i == 8 || i == 13 || i == 18 || i == 23;
        if dash {
            if c != '-' {
                assert(!is_guid_body(body)) by {
                    assert(is_dash_pos(i as int));
                }
                return None;
            }
        } else {
            if hex_value(c).is_none() {
                assert(!is_guid_body(body)) by {
                    assert(!is_dash_pos(i as int));
                    assert(hex_val(body[i as int]) is None);
                }
                return None;
            }
        }
        i = i + 1;
    }
    assert(is_guid_body(body));
    let mut out: Vec<u8> = Vec::new();
    let mut k: usize = 0;
    while k < 16
        invariant
            body == all@.subrange(from as int, to as int),
            body == guid_body(text@),
            to - from == 36,
            to <= all@.len(),
            is_guid_body(body),
            k <= 16,
            out@.len() == k,
            forall|j: int| 0 <= j < k ==> out@[j] == #[trigger] text_byte(body, text_index(j)),
        decreases 16 - k,
    {
        let t = text_position(k);
        let hi_pos = digit_position(2 * t);
        let lo_pos = digit_position(2 * t + 1);
        assert(!is_dash_pos(hi_pos as int) && !is_dash_pos(lo_pos as int));
        let hi = match hex_value(all[from + hi_pos]) {
            Some(v) => v,
            None => 0,
        };
        let lo = match hex_value(all[from + lo_pos]) {
            Some(v) => v,
            None => 0,
        };
        assert(hex_val(body[hi_pos as int]) is Some);
        assert(hex_val(body[lo_pos as int]) is Some);
        out.push(16 * hi + lo);
        k = k + 1;
    }
    assert(out@ =~= Seq::new(16, |j: int| text_byte(body, text_index(j))));
    Some(out)
}

/// The registry text form of a GUID from its 16 memory bytes.
pub fn format_guid(g: &[u8]) -> (r: String)
    requires
        g@.len() == 16,
    ensures
        r@ == format_guid_spec(g@),
{
    let mut cs: Vec<char> = Vec::new();
    cs.push('{');
    let mut i: usize = 0;
    while i < 36
        invariant
            g@.len() == 16,
            i <= 36,
            cs@ == seq!['{'] + Seq::new(i as nat, |j: int| body_char(g@, j)),
        decreases 36 - i,
    {
        let c = if i == 8 || i == 13 || i == 18 || i == 23 {
            '-'
        } else {
            let d = if i < 8 {
                i
            } else if i < 13 {
                i - 1
            } else if i < 18 {
                i - 2
            } else if i < 23 {
                i - 3
            } else {
                i - 4
            };
            let byte = g[text_position(d / 2)];
            if d % 2 == 0 {
                hex_digit(byte / 16)
            } else {
                hex_digit(byte % 16)
            }
        };
        cs.push(c);
        i = i + 1;
        assert(cs@ =~= seq!['{'] + Seq::new(i as nat, |j: int| body_char(g@, j)));
    }
    cs.push('}');
    assert(cs@ =~= format_guid_spec(g@));
    string_from(cs.as_slice())
}

/// Reading back a formatted GUID gives its bytes.
pub proof fn law_parse_format_guid(g: Seq<u8>)
    requires
        g.len() == 16,
    ensures
        parse_guid_spec(format_guid_spec(g)) == Some(g),
{
    let s = format_guid_spec(g);
    let b = guid_body(s);
    assert(b =~= Seq::new(36, |i: int| body_char(g, i)));
    assert forall|i: int| 0 <= i < 36 && !is_dash_pos(i) implies (#[trigger] hex_val(b[i])) is Some by {
        lemma_hex_round_trip_char(g, i);
    }
    assert(is_guid_body(b));
    assert forall|k: int| 0 <= k < 16 implies #[trigger] text_byte(b, text_index(k)) == g[k] by {
        let t = text_index(k);
        lemma_hex_round_trip_char(g, digit_pos(2 * t));
        lemma_hex_round_trip_char(g, digit_pos(2 * t + 1));
        let byte = g[text_index(t)];
        assert(text_index(t) == k);
        assert(16 * (byte / 16) + byte % 16 == byte);
    }
    assert(Seq::new(16, |k: int| text_byte(b, text_index(k))) =~= g);
}

proof fn lemma_hex_round_trip_char(g: Seq<u8>, i: int)
    requires
        g.len() == 16,
        0 <= i < 36,
        !is_dash_pos(i),
    ensures
        ({
            let d = if i < 8 { i } else if i < 13 { i - 1 } else if i < 18 { i - 2 } else if i < 23 { i - 3 } else { i - 4 };
            let byte = g[text_index(d / 2)];
            &&& 0 <= d < 32
            &&& digit_pos(d) == i
            &&& hex_val(body_char(g, i)) == Some(if d % 2 == 0 { (byte / 16) as nat } else { (byte % 16) as nat })
        }),
{
}

/// The number that the `n` hexadecimal digits from position `i` of `s`
/// write, most significant first.
pub open spec fn hex_number(s: Seq<char>, i: int, n: nat) -> nat
    decreases n,
{
    if n == 0 {
        0
    } else {
        hex_number(s, i, (n - 1) as nat) * 16 + match hex_val(s[i + n - 1]) {
            Some(d) => d,
            None => 0,
        }
    }
}

/// A hexadecimal digit is below 16.
proof fn lemma_hex_val_small(c: char)
    ensures
        hex_val(c) matches Some(d) ==> d < 16,
{
}

/// The memory bytes of a GUID text: the first group as a little-endian
/// 32-bit number, the second and third groups each as a little-endian
/// 16-bit number, and the last two groups byte by byte as written.
pub proof fn law_guid_groups(t: Seq<char>)
    requires
        parse_guid_spec(t) is Some,
    ensures
        ({
            let g = parse_guid_spec(t)->0;
            let b = guid_body(t);
            &&& g.len() == 16
            &&& g[0] + 256 * g[1] + 65536 * g[2] + 16777216 * g[3] == hex_number(b, 0, 8)
            &&& g[4] + 256 * g[5] == hex_number(b, 9, 4)
            &&& g[6] + 256 * g[7] == hex_number(b, 14, 4)
            &&& 256 * g[8] + g[9] == hex_number(b, 19, 4)
            &&& forall|k: int| 0 <= k < 6 ==> #[trigger] g[10 + k] == hex_number(b, 24 + 2 * k, 2)
        }),
{
    let b = guid_body(t);
    let g = parse_guid_spec(t)->0;
    reveal_with_fuel(hex_number, 9);
    assert forall|i: int| 0 <= i < 36 && !is_dash_pos(i) implies (#[trigger] hex_val(b[i]))->0 < 16 by {
        lemma_hex_val_small(b[i]);
    }
    assert forall|p: int| 0 <= p < 16 implies #[trigger] text_byte(b, p) == 16 * hex_val(b[digit_pos(2 * p)])->0
        + hex_val(b[digit_pos(2 * p + 1)])->0 by {
        assert(!is_dash_pos(digit_pos(2 * p)) && !is_dash_pos(digit_pos(2 * p + 1)));
    }
    assert(g[0] == text_byte(b, 3) && g[1] == text_byte(b, 2) && g[2] == text_byte(b, 1) && g[3] == text_byte(b, 0));
    assert(g[4] == text_byte(b, 5) && g[5] == text_byte(b, 4));
    assert(g[6] == text_byte(b, 7) && g[7] == text_byte(b, 6));
    assert(g[8] == text_byte(b, 8) && g[9] == text_byte(b, 9));
    assert forall|k: int| 0 <= k < 6 implies #[trigger] g[10 + k] == hex_number(b, 24 + 2 * k, 2) by {
        assert(g[10 + k] == text_byte(b, 10 + k));
        assert(digit_pos(2 * (10 + k)) == 24 + 2 * k);
    }
}

} // verus!
