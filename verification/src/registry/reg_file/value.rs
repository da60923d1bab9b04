//! Value data of `.reg` files: strings, `dword:` and `hex:` forms.

use vstd::prelude::*;

use super::string::{is_lone_quote, parse_string_literal, string_literal};
use crate::num::{decode_utf16_lossy, parse_radix, str_radix, utf16_lossy};
use crate::registry::error::{ErrorModel, RegistryError};
use crate::registry::value::{RegistryValue, ValueModel};
use crate::text::{
    chars_of, find_char, find_first, has_prefix, is_lit, lower, lower_seq, owned, push_char,
    split_nonempty, split_nonempty_pieces, split_pieces, split_all, starts_with, string_from,
    string_views, sub_chars, to_lower, trim, trimmed, views,
};

verus! {

/// Little-endian 16-bit units of a byte string; an odd last byte gets a
/// zero high byte.
pub open spec fn le_units(b: Seq<u8>) -> Seq<u16> {
    Seq::new(
        ((b.len() + 1) / 2) as nat,
        |k: int| (b[2 * k] + 256 * (if 2 * k + 1 < b.len() { b[2 * k + 1] as int } else { 0 })) as u16,
    )
}

/// The sequence without trailing NUL characters.
pub open spec fn trim_nuls(s: Seq<char>) -> Seq<char>
    decreases s.len(),
{
    if s.len() > 0 && s.last() == '\0' {
        trim_nuls(s.drop_last())
    } else {
        s
    }
}

/// A `REG_EXPAND_SZ` payload as text: UTF-16LE without trailing NULs.
pub open spec fn utf16_text(b: Seq<u8>) -> Seq<char> {
    trim_nuls(utf16_lossy(le_units(b)))
}

/// A `REG_MULTI_SZ` payload as strings: the non-empty NUL-separated parts.
pub open spec fn multi_sz(b: Seq<u8>) -> Seq<Seq<char>> {
    split_nonempty(utf16_text(b), '\0', '\0')
}

/// The token without leading byte-order marks.
pub open spec fn trim_boms(s: Seq<char>) -> Seq<char>
    decreases s.len(),
{
    if s.len() > 0 && s[0] == '\u{feff}' {
        trim_boms(s.drop_first())
    } else {
        s
    }
}

/// The bytes that comma-separated hex tokens denote; blank tokens are
/// skipped and the first bad token is reported.
pub open spec fn hex_bytes(tokens: Seq<Seq<char>>) -> Result<Seq<u8>, ErrorModel>
    decreases tokens.len(),
{
    if tokens.len() == 0 {
        Ok(Seq::empty())
    } else {
        match hex_bytes(tokens.drop_last()) {
            Err(e) => Err(e),
            Ok(bs) => {
                let t = trim(tokens.last());
                if t.len() == 0 {
                    Ok(bs)
                } else {
                    let u = trim_boms(t);
                    match str_radix(u, 16, 255) {
                        Some(v) => Ok(bs.push(v as u8)),
                        None => Err(ErrorModel::InvalidValue("invalid hex byte: "@ + u)),
                    }
                }
            },
        }
    }
}

/// The type tag and data of a `hex(..):` value.
pub open spec fn hex_parts(v: Seq<char>) -> Result<(Option<Seq<char>>, Seq<char>), ErrorModel> {
    match find_char(v, ':') {
        None => Err(ErrorModel::InvalidValue("missing hex data"@)),
        Some(i) => {
            let prefix = v.subrange(0, i);
            let data = v.subrange(i + 1, v.len() as int);
            if starts_with(prefix, "hex("@) {
                match find_char(prefix, ')') {
                    None => Err(ErrorModel::InvalidValue("invalid hex type"@)),
                    Some(e) => Ok((Some(prefix.subrange(4, e)), data)),
                }
            } else {
                Ok((None, data))
            }
        },
    }
}

/// Whether `parse_registry_value` would slice a lone `"` (it is left out).
pub open spec fn value_panics(v: Seq<char>) -> bool {
    starts_with(lower_seq(v), seq!['"']) && is_lone_quote(trim(v))
}

/// What `parse_registry_value` gives for the text after `=`.
#[verifier::opaque]
pub open spec fn reg_value(v: Seq<char>) -> Result<ValueModel, ErrorModel> {
    let lowered = lower_seq(v);
    if starts_with(lowered, seq!['"']) {
        match string_literal(v) {
            Ok(s) => Ok(ValueModel::String(s)),
            Err(e) => Err(e),
        }
    } else if starts_with(lowered, "dword:"@) {
        let hex = trim(v.skip(6));
        match str_radix(hex, 16, 0xFFFF_FFFF) {
            Some(n) => Ok(ValueModel::Dword(n as u32)),
            None => Err(ErrorModel::InvalidValue("invalid dword value: "@ + hex)),
        }
    } else if starts_with(lowered, "hex"@) {
        match hex_parts(v) {
            Err(e) => Err(e),
            Ok((kind, data)) => match hex_bytes(split_all(data, ',', ',')) {
                Err(e) => Err(e),
                Ok(bytes) => Ok(
                    if kind == Some("2"@) {
                        ValueModel::String(utf16_text(bytes))
                    } else if kind == Some("7"@) {
                        ValueModel::MultiString(multi_sz(bytes))
                    } else {
                        ValueModel::Binary(bytes)
                    },
                ),
            },
        }
    } else {
        Err(ErrorModel::InvalidValue("unsupported value: "@ + v))
    }
}

/// `a` followed by `b`, as a new string.
fn concat_text(a: &str, b: &[char]) -> (r: String)
    ensures
        r@ == a@ + b@,
{
    let mut s = owned(a);
    let mut i: usize = 0;
    while i < b.len()
        invariant
            i <= b.len(),
            s@ == a@ + b@.subrange(0, i as int),
        decreases b.len() - i,
    {
        push_char(&mut s, b[i]);
        i = i + 1;
        assert(s@ =~= a@ + b@.subrange(0, i as int));
    }
    assert(b@.subrange(0, b.len() as int) =~= b@);
    s
}

/// Little-endian units of a byte string.
fn bytes_to_units(bytes: &[u8]) -> (r: Vec<u16>)
    ensures
        r@ == le_units(bytes@),
{
    let n = bytes.len() / 2 + bytes.len() % 2;
    assert(n == (bytes@.len() + 1) / 2);
    let mut units: Vec<u16> = Vec::new();
    let mut k: usize = 0;
    while k < n
        invariant
            n == (bytes@.len() + 1) / 2,
            k <= n,
            units@.len() == k,
            forall|j: int| 0 <= j < k ==> units@[j] == #[trigger] le_units(bytes@)[j],
        decreases n - k,
    {
        assert(2 * k < bytes.len()) by (nonlinear_arith)
            requires
                k < n,
                n == bytes@.len() / 2 + bytes@.len() % 2,
        ;
        let i = 2 * k;
        let lo = bytes[i] as u16;
        let hi: u16 = if i + 1 < bytes.len() { bytes[i + 1] as u16 } else { 0 };
        units.push(lo + 256 * hi);
        assert(units@[k as int] == le_units(bytes@)[k as int]);
        k = k + 1;
    }
    assert(units@ =~= le_units(bytes@));
    units
}

/// Text without its trailing NULs.
fn strip_nuls(s: &[char]) -> (r: Vec<char>)
    ensures
        r@ == trim_nuls(s@),
{
    let mut j = s.len();
    assert(s@.subrange(0, j as int) =~= s@);
    while j > 0 && s[j - 1] == '\0'
        invariant
            j <= s.len(),
            trim_nuls(s@) == trim_nuls(s@.subrange(0, j as int)),
        decreases j,
    {
        assert(s@.subrange(0, j as int).drop_last() =~= s@.subrange(0, j - 1));
        j = j - 1;
    }
    sub_chars(s, 0, j)
}

/// UTF-16LE bytes as text, trailing NULs removed.
pub fn decode_utf16(bytes: &[u8]) -> (r: String)
    ensures
        r@ == utf16_text(bytes@),
{
    let units = bytes_to_units(bytes);
    let text = decode_utf16_lossy(units.as_slice());
    let cs = chars_of(text.as_str());
    let t = strip_nuls(cs.as_slice());
    string_from(t.as_slice())
}

/// UTF-16LE bytes as the non-empty NUL-separated strings.
pub fn decode_multi_sz(bytes: &[u8]) -> (r: Vec<String>)
    ensures
        string_views(r@) == multi_sz(bytes@),
{
    let text = decode_utf16(bytes);
    let cs = chars_of(text.as_str());
    let parts = split_nonempty_pieces(cs.as_slice(), '\0', '\0');
    let mut out: Vec<String> = Vec::new();
    let mut i: usize = 0;
    while i < parts.len()
        invariant
            i <= parts.len(),
            string_views(out@) == views(parts@).take(i as int),
        decreases parts.len() - i,
    {
        let s = string_from(parts[i].as_slice());
        let ghost before = out@;
        out.push(s);
        assert(string_views(out@) =~= string_views(before).push(s@));
        assert(views(parts@)[i as int] == parts@[i as int]@);
        assert(string_views(out@) =~= views(parts@).take(i + 1));
        i = i + 1;
    }
    assert(views(parts@).take(parts.len() as int) =~= views(parts@));
    out
}

/// Comma-separated hex bytes.
pub fn parse_hex_bytes(data: &[char]) -> (r: Result<Vec<u8>, RegistryError>)
    ensures
        match hex_bytes(split_all(data@, ',', ',')) {
            Ok(b) => r matches Ok(v) && v@ == b,
            Err(e) => r matches Err(err) && err.model() == e,
        },
{
    let tokens = split_pieces(data, ',', ',');
    let ghost ts = views(tokens@);
    let mut bytes: Vec<u8> = Vec::new();
    let mut i: usize = 0;
    while i < tokens.len()
        invariant
            ts == views(tokens@),
            ts == split_all(data@, ',', ','),
            i <= tokens.len(),
            hex_bytes(ts.take(i as int)) == Ok::<Seq<u8>, ErrorModel>(bytes@),
        decreases tokens.len() - i,
    {
        assert(ts.take(i + 1).drop_last() =~= ts.take(i as int));
        assert(ts.take(i + 1).last() == tokens@[i as int]@);
        let t = trimmed(tokens[i].as_slice());
        if t.len() > 0 {
            let mut k: usize = 0;
            assert(t@.skip(0) =~= t@);
            while k < t.len() && t[k] == '\u{feff}'
                invariant
                    k <= t.len(),
                    trim_boms(t@) == trim_boms(t@.skip(k as int)),
                decreases t.len() - k,
            {
                assert(t@.skip(k as int).drop_first() =~= t@.skip(k + 1));
                k = k + 1;
            }
            let u = sub_chars(t.as_slice(), k, t.len());
            assert(u@ =~= t@.skip(k as int));
            proof {
                if k < t.len() {
                    assert(t@.skip(k as int)[0] == t@[k as int]);
                }
                assert(trim_boms(u@) == u@);
                assert(trim(tokens@[i as int]@) == t@);
            }
            match parse_radix(u.as_slice(), 16, 255) {
                Some(v) => {
                    bytes.push(v as u8);
                },
                None => {
                    proof {
                        assert(hex_bytes(ts.take(i + 1)) == Err::<Seq<u8>, ErrorModel>(ErrorModel::InvalidValue("invalid hex byte: "@ + u@)));
                        lemma_hex_bytes_err(ts, i + 1);
                    }
                    return Err(RegistryError::InvalidValue(concat_text("invalid hex byte: ", u.as_slice())));
                },
            }
        }
        i = i + 1;
    }
    assert(ts.take(tokens.len() as int) =~= ts);
    Ok(bytes)
}

/// Once a prefix of the tokens fails, the whole list fails the same way.
proof fn lemma_hex_bytes_err(ts: Seq<Seq<char>>, i: int)
    requires
        0 <= i <= ts.len(),
        hex_bytes(ts.take(i)) is Err,
    ensures
        hex_bytes(ts) == hex_bytes(ts.take(i)),
    decreases ts.len() - i,
{
    if i < ts.len() {
        assert(ts.take(i + 1).drop_last() =~= ts.take(i));
        lemma_hex_bytes_err(ts, i + 1);
    } else {
        assert(ts.take(i) =~= ts);
    }
}

proof fn lemma_hex_open_no_close(p: Seq<char>, e: int)
    requires
        starts_with(p, "hex("@),
        0 <= e < p.len(),
        p[e] == ')',
    ensures
        e >= 4,
{
    reveal_strlit("hex(");
    if e < 4 {
        assert(p[e] == p.subrange(0, 4)[e]);
    }
}

/// Splits `hex(k):data` or `hex:data` into its type tag and data.
#[verifier::spinoff_prover]
pub fn split_hex_value(v: &[char]) -> (r: Result<(Option<Vec<char>>, Vec<char>), RegistryError>)
    ensures
        match hex_parts(v@) {
            Ok((k, d)) => r matches Ok((rk, rd)) && rd@ == d && match rk {
                Some(x) => k == Some(x@),
                None => k is None,
            },
            Err(e) => r matches Err(err) && err.model() == e,
        },
{
    let i = match find_first(v, ':') {
        None => {
            return Err(RegistryError::InvalidValue(owned("missing hex data")));
        },
        Some(i) => i,
    };
    let prefix = sub_chars(v, 0, i);
    let data = sub_chars(v, i + 1, v.len());
    let open = chars_of("hex(");
    let ghost hp = hex_parts(v@);
    assert(find_char(v@, ':') == Some(i as int));
    if has_prefix(prefix.as_slice(), open.as_slice()) {
        match find_first(prefix.as_slice(), ')') {
            None => {
                assert(hp == Err::<(Option<Seq<char>>, Seq<char>), ErrorModel>(ErrorModel::InvalidValue("invalid hex type"@)));
                Err(RegistryError::InvalidValue(owned("invalid hex type")))
            },
            Some(e) => {
                proof {
                    lemma_hex_open_no_close(prefix@, e as int);
                }
                let kind = sub_chars(prefix.as_slice(), 4, e);
                Ok((Some(kind), data))
            },
        }
    } else {
        Ok((None, data))
    }
}

/// A `dword:` value: hex digits after the prefix.
fn parse_dword(value_raw: &[char]) -> (r: Result<RegistryValue, RegistryError>)
    requires
        value_raw.len() >= 6,
    ensures
        ({
            let hex = trim(value_raw@.skip(6));
            match str_radix(hex, 16, 0xFFFF_FFFF) {
                Some(n) => r matches Ok(v) && v.model() == ValueModel::Dword(n as u32),
                None => r matches Err(err) && err.model() == ErrorModel::InvalidValue("invalid dword value: "@ + hex),
            }
        }),
{
    let rest = sub_chars(value_raw, 6, value_raw.len());
    assert(rest@ =~= value_raw@.skip(6));
    let hex = trimmed(rest.as_slice());
    match parse_radix(hex.as_slice(), 16, 0xFFFF_FFFF) {
        Some(n) => Ok(RegistryValue::Dword(n)),
        None => Err(RegistryError::InvalidValue(concat_text("invalid dword value: ", hex.as_slice()))),
    }
}

/// A `hex:`/`hex(k):` value.
fn parse_hex_value(value_raw: &[char]) -> (r: Result<RegistryValue, RegistryError>)
    ensures
        match hex_parts(value_raw@) {
            Err(e) => r matches Err(err) && err.model() == e,
            Ok((kind, data)) => match hex_bytes(split_all(data, ',', ',')) {
                Err(e) => r matches Err(err) && err.model() == e,
                Ok(bytes) => r matches Ok(v) && v.model() == (if kind == Some("2"@) {
                    ValueModel::String(utf16_text(bytes))
                } else if kind == Some("7"@) {
                    ValueModel::MultiString(multi_sz(bytes))
                } else {
                    ValueModel::Binary(bytes)
                }),
            },
        },
{
    let (kind, data) = split_hex_value(value_raw)?;
    let bytes = parse_hex_bytes(data.as_slice())?;
    let is2 = match &kind {
        Some(k) => is_lit(k.as_slice(), "2"),
        None => false,
    };
    let is7 = match &kind {
        Some(k) => is_lit(k.as_slice(), "7"),
        None => false,
    };
    if is2 {
        Ok(RegistryValue::String(decode_utf16(bytes.as_slice())))
    } else if is7 {
        Ok(RegistryValue::MultiString(decode_multi_sz(bytes.as_slice())))
    } else {
        Ok(RegistryValue::Binary(bytes))
    }
}

/// ASCII lower-casing of characters.
fn lower_chars(cs: &[char]) -> (r: Vec<char>)
    ensures
        r@ == lower_seq(cs@),
{
    let mut lowered: Vec<char> = Vec::new();
    let mut i: usize = 0;
    while i < cs.len()
        invariant
            i <= cs.len(),
            lowered@ == lower_seq(cs@.subrange(0, i as int)),
        decreases cs.len() - i,
    {
        lowered.push(to_lower(cs[i]));
        i = i + 1;
        assert(lowered@ =~= lower_seq(cs@.subrange(0, i as int)));
    }
    assert(cs@.subrange(0, cs.len() as int) =~= cs@);
    lowered
}

/// The text after `=` as a registry value.
pub fn parse_registry_value(value_raw: &[char]) -> (r: Result<RegistryValue, RegistryError>)
    requires
        !value_panics(value_raw@),
    ensures
        match reg_value(value_raw@) {
            Ok(m) => r matches Ok(v) && v.model() == m,
            Err(e) => r matches Err(err) && err.model() == e,
        },
{
    reveal(reg_value);
    let lowered = lower_chars(value_raw);
    let quote = vec!['"'];
    assert(quote@ =~= seq!['"']);
    if has_prefix(lowered.as_slice(), quote.as_slice()) {
        let s = parse_string_literal(value_raw)?;
        return Ok(RegistryValue::String(s));
    }
    let dword = chars_of("dword:");
    if has_prefix(lowered.as_slice(), dword.as_slice()) {
        proof {
            reveal_strlit("dword:");
        }
        return parse_dword(value_raw);
    }
    let hexp = chars_of("hex");
    if has_prefix(lowered.as_slice(), hexp.as_slice()) {
        return parse_hex_value(value_raw);
    }
    Err(RegistryError::InvalidValue(concat_text("unsupported value: ", value_raw)))
}

} // verus!
