//! Text decoding of `.reg` file bytes.

use vstd::prelude::*;

use super::value::le_units;
use crate::num::{decode_utf16_lossy, utf16_lossy};

verus! {

/// UTF-8 decoding with U+FFFD for invalid sequences, as
/// `String::from_utf8_lossy` does it.
pub uninterp spec fn utf8_lossy(b: Seq<u8>) -> Seq<char>;

/// `String::from_utf8_lossy`: the text is named `utf8_lossy` of the bytes.
#[verifier::external_body]
pub(crate) fn from_utf8_lossy(bytes: &[u8]) -> (s: String)
    ensures
        s@ == utf8_lossy(bytes@),
{
    String::from_utf8_lossy(bytes).into_owned()
}

/// Big-endian 16-bit units of a byte string; an odd last byte is the high
/// byte of a unit whose low byte is zero.
pub open spec fn be_units(b: Seq<u8>) -> Seq<u16> {
    Seq::new(
        ((b.len() + 1) / 2) as nat,
        |k: int| (256 * b[2 * k] + (if 2 * k + 1 < b.len() { b[2 * k + 1] as int } else { 0 })) as u16,
    )
}

/// Number of positions `start, start + 2, ...` below `end`.
pub open spec fn stride_count(start: int, end: int) -> int
    decreases if end > start { end - start } else { 0 },
{
    if start >= end {
        0
    } else {
        1 + stride_count(start + 2, end)
    }
}

/// Number of zero bytes at positions `start, start + 2, ...` below `end`.
pub open spec fn stride_zeros(b: Seq<u8>, start: int, end: int) -> int
    decreases if end > start { end - start } else { 0 },
{
    if start >= end {
        0
    } else {
        (if b[start] == 0 { 1int } else { 0int }) + stride_zeros(b, start + 2, end)
    }
}

/// Whether at least two thirds of the sampled bytes at positions
/// `first, first + 2, ...` (within the first 64) are zero.
pub open spec fn mostly_zero(b: Seq<u8>, first: int) -> bool {
    let sample = if b.len() < 64 { b.len() as int } else { 64 };
    let total = stride_count(first, sample);
    total > 0 && stride_zeros(b, first, sample) * 3 >= total * 2
}

/// The text of a `.reg` file: UTF-16 by byte-order mark or by the share of
/// zero bytes in its first 64 bytes, else UTF-8.
pub open spec fn registry_text(b: Seq<u8>) -> Seq<char> {
    if b.len() >= 2 && b[0] == 0xFF && b[1] == 0xFE {
        utf16_lossy(le_units(b.skip(2)))
    } else if b.len() >= 2 && b[0] == 0xFE && b[1] == 0xFF {
        utf16_lossy(be_units(b.skip(2)))
    } else if mostly_zero(b, 1) {
        utf16_lossy(le_units(b))
    } else if mostly_zero(b, 0) {
        utf16_lossy(be_units(b))
    } else {
        utf8_lossy(b)
    }
}

pub(crate) fn looks_mostly_zero(bytes: &[u8], first: usize) -> (r: bool)
    requires
        first <= 1,
    ensures
        r == mostly_zero(bytes@, first as int),
{
    let sample = if bytes.len() < 64 { bytes.len() } else { 64 };
    let mut zeros: usize = 0;
    let mut total: usize = 0;
    let mut idx = first;
    while idx < sample
        invariant
            first <= 1,
            sample <= 64,
            sample <= bytes.len(),
            first <= idx <= sample + 1,
            (idx - first) % 2 == 0,
            total + stride_count(idx as int, sample as int) == stride_count(first as int, sample as int),
            zeros + stride_zeros(bytes@, idx as int, sample as int) == stride_zeros(bytes@, first as int, sample as int),
            total <= idx,
            zeros <= total,
        decreases sample + 2 - idx,
    {
        total = total + 1;
        if bytes[idx] == 0 {
            zeros = zeros + 1;
        }
        idx = idx + 2;
    }
    total > 0 && zeros * 3 >= total * 2
}

pub(crate) fn units_le(bytes: &[u8]) -> (r: Vec<u16>)
    ensures
        r@ == le_units(bytes@),
{
    let n = bytes.len() / 2 + bytes.len() % 2;
    let mut units: Vec<u16> = Vec::new();
    let mut k: usize = 0;
    while k < n
        invariant
            n == bytes@.len() / 2 + bytes@.len() % 2,
            k <= n,
            units@.len() == k,
            forall|j: int| 0 <= j < k ==> units@[j] == #[trigger] le_units(bytes@)[j],
        decreases n - k,
    {
        assert(2 * k < bytes.len()) by (nonlinear_arith)
            requires
                k < n,
                n == bytes@.len() / 2 + bytes@.len() % 2,
        ;
        let i = 2 * k;
        let lo = bytes[i] as u16;
        let hi: u16 = if i + 1 < bytes.len() { bytes[i + 1] as u16 } else { 0 };
        units.push(lo + 256 * hi);
        assert(units@[k as int] == le_units(bytes@)[k as int]);
        k = k + 1;
    }
    assert(units@ =~= le_units(bytes@));
    units
}

fn units_be(bytes: &[u8]) -> (r: Vec<u16>)
    ensures
        r@ == be_units(bytes@),
{
    let n = bytes.len() / 2 + bytes.len() % 2;
    let mut units: Vec<u16> = Vec::new();
    let mut k: usize = 0;
    while k < n
        invariant
            n == bytes@.len() / 2 + bytes@.len() % 2,
            k <= n,
            units@.len() == k,
            forall|j: int| 0 <= j < k ==> units@[j] == #[trigger] be_units(bytes@)[j],
        decreases n - k,
    {
        assert(2 * k < bytes.len()) by (nonlinear_arith)
            requires
                k < n,
                n == bytes@.len() / 2 + bytes@.len() % 2,
        ;
        let i = 2 * k;
        let hi = bytes[i] as u16;
        let lo: u16 = if i + 1 < bytes.len() { bytes[i + 1] as u16 } else { 0 };
        units.push(256 * hi + lo);
        assert(units@[k as int] == be_units(bytes@)[k as int]);
        k = k + 1;
    }
    assert(units@ =~= be_units(bytes@));
    units
}

fn tail(bytes: &[u8], from: usize) -> (r: Vec<u8>)
    requires
        from <= bytes.len(),
    ensures
        r@ == bytes@.skip(from as int),
{
    let mut r: Vec<u8> = Vec::new();
    let mut i = from;
    while i < bytes.len()
        invariant
            from <= i <= bytes.len(),
            r@ == bytes@.subrange(from as int, i as int),
        decreases bytes.len() - i,
    {
        r.push(bytes[i]);
        i = i + 1;
        assert(r@ =~= bytes@.subrange(from as int, i as int));
    }
    r
}

/// Decodes the bytes of a `.reg` file.
pub fn decode_registry_text(bytes: &[u8]) -> (r: String)
    ensures
        r@ == registry_text(bytes@),
{
    if bytes.len() >= 2 && bytes[0] == 0xFF && bytes[1] == 0xFE {
        let rest = tail(bytes, 2);
        let u = units_le(rest.as_slice());
        return decode_utf16_lossy(u.as_slice());
    }
    if bytes.len() >= 2 && bytes[0] == 0xFE && bytes[1] == 0xFF {
        let rest = tail(bytes, 2);
        let u = units_be(rest.as_slice());
        return decode_utf16_lossy(u.as_slice());
    }
    if looks_mostly_zero(bytes, 1) {
        let u = units_le(bytes);
        return decode_utf16_lossy(u.as_slice());
    }
    if looks_mostly_zero(bytes, 0) {
        let u = units_be(bytes);
        return decode_utf16_lossy(u.as_slice());
    }
    from_utf8_lossy(bytes)
}

} // verus!
