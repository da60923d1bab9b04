//! Finding the GUID and type description tables where the segment
//! directory does not place them plausibly.

use vstd::prelude::*;

use super::reader::{rd32, rd8, seg_entries, Reader, SegDir, SegEntry};

verus! {

/// The 16 bytes at `base`, each 0 where the image has none.
pub open spec fn bytes16_or0(d: Seq<u8>, base: int) -> Seq<u8> {
    Seq::new(16, |i: int| match rd8(d, base + i) {
        Some(b) => b,
        None => 0u8,
    })
}

/// How many bytes are 0 or 0xFF.
pub open spec fn zero_ff_count(b: Seq<u8>) -> nat
    decreases b.len(),
{
    if b.len() == 0 {
        0
    } else {
        zero_ff_count(b.drop_last()) + if b.last() == 0 || b.last() == 0xFF { 1nat } else { 0nat }
    }
}

pub open spec fn all_bytes_are(b: Seq<u8>, v: u8) -> bool {
    forall|i: int| 0 <= i < b.len() ==> b[i] == v
}

/// Whether 16 bytes look like a GUID: not all 0, not all 0xFF, and fewer
/// than 12 bytes that are 0 or 0xFF.
pub open spec fn plausible_guid(b: Seq<u8>) -> bool {
    !(all_bytes_are(b, 0) || all_bytes_are(b, 0xFF) || zero_ff_count(b) >= 12)
}

/// Whether the directory's GUID table holds a plausible GUID at the
/// library's GUID position.
pub open spec fn guid_table_valid(d: Seq<u8>, sd: SegDir, posguid: i32) -> bool {
    if sd.guid_tab.offset == 0xFFFF_FFFF || sd.guid_tab.length < 16 || posguid < 0 {
        false
    } else {
        plausible_guid(bytes16_or0(d, sd.guid_tab.offset + posguid))
    }
}

/// The 16 bytes at `base`, unreadable ones as 0.
pub fn read_bytes16_or0(reader: &Reader, base: u64) -> (r: Vec<u8>)
    requires
        base <= 0x2_0000_0000,
    ensures
        r@ == bytes16_or0(reader.data@, base as int),
{
    let mut out: Vec<u8> = Vec::new();
    let mut i: u64 = 0;
    while i < 16
        invariant
            base <= 0x2_0000_0000,
            i <= 16,
            out@ == bytes16_or0(reader.data@, base as int).take(i as int),
        decreases 16 - i,
    {
        let b = match reader.read_u8(base + i) {
            Ok(v) => v,
            Err(_) => 0,
        };
        out.push(b);
        i = i + 1;
        assert(out@ =~= bytes16_or0(reader.data@, base as int).take(i as int));
    }
    assert(out@ =~= bytes16_or0(reader.data@, base as int));
    out
}

/// Whether 16 bytes look like a GUID.
pub fn looks_like_guid(b: &Vec<u8>) -> (r: bool)
    requires
        b@.len() == 16,
    ensures
        r == plausible_guid(b@),
{
    let mut all_zero = true;
    let mut all_ff = true;
    let mut zero_ff: usize = 0;
    let mut i: usize = 0;
    while i < 16
        invariant
            b@.len() == 16,
            i <= 16,
            zero_ff == zero_ff_count(b@.take(i as int)),
            zero_ff <= i,
            all_zero == (forall|j: int| 0 <= j < i ==> #[trigger] b@[j] == 0),
            all_ff == (forall|j: int| 0 <= j < i ==> #[trigger] b@[j] == 0xFF),
        decreases 16 - i,
    {
        assert(b@.take(i + 1).drop_last() =~= b@.take(i as int));
        if b[i] != 0 {
            all_zero = false;
        }
        if b[i] != 0xFF {
            all_ff = false;
        }
        if b[i] == 0 || b[i] == 0xFF {
            zero_ff = zero_ff + 1;
        }
        i = i + 1;
    }
    assert(b@.take(16) =~= b@);
    !(all_zero || all_ff || zero_ff >= 12)
}

/// Whether the directory's GUID table looks right.
pub fn guid_table_looks_valid(reader: &Reader, segdir: &SegDir, posguid: i32) -> (r: bool)
    ensures
        r == guid_table_valid(reader.data@, *segdir, posguid),
{
    if segdir.guid_tab.offset == 0xFFFF_FFFF || segdir.guid_tab.length < 16 || posguid < 0 {
        return false;
    }
    let base = segdir.guid_tab.offset as u64 + posguid as u64;
    let bytes = read_bytes16_or0(reader, base);
    looks_like_guid(&bytes)
}

/// The GUID-table candidate among the first `n` directory entries that
/// holds the most plausible GUID at `posguid` (fewest 0 and 0xFF bytes; the
/// first of equals), with its count.
pub open spec fn guid_guess(d: Seq<u8>, es: Seq<SegEntry>, posguid: int, n: int) -> Option<(SegEntry, nat)>
    decreases n,
{
    if n <= 0 || n > es.len() {
        None
    } else {
        let best = guid_guess(d, es, posguid, n - 1);
        let e = es[n - 1];
        let b = bytes16_or0(d, e.offset + posguid);
        if e.offset == 0xFFFF_FFFF || e.length < 16 || posguid + 16 > e.length || all_bytes_are(b, 0)
            || all_bytes_are(b, 0xFF) {
            best
        } else {
            match best {
                Some((_, score)) => if zero_ff_count(b) < score { Some((e, zero_ff_count(b))) } else { best },
                None => Some((e, zero_ff_count(b))),
            }
        }
    }
}

/// Where the GUID table is guessed to be, from the directory at `off`.
pub open spec fn guess_guid(d: Seq<u8>, off: int, posguid: i32) -> Option<SegEntry> {
    if posguid < 0 {
        None
    } else {
        match seg_entries(d, off) {
            None => None,
            Some(es) => match guid_guess(d, es, posguid as int, 12) {
                Some((e, _)) => Some(e),
                None => None,
            },
        }
    }
}

fn read_entries(reader: &Reader, offset: u64) -> (r: Option<Vec<SegEntry>>)
    ensures
        match seg_entries(reader.data@, offset as int) {
            Some(es) => r matches Some(v) && v@ == es,
            None => r is None,
        },
{
    let dlen = reader.data.len() as u64;
    if offset > dlen || dlen - offset < 96 {
        return None;
    }
    let ghost es = seg_entries(reader.data@, offset as int)->0;
    let mut entries: Vec<SegEntry> = Vec::new();
    let mut idx: u64 = 0;
    while idx < 12
        invariant
            dlen == reader.data@.len(),
            offset + 96 <= reader.data@.len(),
            es == seg_entries(reader.data@, offset as int)->0,
            idx <= 12,
            entries@ == es.take(idx as int),
        decreases 12 - idx,
    {
        let base = offset + idx * 8;
        let seg_offset = match reader.read_u32(base) {
            Ok(v) => v,
            Err(_) => return None,
        };
        let seg_length = match reader.read_u32(base + 4) {
            Ok(v) => v,
            Err(_) => return None,
        };
        entries.push(SegEntry { offset: seg_offset, length: seg_length });
        idx = idx + 1;
        assert(entries@ =~= es.take(idx as int));
    }
    assert(entries@ =~= es);
    Some(entries)
}

fn count_zero_ff(b: &Vec<u8>) -> (r: usize)
    ensures
        r == zero_ff_count(b@),
{
    let mut c: usize = 0;
    let mut i: usize = 0;
    while i < b.len()
        invariant
            i <= b@.len(),
            c == zero_ff_count(b@.take(i as int)),
            c <= i,
        decreases b.len() - i,
    {
        assert(b@.take(i + 1).drop_last() =~= b@.take(i as int));
        if b[i] == 0 || b[i] == 0xFF {
            c = c + 1;
        }
        i = i + 1;
    }
    assert(b@.take(b@.len() as int) =~= b@);
    c
}

fn all_are(b: &Vec<u8>, v: u8) -> (r: bool)
    ensures
        r == all_bytes_are(b@, v),
{
    let mut i: usize = 0;
    while i < b.len()
        invariant
            i <= b@.len(),
            forall|j: int| 0 <= j < i ==> b@[j] == v,
        decreases b.len() - i,
    {
        if b[i] != v {
            return false;
        }
        i = i + 1;
    }
    true
}

/// Finds the GUID table by the GUID it should hold at `posguid`.
pub fn guess_guid_tab(reader: &Reader, segdir_offset: u64, posguid: i32) -> (r: Option<SegEntry>)
    ensures
        r == guess_guid(reader.data@, segdir_offset as int, posguid),
{
    if posguid < 0 {
        return None;
    }
    let entries = match read_entries(reader, segdir_offset) {
        Some(es) => es,
        None => return None,
    };
    let ghost es = entries@;
    let mut best: Option<(SegEntry, usize)> = None;
    let mut idx: usize = 0;
    while idx < 12
        invariant
            entries@ == es,
            es.len() == 12,
            posguid >= 0,
            idx <= 12,
            match guid_guess(reader.data@, es, posguid as int, idx as int) {
                Some((e, s)) => best == Some((e, s as usize)) && s <= 16,
                None => best is None,
            },
        decreases 12 - idx,
    {
        let e = entries[idx];
        let pg = posguid as u32;
        if e.offset != 0xFFFF_FFFF && e.length >= 16 && pg as u64 + 16 <= e.length as u64 {
            let bytes = read_bytes16_or0(reader, e.offset as u64 + pg as u64);
            if !all_are(&bytes, 0) && !all_are(&bytes, 0xFF) {
                let score = count_zero_ff(&bytes);
                proof {
                    lemma_zero_ff_bound(bytes@);
                }
                let replace = match best {
                    Some((_, s)) => score < s,
                    None => true,
                };
                if replace {
                    best = Some((e, score));
                }
            }
        }
        idx = idx + 1;
    }
    match best {
        Some((e, _)) => Some(e),
        None => None,
    }
}

proof fn lemma_zero_ff_bound(b: Seq<u8>)
    ensures
        zero_ff_count(b) <= b.len(),
    decreases b.len(),
{
    if b.len() > 0 {
        lemma_zero_ff_bound(b.drop_last());
    }
}

/// Whether a type description's variant type is a plausible one.
pub open spec fn plausible_vt(vt: u32) -> bool {
    vt <= 0x30 || vt == 0x1A || vt == 0x1D
}

/// How many of the first `k` 8-byte entries at `off` have a plausible
/// variant type in their second word (unreadable ones as 0).
pub open spec fn plausible_count(d: Seq<u8>, off: int, k: int) -> nat
    decreases k,
{
    if k <= 0 {
        0
    } else {
        let vt = match rd32(d, off + 8 * (k - 1) + 4) {
            Some(v) => v,
            None => 0,
        };
        plausible_count(d, off, k - 1) + if plausible_vt(vt & 0xFFFF) { 1nat } else { 0nat }
    }
}

/// The type-description candidate among the first `n` directory entries
/// with the largest share of plausible entries (the first of equals), with
/// that share as a count and a total.
pub open spec fn typdesc_guess(d: Seq<u8>, es: Seq<SegEntry>, gt: SegEntry, n: int) -> Option<(SegEntry, nat, nat)>
    decreases n,
{
    if n <= 0 || n > es.len() {
        None
    } else {
        let best = typdesc_guess(d, es, gt, n - 1);
        let e = es[n - 1];
        if e.offset == 0xFFFF_FFFF || e.length == 0 || e.length % 8 != 0 || e == gt {
            best
        } else {
            let count = (e.length / 8) as nat;
            let p = plausible_count(d, e.offset as int, count as int);
            match best {
                Some((_, bp, bc)) => if p * bc > bp * count { Some((e, p, count)) } else { best },
                None => Some((e, p, count)),
            }
        }
    }
}

/// Where the type description table is guessed to be, from the directory
/// at `off`, other than the GUID table.
pub open spec fn guess_typdesc(d: Seq<u8>, off: int, gt: SegEntry) -> Option<SegEntry> {
    match seg_entries(d, off) {
        None => None,
        Some(es) => match typdesc_guess(d, es, gt, 12) {
            Some((e, _, _)) => Some(e),
            None => None,
        },
    }
}

pub proof fn lemma_plausible_le(d: Seq<u8>, off: int, k: int)
    ensures
        plausible_count(d, off, k) <= if k < 0 { 0 } else { k },
    decreases k,
{
    if k > 0 {
        lemma_plausible_le(d, off, k - 1);
    }
}

fn count_plausible(reader: &Reader, offset: u32, count: u32) -> (r: u64)
    ensures
        r == plausible_count(reader.data@, offset as int, count as int),
        r <= count,
{
    let mut p: u64 = 0;
    let mut i: u32 = 0;
    while i < count
        invariant
            i <= count,
            p == plausible_count(reader.data@, offset as int, i as int),
            p <= i,
        decreases count - i,
    {
        let vt_raw = match reader.read_u32(offset as u64 + i as u64 * 8 + 4) {
            Ok(v) => v,
            Err(_) => 0,
        };
        let vt = vt_raw & 0xFFFF;
        if vt <= 0x30 || vt == 0x1A || vt == 0x1D {
            p = p + 1;
        }
        i = i + 1;
    }
    p
}

/// Finds the type description table by the share of plausible variant
/// types in it. (The share is compared exactly, as a fraction.)
pub fn guess_typdesc_tab(reader: &Reader, segdir_offset: u64, guid_tab: &SegEntry) -> (r: Option<SegEntry>)
    ensures
        r == guess_typdesc(reader.data@, segdir_offset as int, *guid_tab),
{
    let entries = match read_entries(reader, segdir_offset) {
        Some(es) => es,
        None => return None,
    };
    let ghost es = entries@;
    let mut best: Option<(SegEntry, u64, u64)> = None;
    let mut idx: usize = 0;
    while idx < 12
        invariant
            entries@ == es,
            es.len() == 12,
            idx <= 12,
            match typdesc_guess(reader.data@, es, *guid_tab, idx as int) {
                Some((e, p, c)) => best == Some((e, p as u64, c as u64)) && p <= c && c < 0x2000_0000,
                None => best is None,
            },
        decreases 12 - idx,
    {
        let e = entries[idx];
        if e.offset != 0xFFFF_FFFF && e.length != 0 && e.length % 8 == 0 && !(e.offset == guid_tab.offset && e.length == guid_tab.length) {
            let count = e.length / 8;
            let p = count_plausible(reader, e.offset, count);
            assert(e == es[idx as int]);
            let replace = match best {
                Some((_, bp, bc)) => {
                    assert(p * bc < 0x4000_0000_0000_0000 && bp * (count as u64) < 0x4000_0000_0000_0000) by (nonlinear_arith)
                        requires
                            p <= count as u64,
                            count < 0x2000_0000,
                            bp <= bc,
                            bc < 0x2000_0000,
                    ;
                    p * bc > bp * (count as u64)
                },
                None => true,
            };
            if replace {
                best = Some((e, p, count as u64));
            }
        }
        idx = idx + 1;
    }
    match best {
        Some((e, _, _)) => Some(e),
        None => None,
    }
}

} // verus!
