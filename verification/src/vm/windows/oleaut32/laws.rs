//! What a BSTR made from a text gives back when it is read.

use vstd::prelude::*;

use super::bstr::{bstr_alloc_result, bstr_bytes_text, bstr_image, bstr_text, pair_units, units_bytes};
use crate::num::{utf16_encode, utf16_lossy};
use crate::registry::reg_file::decode::{mostly_zero, stride_count, stride_zeros};
use crate::registry::reg_file::value::le_units;
use crate::vm::{
    block_image, bytes32, lemma_le32_bytes32, lemma_written_u32, le32, mem_bytes, mem_u32, Vm, VmError,
    BLOCK_HEADER,
};

verus! {

/// Whether every character of a text is below U+0100.
pub open spec fn latin1(t: Seq<char>) -> bool {
    forall|i: int| 0 <= i < t.len() ==> (#[trigger] t[i] as u32) < 0x100
}

proof fn lemma_encode_latin1(t: Seq<char>)
    requires
        latin1(t),
    ensures
        utf16_encode(t) == Seq::new(t.len(), |i: int| (t[i] as u32) as u16),
    decreases t.len(),
{
    if t.len() > 0 {
        let s = t.drop_last();
        assert(latin1(s)) by {
            assert forall|i: int| 0 <= i < s.len() implies (#[trigger] s[i] as u32) < 0x100 by {
                assert(s[i] == t[i]);
            }
        }
        lemma_encode_latin1(s);
        assert(utf16_encode(t) =~= Seq::new(t.len(), |i: int| (t[i] as u32) as u16));
    }
}

proof fn lemma_decode_small(u: Seq<u16>)
    requires
        forall|i: int| 0 <= i < u.len() ==> #[trigger] u[i] < 0x100,
    ensures
        utf16_lossy(u) == Seq::new(u.len(), |i: int| (u[i] as u32) as char),
    decreases u.len(),
{
    if u.len() > 0 {
        let rest = u.drop_first();
        assert forall|i: int| 0 <= i < rest.len() implies #[trigger] rest[i] < 0x100 by {
            assert(rest[i] == u[i + 1]);
        }
        lemma_decode_small(rest);
        assert(utf16_lossy(u) =~= Seq::new(u.len(), |i: int| (u[i] as u32) as char));
    }
}

proof fn lemma_stride_zeros(b: Seq<u8>, start: int, end: int)
    requires
        0 <= start,
        end <= b.len(),
        forall|k: int| start <= k < end && (k - start) % 2 == 0 ==> #[trigger] b[k] == 0,
    ensures
        stride_zeros(b, start, end) == stride_count(start, end),
        start < end ==> stride_count(start, end) > 0,
    decreases if end > start { end - start } else { 0 },
{
    if start < end {
        assert forall|k: int| start + 2 <= k < end && (k - (start + 2)) % 2 == 0 implies #[trigger] b[k] == 0 by {
            assert((k - start) % 2 == 0);
        }
        lemma_stride_zeros(b, start + 2, end);
    }
}

/// Decoding the UTF-16 of a Latin-1 text gives the text.
proof fn lemma_latin1_roundtrip(t: Seq<char>)
    requires
        latin1(t),
    ensures
        utf16_lossy(utf16_encode(t)) == t,
{
    lemma_encode_latin1(t);
    let u = utf16_encode(t);
    assert(u.len() == t.len());
    assert forall|i: int| 0 <= i < u.len() implies #[trigger] u[i] < 0x100 by {
        assert((t[i] as u32) < 0x100);
    }
    lemma_decode_small(u);
    assert forall|i: int| 0 <= i < t.len() implies #[trigger] utf16_lossy(u)[i] == t[i] by {
        let c = t[i];
        assert((c as u32) < 0x100);
        assert(((c as u32) as u16) as u32 == c as u32);
        vstd::utf8::char_u32_cast(c, c as u32);
    }
    assert(utf16_lossy(u) =~= t);
}

/// The UTF-16 payload of a Latin-1 text has zero high bytes, so it looks
/// like UTF-16, and its units are the text's.
proof fn lemma_latin1_payload_shape(t: Seq<char>)
    requires
        latin1(t),
        t.len() > 0,
    ensures
        mostly_zero(units_bytes(utf16_encode(t)), 1),
        pair_units(units_bytes(utf16_encode(t))) == utf16_encode(t),
{
    lemma_encode_latin1(t);
    let u = utf16_encode(t);
    let payload = units_bytes(u);
    let n = payload.len() as int;
    assert forall|i: int| 0 <= i < u.len() implies #[trigger] u[i] < 0x100 by {
        assert((t[i] as u32) < 0x100);
    }
    assert forall|k: int| 1 <= k < n && (k - 1) % 2 == 0 implies #[trigger] payload[k] == 0 by {
        assert(u[k / 2] < 0x100);
    }
    let sample = if n < 64 { n } else { 64 };
    lemma_stride_zeros(payload, 1, sample);
    assert(payload.take(2 * (n / 2)) =~= payload);
    assert forall|k: int| 0 <= k < u.len() implies #[trigger] le_units(payload)[k] == u[k] by {
        assert(payload[2 * k] == u[k] % 256);
        assert(payload[2 * k + 1] == u[k] / 256);
    }
    assert(le_units(payload) =~= u);
}

/// The text of the UTF-16 payload of a Latin-1 text is that text.
proof fn lemma_latin1_payload_text(os: crate::vm::Os, t: Seq<char>)
    requires
        latin1(t),
        t.len() > 0,
    ensures
        bstr_bytes_text(os, units_bytes(utf16_encode(t))) == t,
{
    lemma_latin1_payload_shape(t);
    lemma_latin1_roundtrip(t);
    lemma_encode_latin1(t);
}

/// The prefix and payload of an allocated BSTR read back from memory.
proof fn lemma_bstr_in_memory(a: &Vm, b: &Vm, payload: Seq<u8>, r: Result<u32, VmError>)
    requires
        bstr_alloc_result(a, b, payload, r),
        r is Ok,
    ensures
        r->Ok_0 >= 4,
        mem_u32(b, r->Ok_0 - 4) == Some(payload.len() as u32),
        crate::vm::in_range(b, r->Ok_0 as int, payload.len() as int),
        mem_bytes(b, r->Ok_0 as int, payload.len() as int) == payload,
        crate::vm::mem_u16(b, r->Ok_0 + payload.len()) == Some(0u16),
{
    let image = bstr_image(payload);
    let n = payload.len() as int;
    let p = crate::vm::alloc_at(a, image.len() as int, 4).unwrap();
    let ptr = r->Ok_0;
    let block = block_image(image);
    let o = p - BLOCK_HEADER - a.base;
    lemma_written_u32(a, p - BLOCK_HEADER, block, 4);
    assert(le32(block, 4) == le32(bytes32(n as u32), 0)) by {
        assert(block[4] == bytes32(n as u32)[0]);
        assert(block[5] == bytes32(n as u32)[1]);
        assert(block[6] == bytes32(n as u32)[2]);
        assert(block[7] == bytes32(n as u32)[3]);
    }
    lemma_le32_bytes32(n as u32);
    assert(mem_bytes(b, ptr as int, n) =~= payload) by {
        assert forall|k: int| 0 <= k < n implies #[trigger] mem_bytes(b, ptr as int, n)[k] == payload[k] by {
            assert(b.memory@[o + 8 + k] == block[8 + k]);
        }
    }
    assert(b.memory@[o + 8 + n] == block[8 + n]);
    assert(b.memory@[o + 9 + n] == block[9 + n]);
    assert(block[8 + n] == 0 && block[9 + n] == 0);
}

/// A BSTR allocated from a text whose characters are all below U+0100 reads
/// back as that text: its payload is the text's UTF-16, whose high bytes
/// are all zero, so it is read as UTF-16. In front of it stands its byte
/// length, two per character, and behind it a 16-bit NUL.
pub proof fn law_bstr_reads_back(a: &Vm, b: &Vm, t: Seq<char>, r: Result<u32, VmError>)
    requires
        latin1(t),
        bstr_alloc_result(a, b, units_bytes(utf16_encode(t)), r),
        r is Ok,
    ensures
        bstr_text(b, r->Ok_0) == Ok::<Seq<char>, VmError>(t),
        r->Ok_0 >= 4,
        crate::vm::mem_u32(b, r->Ok_0 - 4) == Some((2 * t.len()) as u32),
        crate::vm::mem_u16(b, r->Ok_0 + 2 * t.len()) == Some(0u16),
{
    lemma_encode_latin1(t);
    let payload = units_bytes(utf16_encode(t));
    lemma_bstr_in_memory(a, b, payload, r);
    if t.len() > 0 {
        lemma_latin1_payload_text(b.os, t);
    } else {
        assert(payload.len() == 0);
        assert(t =~= Seq::<char>::empty());
    }
}

/// Day counts start at 1970-01-01; the OLE epoch 1899-12-30 lies 25569
/// days before it.
pub proof fn law_epoch_days()
    ensures
        super::time::civil_days(1970, 1, 1) == 0,
        super::time::civil_days(1899, 12, 30) == -25569,
{
}

} // verus!
