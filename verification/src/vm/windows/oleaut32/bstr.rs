//! BSTRs: length-prefixed, NUL-terminated strings on the machine's heap.
//! The 32-bit prefix holds the byte length of the payload; a BSTR pointer
//! points past it.

use vstd::prelude::*;

use crate::num::{decode_utf16_lossy, encode_utf16, utf16_encode, utf16_lossy};
use crate::registry::reg_file::decode::{looks_mostly_zero, mostly_zero};
use crate::registry::reg_file::value::le_units;
use crate::text::chars_of;
use crate::vm::{wrap_add, 
    add32, alloc_at, allocated, arg, bytes32, in_range, mem_bytes, mem_u16, mem_u32, same_but_heap, u32_or0,
    u8_or0, Os, Vm, VmError,
};

verus! {

/// Shift-JIS decoding with BOM sniffing and U+FFFD for malformed sequences,
/// as `encoding_rs::SHIFT_JIS.decode` does it.
pub uninterp spec fn shift_jis_text(b: Seq<u8>) -> Seq<char>;

/// UTF-8 decoding with BOM sniffing and U+FFFD for malformed sequences, as
/// `encoding_rs::UTF_8.decode` does it.
pub uninterp spec fn utf8_text(b: Seq<u8>) -> Seq<char>;

/// `encoding_rs::SHIFT_JIS.decode`: the text is named `shift_jis_text` of the
/// bytes. The decoder sizes its buffer from three times the input length,
/// which must not overflow.
#[verifier::external_body]
fn decode_shift_jis(bytes: &[u8]) -> (s: String)
    requires
        3 * bytes@.len() + 8 <= usize::MAX,
    ensures
        s@ == shift_jis_text(bytes@),
{
    let (text, _, _) = encoding_rs::SHIFT_JIS.decode(bytes);
    text.into_owned()
}

/// `encoding_rs::UTF_8.decode`: the text is named `utf8_text` of the bytes.
#[verifier::external_body]
fn decode_utf8(bytes: &[u8]) -> (s: String)
    requires
        3 * bytes@.len() + 8 <= usize::MAX,
    ensures
        s@ == utf8_text(bytes@),
{
    let (text, _, _) = encoding_rs::UTF_8.decode(bytes);
    text.into_owned()
}

/// Text in the machine's ANSI code page: Shift-JIS on Windows, else UTF-8.
pub open spec fn ansi_text(os: Os, b: Seq<u8>) -> Seq<char> {
    if os == Os::Windows {
        shift_jis_text(b)
    } else {
        utf8_text(b)
    }
}

/// Tab, line feed, carriage return or printable ASCII.
pub open spec fn is_text_byte(b: u8) -> bool {
    b == 9 || b == 10 || b == 13 || (0x20 <= b && b <= 0x7E)
}

pub open spec fn all_text_bytes(b: Seq<u8>) -> bool {
    forall|i: int| 0 <= i < b.len() ==> is_text_byte(#[trigger] b[i])
}

/// Little-endian 16-bit units of the complete pairs of a byte string.
pub open spec fn pair_units(b: Seq<u8>) -> Seq<u16> {
    le_units(b.take(2 * (b.len() as int / 2)))
}

/// The text of a BSTR's payload: UTF-16 where it looks so (even length,
/// two thirds of the sampled high bytes zero), else ANSI where it is
/// plain ASCII text, else UTF-16 where the length is even, else ANSI.
pub open spec fn bstr_bytes_text(os: Os, b: Seq<u8>) -> Seq<char> {
    if b.len() % 2 == 0 && mostly_zero(b, 1) {
        utf16_lossy(pair_units(b))
    } else if all_text_bytes(b) {
        ansi_text(os, b)
    } else if b.len() % 2 == 0 {
        utf16_lossy(pair_units(b))
    } else {
        ansi_text(os, b)
    }
}

/// The text of the BSTR at `ptr`: empty for a null pointer or an empty
/// payload; an error where the prefix or payload do not lie in memory.
pub open spec fn bstr_text(vm: &Vm, ptr: u32) -> Result<Seq<char>, VmError> {
    if ptr == 0 {
        Ok(Seq::empty())
    } else if ptr < 4 {
        Err(VmError::MemoryOutOfRange)
    } else {
        match mem_u32(vm, ptr - 4) {
            None => Err(VmError::MemoryOutOfRange),
            Some(n) => if n == 0 {
                Ok(Seq::empty())
            } else if !in_range(vm, ptr as int, n as int) {
                Err(VmError::MemoryOutOfRange)
            } else {
                Ok(bstr_bytes_text(vm.os, mem_bytes(vm, ptr as int, n as int)))
            },
        }
    }
}

/// A BSTR's text, or the empty text where it cannot be read.
pub open spec fn bstr_text_or_empty(vm: &Vm, ptr: u32) -> Seq<char> {
    match bstr_text(vm, ptr) {
        Ok(t) => t,
        Err(_) => Seq::empty(),
    }
}

/// The little-endian bytes of 16-bit units.
pub open spec fn units_bytes(u: Seq<u16>) -> Seq<u8> {
    Seq::new(2 * u.len(), |k: int| if k % 2 == 0 { (u[k / 2] % 256) as u8 } else { (u[k / 2] / 256) as u8 })
}

/// What a BSTR occupies in memory: the byte-length prefix, the payload and
/// a 16-bit NUL.
pub open spec fn bstr_image(payload: Seq<u8>) -> Seq<u8> {
    bytes32(payload.len() as u32) + payload + seq![0u8, 0u8]
}

/// Whether the memory holds `3 * n + 8` bytes' worth of decoding buffers
/// for every payload it can hold.
pub open spec fn decodable(vm: &Vm) -> bool {
    3 * vm.memory@.len() + 8 <= usize::MAX
}

/// Whether the bytes are all tab, line feed, carriage return or printable
/// ASCII.
pub fn is_probably_ascii(bytes: &[u8]) -> (r: bool)
    ensures
        r == all_text_bytes(bytes@),
{
    let mut i: usize = 0;
    while i < bytes.len()
        invariant
            i <= bytes.len(),
            forall|j: int| 0 <= j < i ==> is_text_byte(#[trigger] bytes@[j]),
        decreases bytes.len() - i,
    {
        let b = bytes[i];
        if !(b == 9 || b == 10 || b == 13 || (0x20 <= b && b <= 0x7E)) {
            assert(!is_text_byte(bytes@[i as int]));
            return false;
        }
        i = i + 1;
    }
    true
}

/// Whether at least two thirds of the sampled odd bytes are zero.
pub fn looks_like_utf16_le(bytes: &[u8]) -> (r: bool)
    ensures
        r == mostly_zero(bytes@, 1),
{
    looks_mostly_zero(bytes, 1)
}

/// The text of the complete little-endian 16-bit pairs of `bytes`.
pub fn decode_utf16_le(bytes: &[u8]) -> (r: String)
    ensures
        r@ == utf16_lossy(pair_units(bytes@)),
{
    let blen = bytes.len();
    let n = blen / 2;
    let ghost even = bytes@.take(2 * n);
    let mut units: Vec<u16> = Vec::new();
    let mut k: usize = 0;
    while k < n
        invariant
            blen == bytes@.len(),
            n == bytes@.len() / 2,
            even == bytes@.take(2 * n),
            k <= n,
            units@ == le_units(even).take(k as int),
        decreases n - k,
    {
        let u = bytes[2 * k] as u16 + 256 * (bytes[2 * k + 1] as u16);
        units.push(u);
        k = k + 1;
        assert(units@ =~= le_units(even).take(k as int));
    }
    assert(le_units(even).take(n as int) =~= le_units(even));
    decode_utf16_lossy(units.as_slice())
}

/// Text in the machine's ANSI code page.
pub fn decode_ansi(vm: &Vm, bytes: &[u8]) -> (r: String)
    requires
        3 * bytes@.len() + 8 <= usize::MAX,
    ensures
        r@ == ansi_text(vm.os, bytes@),
{
    match vm.os {
        Os::Windows => decode_shift_jis(bytes),
        _ => decode_utf8(bytes),
    }
}

/// The text of the BSTR at `ptr`.
pub fn read_bstr(vm: &Vm, ptr: u32) -> (r: Result<String, VmError>)
    requires
        decodable(vm),
    ensures
        match bstr_text(vm, ptr) {
            Ok(t) => r matches Ok(s) && s@ == t,
            Err(e) => r matches Err(x) && x == e,
        },
{
    if ptr == 0 {
        return Ok(String::new());
    }
    if ptr < 4 {
        return Err(VmError::MemoryOutOfRange);
    }
    let byte_len = vm.read_u32(ptr - 4)? as usize;
    if byte_len == 0 {
        return Ok(String::new());
    }
    let bytes = vm.read_bytes(ptr, byte_len)?;
    if byte_len % 2 == 0 && looks_like_utf16_le(bytes.as_slice()) {
        return Ok(decode_utf16_le(bytes.as_slice()));
    }
    if is_probably_ascii(bytes.as_slice()) {
        return Ok(decode_ansi(vm, bytes.as_slice()));
    }
    if byte_len % 2 == 0 {
        return Ok(decode_utf16_le(bytes.as_slice()));
    }
    Ok(decode_ansi(vm, bytes.as_slice()))
}

/// Scanning 16-bit units from `cur` up to a NUL, for at most `fuel` units.
pub open spec fn utf16z_scan(vm: &Vm, cur: u32, fuel: nat) -> Result<Seq<u16>, VmError>
    decreases fuel,
{
    if fuel == 0 {
        Ok(Seq::empty())
    } else {
        match mem_u16(vm, cur as int) {
            None => Err(VmError::MemoryOutOfRange),
            Some(v) => if v == 0 {
                Ok(Seq::empty())
            } else {
                match utf16z_scan(vm, add32(cur, 2), (fuel - 1) as nat) {
                    Ok(rest) => Ok(seq![v] + rest),
                    Err(e) => Err(e),
                }
            },
        }
    }
}

/// The NUL-terminated UTF-16 string at `ptr` (at most 65536 units; the
/// address wraps around).
pub open spec fn utf16z(vm: &Vm, ptr: u32) -> Result<Seq<u16>, VmError> {
    utf16z_scan(vm, ptr, 0x10000)
}

/// Reads a NUL-terminated UTF-16 string.
pub fn read_utf16_z(vm: &Vm, ptr: u32) -> (r: Result<Vec<u16>, VmError>)
    ensures
        match utf16z(vm, ptr) {
            Ok(u) => r matches Ok(v) && v@ == u,
            Err(e) => r matches Err(x) && x == e,
        },
{
    let mut out: Vec<u16> = Vec::new();
    let mut cursor = ptr;
    let mut i: u32 = 0;
    while i < 0x10000
        invariant
            i <= 0x10000,
            utf16z(vm, ptr) == match utf16z_scan(vm, cursor, (0x10000 - i) as nat) {
                Ok(rest) => Ok(out@ + rest),
                Err(e) => Err(e),
            },
        decreases 0x10000 - i,
    {
        let value = vm.read_u16(cursor)?;
        if value == 0 {
            assert(out@ + Seq::<u16>::empty() =~= out@);
            return Ok(out);
        }
        let ghost before = out@;
        out.push(value);
        proof {
            match utf16z_scan(vm, add32(cursor, 2), (0x10000 - i - 1) as nat) {
                Ok(rest) => {
                    assert(before + (seq![value] + rest) =~= out@ + rest);
                },
                Err(_) => {},
            }
        }
        cursor = wrap_add(cursor, 2);
        i = i + 1;
    }
    assert(out@ + Seq::<u16>::empty() =~= out@);
    Ok(out)
}

/// The `len` 16-bit units at `ptr`, where they all lie in memory.
pub open spec fn utf16_at(vm: &Vm, ptr: u32, len: nat) -> Option<Seq<u16>> {
    if in_range(vm, ptr as int, 2 * len as int) {
        Some(le_units(mem_bytes(vm, ptr as int, 2 * len as int)))
    } else {
        None
    }
}

/// Reads `len` UTF-16 units.
pub fn read_utf16_len(vm: &Vm, ptr: u32, len: usize) -> (r: Result<Vec<u16>, VmError>)
    ensures
        match utf16_at(vm, ptr, len as nat) {
            Some(u) => r matches Ok(v) && v@ == u,
            None => r == Err::<Vec<u16>, VmError>(VmError::MemoryOutOfRange),
        },
{
    if len > vm.memory.len() / 2 {
        return Err(VmError::MemoryOutOfRange);
    }
    let bytes = vm.read_bytes(ptr, 2 * len)?;
    let blen = bytes.len();
    let mut out: Vec<u16> = Vec::new();
    let mut k: usize = 0;
    while k < len
        invariant
            blen == bytes@.len(),
            bytes@.len() == 2 * len,
            k <= len,
            out@ == le_units(bytes@).take(k as int),
        decreases len - k,
    {
        out.push(bytes[2 * k] as u16 + 256 * (bytes[2 * k + 1] as u16));
        k = k + 1;
        assert(out@ =~= le_units(bytes@).take(k as int));
    }
    assert(le_units(bytes@).take(len as int) =~= le_units(bytes@));
    Ok(out)
}

/// `b` is `a` unchanged.
pub open spec fn unchanged(a: &Vm, b: &Vm) -> bool {
    &&& same_but_heap(a, b)
    &&& b.memory@ == a.memory@
    &&& b.heap_cursor == a.heap_cursor
}

/// Allocating a BSTR with `payload` on `a` gives `b` and returns `r` (the
/// BSTR pointer, past the prefix), or fails leaving the machine unchanged
/// and returns 0.
pub open spec fn bstr_alloc(a: &Vm, b: &Vm, payload: Seq<u8>, r: u32) -> bool {
    let image = bstr_image(payload);
    match alloc_at(a, image.len() as int, 4) {
        Some(p) => r == p + 4 && allocated(a, b, p, image),
        None => r == 0 && unchanged(a, b),
    }
}

/// `bstr_alloc` for an allocation that reports failure as an error.
pub open spec fn bstr_alloc_result(a: &Vm, b: &Vm, payload: Seq<u8>, r: Result<u32, VmError>) -> bool {
    let image = bstr_image(payload);
    match alloc_at(a, image.len() as int, 4) {
        Some(p) => r == Ok::<u32, VmError>((p + 4) as u32) && allocated(a, b, p, image),
        None => r is Err && unchanged(a, b),
    }
}

/// Allocates a BSTR whose payload is `payload`.
pub fn alloc_bstr_from_bytes(vm: &mut Vm, payload: &[u8]) -> (r: Result<u32, VmError>)
    ensures
        bstr_alloc_result(old(vm), final(vm), payload@, r),
{
    let ghost image = bstr_image(payload@);
    if payload.len() as u64 > vm.heap_end as u64 {
        return Err(VmError::OutOfMemory);
    }
    let byte_len = payload.len() as u32;
    let mut buf: Vec<u8> = Vec::new();
    buf.push((byte_len % 256) as u8);
    buf.push(((byte_len / 256) % 256) as u8);
    buf.push(((byte_len / 65536) % 256) as u8);
    buf.push((byte_len / 16777216) as u8);
    assert(buf@ =~= bytes32(payload@.len() as u32));
    let mut i: usize = 0;
    while i < payload.len()
        invariant
            i <= payload@.len(),
            buf@ == bytes32(payload@.len() as u32) + payload@.take(i as int),
        decreases payload.len() - i,
    {
        buf.push(payload[i]);
        i = i + 1;
        assert(buf@ =~= bytes32(payload@.len() as u32) + payload@.take(i as int));
    }
    buf.push(0);
    buf.push(0);
    assert(payload@.take(payload@.len() as int) =~= payload@);
    assert(buf@ =~= image);
    let a = vm.alloc_bytes(buf.as_slice(), 4)?;
    Ok(a + 4)
}

/// The little-endian bytes of 16-bit units.
pub fn units_to_bytes(units: &[u16]) -> (r: Vec<u8>)
    ensures
        r@ == units_bytes(units@),
{
    let mut out: Vec<u8> = Vec::new();
    let mut k: usize = 0;
    while k < units.len()
        invariant
            k <= units@.len(),
            out@ == units_bytes(units@.take(k as int)),
        decreases units.len() - k,
    {
        out.push((units[k] % 256) as u8);
        out.push((units[k] / 256) as u8);
        k = k + 1;
        assert(out@ =~= units_bytes(units@.take(k as int)));
    }
    assert(units@.take(units@.len() as int) =~= units@);
    out
}

/// Allocates a BSTR holding UTF-16 units.
pub fn alloc_bstr_from_utf16(vm: &mut Vm, utf16: &[u16]) -> (r: Result<u32, VmError>)
    ensures
        bstr_alloc_result(old(vm), final(vm), units_bytes(utf16@), r),
{
    if utf16.len() as u64 > vm.heap_end as u64 {
        return Err(VmError::OutOfMemory);
    }
    let payload = units_to_bytes(utf16);
    alloc_bstr_from_bytes(vm, payload.as_slice())
}

/// Allocates a BSTR holding a text (as UTF-16).
pub fn alloc_bstr(vm: &mut Vm, text: &str) -> (r: Result<u32, VmError>)
    ensures
        bstr_alloc_result(old(vm), final(vm), units_bytes(utf16_encode(text@)), r),
{
    let cs = chars_of(text);
    let units = encode_utf16(cs.as_slice());
    alloc_bstr_from_utf16(vm, units.as_slice())
}

/// What `sys_alloc_string` returns (`r`) and leaves (`post`) on the machine `pre`.
pub open spec fn sys_alloc_string_effect(pre: &Vm, post: &Vm, stack_ptr: u32, r: u32) -> bool {
    ({
        let src = arg(pre, stack_ptr, 0);
        if src == 0 {
            r == 0 && unchanged(pre, post)
        } else {
            match utf16z(pre, src) {
                Err(_) => r == 0 && unchanged(pre, post),
                Ok(u) => bstr_alloc(pre, post, units_bytes(u), r),
            }
        }
    })
}

/// `SysAllocString(wstr)`: a BSTR copy of a NUL-terminated UTF-16 string;
/// 0 for a null or unreadable string or where the heap is full.
pub fn sys_alloc_string(vm: &mut Vm, stack_ptr: u32) -> (r: u32)
    ensures
        sys_alloc_string_effect(old(vm), final(vm), stack_ptr, r),
{
    let src = vm.arg(stack_ptr, 0);
    if src == 0 {
        return 0;
    }
    let utf16 = match read_utf16_z(vm, src) {
        Ok(value) => value,
        Err(_) => return 0,
    };
    match alloc_bstr_from_utf16(vm, utf16.as_slice()) {
        Ok(p) => p,
        Err(_) => 0,
    }
}

/// Whether a BSTR with a payload of `n` bytes fits on the heap.
fn bstr_fits(vm: &Vm, n: u64) -> (r: bool)
    ensures
        r == (n <= 0x1_0000_0000 && crate::vm::align_up(vm.heap_cursor as int, 4) + 6 + n <= vm.heap_end),
        !r ==> alloc_at(vm, bstr_image_len(n as int), 4) is None,
{
    let c = vm.heap_cursor as u64;
    let rem = c % 4;
    let p: u64 = if rem == 0 { c } else { c + 4 - rem };
    if n > 0x1_0000_0000 {
        return false;
    }
    p + 6 + n <= vm.heap_end as u64
}

pub open spec fn bstr_image_len(n: int) -> int {
    n + 6
}

/// What `sys_alloc_string_len` returns (`r`) and leaves (`post`) on the machine `pre`.
pub open spec fn sys_alloc_string_len_effect(pre: &Vm, post: &Vm, stack_ptr: u32, r: u32) -> bool {
    ({
        let src = arg(pre, stack_ptr, 0);
        let len = arg(pre, stack_ptr, 1);
        if src == 0 {
            bstr_alloc(pre, post, Seq::new(2 * len as nat, |i: int| 0u8), r)
        } else {
            match utf16_at(pre, src, len as nat) {
                None => r == 0 && unchanged(pre, post),
                Some(u) => bstr_alloc(pre, post, units_bytes(u), r),
            }
        }
    })
}

/// `SysAllocStringLen(wstr, len)`: a BSTR of `len` units copied from
/// `wstr`, or zeros where it is null; 0 where they cannot be read or the
/// heap is full.
pub fn sys_alloc_string_len(vm: &mut Vm, stack_ptr: u32) -> (r: u32)
    ensures
        sys_alloc_string_len_effect(old(vm), final(vm), stack_ptr, r),
{
    let src = vm.arg(stack_ptr, 0);
    let len = vm.arg(stack_ptr, 1);
    let utf16 = if src == 0 {
        if !bstr_fits(vm, 2 * len as u64) {
            assert(bstr_image(Seq::new(2 * len as nat, |i: int| 0u8)).len() == bstr_image_len(2 * len as int));
            return 0;
        }
        let mut zeros: Vec<u16> = Vec::new();
        let mut i: u32 = 0;
        while i < len
            invariant
                i <= len,
                zeros@ == Seq::new(i as nat, |j: int| 0u16),
            decreases len - i,
        {
            zeros.push(0);
            i = i + 1;
            assert(zeros@ =~= Seq::new(i as nat, |j: int| 0u16));
        }
        assert(units_bytes(zeros@) =~= Seq::new(2 * len as nat, |i: int| 0u8));
        zeros
    } else {
        match read_utf16_len(vm, src, len as usize) {
            Ok(value) => value,
            Err(_) => return 0,
        }
    };
    match alloc_bstr_from_utf16(vm, utf16.as_slice()) {
        Ok(p) => p,
        Err(_) => 0,
    }
}

/// The `len` bytes from `src` (the address wrapping around), each 0 where it
/// does not lie in memory.
pub open spec fn bytes_or0(vm: &Vm, src: u32, len: nat) -> Seq<u8> {
    Seq::new(len, |i: int| u8_or0(vm, add32(src, i as u32) as int))
}

/// What `sys_alloc_string_byte_len` returns (`r`) and leaves (`post`) on the machine `pre`.
pub open spec fn sys_alloc_string_byte_len_effect(pre: &Vm, post: &Vm, stack_ptr: u32, r: u32) -> bool {
    ({
        let src = arg(pre, stack_ptr, 0);
        let len = arg(pre, stack_ptr, 1);
        if src == 0 {
            bstr_alloc(pre, post, Seq::new(len as nat, |i: int| 0u8), r)
        } else {
            bstr_alloc(pre, post, bytes_or0(pre, src, len as nat), r)
        }
    })
}

/// `SysAllocStringByteLen(ptr, len)`: a BSTR whose payload is `len` bytes
/// copied from `ptr` (unreadable ones as 0), or zeros where it is null; 0
/// where the heap is full.
pub fn sys_alloc_string_byte_len(vm: &mut Vm, stack_ptr: u32) -> (r: u32)
    ensures
        sys_alloc_string_byte_len_effect(old(vm), final(vm), stack_ptr, r),
{
    let src = vm.arg(stack_ptr, 0);
    let len = vm.arg(stack_ptr, 1);
    if !bstr_fits(vm, len as u64) {
        assert(bstr_image(Seq::new(len as nat, |i: int| 0u8)).len() == bstr_image_len(len as int));
        assert(bstr_image(bytes_or0(vm, src, len as nat)).len() == bstr_image_len(len as int));
        return 0;
    }
    let mut bytes: Vec<u8> = Vec::new();
    let mut i: u32 = 0;
    while i < len
        invariant
            i <= len,
            bytes@.len() == i,
            forall|j: int| 0 <= j < i ==> #[trigger] bytes@[j] == if src == 0 { 0u8 } else { u8_or0(vm, add32(src, j as u32) as int) },
        decreases len - i,
    {
        let b = if src == 0 {
            0
        } else {
            match vm.read_u8(wrap_add(src, i)) {
                Ok(v) => v,
                Err(_) => 0,
            }
        };
        bytes.push(b);
        i = i + 1;
    }
    proof {
        if src == 0 {
            assert(bytes@ =~= Seq::new(len as nat, |j: int| 0u8));
        } else {
            assert(bytes@ =~= bytes_or0(vm, src, len as nat));
        }
    }
    match alloc_bstr_from_bytes(vm, bytes.as_slice()) {
        Ok(p) => p,
        Err(_) => 0,
    }
}

/// What `sys_free_string` returns (`r`) and leaves (`post`) on the machine `pre`.
pub open spec fn sys_free_string_effect(pre: &Vm, post: &Vm, stack_ptr: u32, r: u32) -> bool {
    &&& r == 0
    &&& unchanged(pre, post)
}

/// `SysFreeString(bstr)`: the heap does not reclaim; returns 0.
pub fn sys_free_string(vm: &mut Vm, stack_ptr: u32) -> (r: u32)
    ensures
        sys_free_string_effect(old(vm), final(vm), stack_ptr, r),
{
    0
}

/// What `sys_string_len` returns (`r`) and leaves (`post`) on the machine `pre`.
pub open spec fn sys_string_len_effect(pre: &Vm, post: &Vm, stack_ptr: u32, r: u32) -> bool {
    &&& unchanged(pre, post)
    &&& ({
        let p = arg(pre, stack_ptr, 0);
        r == if p < 4 { 0 } else { u32_or0(pre, p - 4) / 2 }
    })
}

/// `SysStringLen(bstr)`: the length in UTF-16 units (half the prefix); 0
/// for a null pointer or an unreadable prefix.
pub fn sys_string_len(vm: &mut Vm, stack_ptr: u32) -> (r: u32)
    ensures
        sys_string_len_effect(old(vm), final(vm), stack_ptr, r),
{
    let ptr = vm.arg(stack_ptr, 0);
    if ptr == 0 || ptr < 4 {
        return 0;
    }
    vm.read_u32_or0(ptr - 4) / 2
}

/// What `sys_string_byte_len` returns (`r`) and leaves (`post`) on the machine `pre`.
pub open spec fn sys_string_byte_len_effect(pre: &Vm, post: &Vm, stack_ptr: u32, r: u32) -> bool {
    &&& unchanged(pre, post)
    &&& ({
        let p = arg(pre, stack_ptr, 0);
        r == if p < 4 { 0 } else { u32_or0(pre, p - 4) }
    })
}

/// `SysStringByteLen(bstr)`: the prefix; 0 for a null pointer or an
/// unreadable prefix.
pub fn sys_string_byte_len(vm: &mut Vm, stack_ptr: u32) -> (r: u32)
    ensures
        sys_string_byte_len_effect(old(vm), final(vm), stack_ptr, r),
{
    let ptr = vm.arg(stack_ptr, 0);
    if ptr == 0 || ptr < 4 {
        return 0;
    }
    vm.read_u32_or0(ptr - 4)
}

} // verus!
