//! MSVCR40D.dll: the C runtime routines that legacy DLLs import.

pub mod format;

use vstd::prelude::*;

use super::oleaut32::bstr::unchanged;
use crate::registry::reg_file::decode::{from_utf8_lossy, utf8_lossy};
use crate::vm::imports::{imports_model, named, same_but_imports, CallConv, ImportModel, Routine};
use crate::vm::{
    add32, alloc_at, allocated, arg, block_image, bytes32, in_range, same_but_heap, same_but_memory, store, u32_or0,
    u8_or0, wrap_add, written, Vm, BLOCK_HEADER,
};

verus! {

pub const DLL_NAME: &'static str = "MSVCR40D.dll";

pub const FILE_STRUCT_SIZE: usize = 0x20;
pub const FILE_FLAG_OFFSET: u32 = 0x0C;
pub const FILE_HANDLE_OFFSET: u32 = 0x10;
pub const IOREAD: u32 = 0x0001;
pub const IOWRT: u32 = 0x0002;
pub const IOEOF: u32 = 0x0010;
pub const IOERR: u32 = 0x0020;

pub open spec fn crt(name: Seq<char>, routine: Routine) -> ImportModel {
    named(DLL_NAME@, name, CallConv::Cdecl, routine)
}

/// What `register` adds, in order.
pub open spec fn imports() -> Seq<ImportModel> {
    seq![
        crt("sprintf"@, Routine::Sprintf),
        crt("malloc"@, Routine::Malloc),
        crt("memcpy"@, Routine::Memcpy),
        crt("fopen"@, Routine::Fopen),
        crt("fclose"@, Routine::Fclose),
        crt("fgetc"@, Routine::Fgetc),
        crt("__CxxFrameHandler"@, Routine::CxxFrameHandler),
        crt("??1type_info@@UAE@XZ"@, Routine::TypeInfoDtor),
        crt("??3@YAXPAX@Z"@, Routine::OperatorDelete),
        crt("_adjust_fdiv"@, Routine::AdjustFdiv),
        crt("_malloc_dbg"@, Routine::MallocDbg),
        crt("_initterm"@, Routine::Initterm),
        crt("_free_dbg"@, Routine::FreeDbg),
        crt("_onexit"@, Routine::Onexit),
        crt("fputc"@, Routine::Fputc),
        crt("strcpy"@, Routine::Strcpy),
        crt("memset"@, Routine::Memset),
        crt("strcat"@, Routine::Strcat),
        crt("__dllonexit"@, Routine::DllOnexit),
    ]
}

pub fn register(vm: &mut Vm)
    ensures
        same_but_imports(old(vm), final(vm)),
        imports_model(final(vm).imports@) == imports_model(old(vm).imports@) + imports(),
{
    let ghost start = imports_model(vm.imports@);
    vm.register_import(DLL_NAME, "sprintf", Routine::Sprintf);
    vm.register_import(DLL_NAME, "malloc", Routine::Malloc);
    vm.register_import(DLL_NAME, "memcpy", Routine::Memcpy);
    vm.register_import(DLL_NAME, "fopen", Routine::Fopen);
    vm.register_import(DLL_NAME, "fclose", Routine::Fclose);
    vm.register_import(DLL_NAME, "fgetc", Routine::Fgetc);
    vm.register_import(DLL_NAME, "__CxxFrameHandler", Routine::CxxFrameHandler);
    vm.register_import(DLL_NAME, "??1type_info@@UAE@XZ", Routine::TypeInfoDtor);
    vm.register_import(DLL_NAME, "??3@YAXPAX@Z", Routine::OperatorDelete);
    vm.register_import(DLL_NAME, "_adjust_fdiv", Routine::AdjustFdiv);
    vm.register_import(DLL_NAME, "_malloc_dbg", Routine::MallocDbg);
    vm.register_import(DLL_NAME, "_initterm", Routine::Initterm);
    vm.register_import(DLL_NAME, "_free_dbg", Routine::FreeDbg);
    vm.register_import(DLL_NAME, "_onexit", Routine::Onexit);
    vm.register_import(DLL_NAME, "fputc", Routine::Fputc);
    vm.register_import(DLL_NAME, "strcpy", Routine::Strcpy);
    vm.register_import(DLL_NAME, "memset", Routine::Memset);
    vm.register_import(DLL_NAME, "strcat", Routine::Strcat);
    vm.register_import(DLL_NAME, "__dllonexit", Routine::DllOnexit);
    assert(imports_model(vm.imports@) =~= start + imports());
}

/// `malloc`'s outcome: `size` zeroed bytes aligned to 8, or 0.
pub open spec fn malloc_outcome(a: &Vm, b: &Vm, size: u32, r: u32) -> bool {
    match alloc_at(a, size as int, 8) {
        Some(p) => r == p && allocated(a, b, p, Seq::new(size as nat, |i: int| 0u8)),
        None => r == 0 && unchanged(a, b),
    }
}

fn heap_alloc_zeroed(vm: &mut Vm, size: u32) -> (r: u32)
    ensures
        malloc_outcome(old(vm), final(vm), size, r),
{
    let c = vm.heap_cursor as u64;
    let rem = c % 8;
    let p: u64 = if rem == 0 { c } else { c + 8 - rem };
    if p + size as u64 > vm.heap_end as u64 {
        return 0;
    }
    vm.heap_alloc(size as usize)
}

/// What `malloc_impl` returns (`r`) and leaves (`post`) on the machine `pre`.
pub open spec fn malloc_impl_effect(pre: &Vm, post: &Vm, stack_ptr: u32, r: u32) -> bool {
    malloc_outcome(pre, post, arg(pre, stack_ptr, 0), r)
}

/// `malloc(size)`.
pub fn malloc_impl(vm: &mut Vm, stack_ptr: u32) -> (r: u32)
    ensures
        malloc_impl_effect(old(vm), final(vm), stack_ptr, r),
{
    let size = vm.arg(stack_ptr, 0);
    heap_alloc_zeroed(vm, size)
}

/// What `malloc_dbg` returns (`r`) and leaves (`post`) on the machine `pre`.
pub open spec fn malloc_dbg_effect(pre: &Vm, post: &Vm, stack_ptr: u32, r: u32) -> bool {
    malloc_outcome(pre, post, arg(pre, stack_ptr, 0), r)
}

/// `_malloc_dbg(size, block, file, line)`.
pub fn malloc_dbg(vm: &mut Vm, stack_ptr: u32) -> (r: u32)
    ensures
        malloc_dbg_effect(old(vm), final(vm), stack_ptr, r),
{
    let size = vm.arg(stack_ptr, 0);
    heap_alloc_zeroed(vm, size)
}

/// What `free_dbg` returns (`r`) and leaves (`post`) on the machine `pre`.
pub open spec fn free_dbg_effect(pre: &Vm, post: &Vm, stack_ptr: u32, r: u32) -> bool {
    &&& r == 0
    &&& unchanged(pre, post)
}

/// `_free_dbg(ptr, block)`: the heap does not reclaim; returns 0.
pub fn free_dbg(vm: &mut Vm, stack_ptr: u32) -> (r: u32)
    ensures
        free_dbg_effect(old(vm), final(vm), stack_ptr, r),
{
    0
}

/// What `operator_delete` returns (`r`) and leaves (`post`) on the machine `pre`.
pub open spec fn operator_delete_effect(pre: &Vm, post: &Vm, stack_ptr: u32, r: u32) -> bool {
    &&& r == 0
    &&& unchanged(pre, post)
}

/// `operator delete(ptr)`: the heap does not reclaim; returns 0.
pub fn operator_delete(vm: &mut Vm, stack_ptr: u32) -> (r: u32)
    ensures
        operator_delete_effect(old(vm), final(vm), stack_ptr, r),
{
    0
}

/// The `len` bytes from `src` (the address wrapping around), unreadable
/// ones as 0.
pub open spec fn bytes_or0(vm: &Vm, src: u32, len: nat) -> Seq<u8> {
    Seq::new(len, |i: int| u8_or0(vm, add32(src, i as u32) as int))
}

/// What `memcpy_impl` returns (`r`) and leaves (`post`) on the machine `pre`.
pub open spec fn memcpy_impl_effect(pre: &Vm, post: &Vm, stack_ptr: u32, r: u32) -> bool {
    &&& same_but_memory(pre, post)
    &&& ({
        let dst = arg(pre, stack_ptr, 0);
        let src = arg(pre, stack_ptr, 1);
        let len = arg(pre, stack_ptr, 2);
        &&& r == dst
        &&& post.memory@ == if dst == 0 || src == 0 || len == 0 {
            pre.memory@
        } else {
            store(pre.base, pre.memory@, dst as int, bytes_or0(pre, src, len as nat))
        }
    })
}

/// `memcpy(dst, src, len)`: copies (unreadable source bytes as 0) where the
/// destination lies in memory; returns `dst`.
pub fn memcpy_impl(vm: &mut Vm, stack_ptr: u32) -> (r: u32)
    ensures
        memcpy_impl_effect(old(vm), final(vm), stack_ptr, r),
{
    let dst = vm.arg(stack_ptr, 0);
    let src = vm.arg(stack_ptr, 1);
    let len = vm.arg(stack_ptr, 2);
    if dst == 0 || src == 0 || len == 0 {
        return dst;
    }
    if !vm.contains_addr(dst) || (len as usize) > vm.memory.len() {
        proof {
            let b = bytes_or0(vm, src, len as nat);
            assert(!in_range(vm, dst as int, b.len() as int));
        }
        return dst;
    }
    let mut bytes: Vec<u8> = Vec::new();
    let mut i: u32 = 0;
    while i < len
        invariant
            i <= len,
            bytes@.len() == i,
            forall|j: int| 0 <= j < i ==> #[trigger] bytes@[j] == u8_or0(vm, add32(src, j as u32) as int),
        decreases len - i,
    {
        let b = match vm.read_u8(wrap_add(src, i)) {
            Ok(v) => v,
            Err(_) => 0,
        };
        bytes.push(b);
        i = i + 1;
    }
    assert(bytes@ =~= bytes_or0(vm, src, len as nat));
    let _ = vm.write_bytes(dst, bytes.as_slice());
    dst
}

/// What `memset_impl` returns (`r`) and leaves (`post`) on the machine `pre`.
pub open spec fn memset_impl_effect(pre: &Vm, post: &Vm, stack_ptr: u32, r: u32) -> bool {
    &&& same_but_memory(pre, post)
    &&& ({
        let dst = arg(pre, stack_ptr, 0);
        let v = arg(pre, stack_ptr, 1);
        let len = arg(pre, stack_ptr, 2);
        &&& r == dst
        &&& post.memory@ == if dst == 0 || len == 0 {
            pre.memory@
        } else {
            store(pre.base, pre.memory@, dst as int, Seq::new(len as nat, |i: int| v as u8))
        }
    })
}

/// `memset(dst, value, len)`: fills with the low byte of `value` where the
/// destination lies in memory; returns `dst`.
pub fn memset_impl(vm: &mut Vm, stack_ptr: u32) -> (r: u32)
    ensures
        memset_impl_effect(old(vm), final(vm), stack_ptr, r),
{
    let dst = vm.arg(stack_ptr, 0);
    let value = vm.arg(stack_ptr, 1);
    let len = vm.arg(stack_ptr, 2);
    if dst == 0 || len == 0 {
        return dst;
    }
    let byte = value as u8;
    if (len as usize) > vm.memory.len() {
        return dst;
    }
    let mut fill: Vec<u8> = Vec::new();
    let mut i: u32 = 0;
    while i < len
        invariant
            i <= len,
            fill@ == Seq::new(i as nat, |j: int| byte),
        decreases len - i,
    {
        fill.push(byte);
        i = i + 1;
        assert(fill@ =~= Seq::new(i as nat, |j: int| byte));
    }
    let _ = vm.write_bytes(dst, fill.as_slice());
    dst
}

/// Scanning bytes from `cur` up to a NUL (an unreadable byte ends the
/// string too), for at most `fuel` bytes.
pub open spec fn cstr_scan(vm: &Vm, cur: u32, fuel: nat) -> Seq<u8>
    decreases fuel,
{
    if fuel == 0 || u8_or0(vm, cur as int) == 0 {
        Seq::empty()
    } else {
        seq![u8_or0(vm, cur as int)] + cstr_scan(vm, add32(cur, 1), (fuel - 1) as nat)
    }
}

/// The bytes of the C string at `ptr` (at most 65536), none for a null
/// pointer.
pub open spec fn cstr_bytes(vm: &Vm, ptr: u32) -> Seq<u8> {
    if ptr == 0 {
        Seq::empty()
    } else {
        cstr_scan(vm, ptr, 0x10000)
    }
}

/// Reads the bytes of a C string.
pub fn read_c_string_bytes(vm: &Vm, ptr: u32) -> (r: Vec<u8>)
    ensures
        r@ == cstr_bytes(vm, ptr),
{
    let mut bytes: Vec<u8> = Vec::new();
    if ptr == 0 {
        return bytes;
    }
    let mut cursor = ptr;
    let mut i: u32 = 0;
    while i < 0x10000
        invariant
            i <= 0x10000,
            cstr_bytes(vm, ptr) == bytes@ + cstr_scan(vm, cursor, (0x10000 - i) as nat),
            ptr != 0,
        decreases 0x10000 - i,
    {
        let byte = match vm.read_u8(cursor) {
            Ok(v) => v,
            Err(_) => 0,
        };
        if byte == 0 {
            assert(bytes@ + Seq::<u8>::empty() =~= bytes@);
            return bytes;
        }
        let ghost before = bytes@;
        bytes.push(byte);
        assert(before + (seq![byte] + cstr_scan(vm, add32(cursor, 1), (0x10000 - i - 1) as nat))
            =~= bytes@ + cstr_scan(vm, add32(cursor, 1), (0x10000 - i - 1) as nat));
        cursor = wrap_add(cursor, 1);
        i = i + 1;
    }
    assert(bytes@ + Seq::<u8>::empty() =~= bytes@);
    bytes
}

/// The text of the C string at `ptr` (UTF-8, malformed bytes as U+FFFD).
pub fn read_c_string(vm: &Vm, ptr: u32) -> (r: String)
    ensures
        r@ == utf8_lossy(cstr_bytes(vm, ptr)),
{
    let bytes = read_c_string_bytes(vm, ptr);
    from_utf8_lossy(bytes.as_slice())
}

/// What `strcpy_impl` returns (`r`) and leaves (`post`) on the machine `pre`.
pub open spec fn strcpy_impl_effect(pre: &Vm, post: &Vm, stack_ptr: u32, r: u32) -> bool {
    &&& same_but_memory(pre, post)
    &&& ({
        let dst = arg(pre, stack_ptr, 0);
        let src = arg(pre, stack_ptr, 1);
        if dst == 0 {
            r == 0 && post.memory@ == pre.memory@
        } else {
            r == dst && post.memory@ == store(pre.base, pre.memory@, dst as int,
                cstr_bytes(pre, src).push(0))
        }
    })
}

/// `strcpy(dst, src)`: copies the source string and its NUL where the
/// destination lies in memory; returns `dst` (0 for a null destination).
pub fn strcpy_impl(vm: &mut Vm, stack_ptr: u32) -> (r: u32)
    ensures
        strcpy_impl_effect(old(vm), final(vm), stack_ptr, r),
{
    let dst = vm.arg(stack_ptr, 0);
    let src = vm.arg(stack_ptr, 1);
    if dst == 0 {
        return 0;
    }
    let mut out = read_c_string_bytes(vm, src);
    out.push(0);
    let _ = vm.write_bytes(dst, out.as_slice());
    dst
}

/// What `strcat_impl` returns (`r`) and leaves (`post`) on the machine `pre`.
pub open spec fn strcat_impl_effect(pre: &Vm, post: &Vm, stack_ptr: u32, r: u32) -> bool {
    &&& same_but_memory(pre, post)
    &&& ({
        let dst = arg(pre, stack_ptr, 0);
        let src = arg(pre, stack_ptr, 1);
        if dst == 0 {
            r == 0 && post.memory@ == pre.memory@
        } else {
            r == dst && post.memory@ == store(pre.base, pre.memory@, dst as int,
                (cstr_bytes(pre, dst) + cstr_bytes(pre, src)).push(0))
        }
    })
}

/// `strcat(dst, src)`: writes the destination string, the source string and
/// a NUL at `dst` where they lie in memory; returns `dst` (0 for a null
/// destination).
pub fn strcat_impl(vm: &mut Vm, stack_ptr: u32) -> (r: u32)
    ensures
        strcat_impl_effect(old(vm), final(vm), stack_ptr, r),
{
    let dst = vm.arg(stack_ptr, 0);
    let src = vm.arg(stack_ptr, 1);
    if dst == 0 {
        return 0;
    }
    let mut out = read_c_string_bytes(vm, dst);
    let tail = read_c_string_bytes(vm, src);
    let ghost head = out@;
    let mut i: usize = 0;
    while i < tail.len()
        invariant
            i <= tail@.len(),
            out@ == head + tail@.take(i as int),
        decreases tail.len() - i,
    {
        out.push(tail[i]);
        i = i + 1;
        assert(out@ =~= head + tail@.take(i as int));
    }
    assert(tail@.take(tail@.len() as int) =~= tail@);
    out.push(0);
    let _ = vm.write_bytes(dst, out.as_slice());
    dst
}

/// What `cxx_frame_handler` returns (`r`) and leaves (`post`) on the machine `pre`.
pub open spec fn cxx_frame_handler_effect(pre: &Vm, post: &Vm, stack_ptr: u32, r: u32) -> bool {
    &&& r == 0
    &&& unchanged(pre, post)
}

/// `__CxxFrameHandler`: returns 0.
pub fn cxx_frame_handler(vm: &mut Vm, stack_ptr: u32) -> (r: u32)
    ensures
        cxx_frame_handler_effect(old(vm), final(vm), stack_ptr, r),
{
    0
}

/// What `type_info_dtor` returns (`r`) and leaves (`post`) on the machine `pre`.
pub open spec fn type_info_dtor_effect(pre: &Vm, post: &Vm, stack_ptr: u32, r: u32) -> bool {
    &&& r == 0
    &&& unchanged(pre, post)
}

/// `type_info::~type_info`: returns 0.
pub fn type_info_dtor(vm: &mut Vm, stack_ptr: u32) -> (r: u32)
    ensures
        type_info_dtor_effect(old(vm), final(vm), stack_ptr, r),
{
    0
}

/// What `adjust_fdiv` returns (`r`) and leaves (`post`) on the machine `pre`.
pub open spec fn adjust_fdiv_effect(pre: &Vm, post: &Vm, stack_ptr: u32, r: u32) -> bool {
    &&& r == 0
    &&& unchanged(pre, post)
}

/// `_adjust_fdiv`: returns 0.
pub fn adjust_fdiv(vm: &mut Vm, stack_ptr: u32) -> (r: u32)
    ensures
        adjust_fdiv_effect(old(vm), final(vm), stack_ptr, r),
{
    0
}

/// What `initterm` returns (`r`) and leaves (`post`) on the machine `pre`.
pub open spec fn initterm_effect(pre: &Vm, post: &Vm, stack_ptr: u32, r: u32) -> bool {
    &&& r == 0
    &&& unchanged(pre, post)
}

/// `_initterm`: runs no initializers; returns 0.
pub fn initterm(vm: &mut Vm, stack_ptr: u32) -> (r: u32)
    ensures
        initterm_effect(old(vm), final(vm), stack_ptr, r),
{
    0
}

/// What `onexit` returns (`r`) and leaves (`post`) on the machine `pre`.
pub open spec fn onexit_effect(pre: &Vm, post: &Vm, stack_ptr: u32, r: u32) -> bool {
    &&& r == 0
    &&& unchanged(pre, post)
}

/// `_onexit`: registers nothing; returns 0.
pub fn onexit(vm: &mut Vm, stack_ptr: u32) -> (r: u32)
    ensures
        onexit_effect(old(vm), final(vm), stack_ptr, r),
{
    0
}

/// What `dll_onexit` returns (`r`) and leaves (`post`) on the machine `pre`.
pub open spec fn dll_onexit_effect(pre: &Vm, post: &Vm, stack_ptr: u32, r: u32) -> bool {
    &&& r == 0
    &&& unchanged(pre, post)
}

/// `__dllonexit`: registers nothing; returns 0.
pub fn dll_onexit(vm: &mut Vm, stack_ptr: u32) -> (r: u32)
    ensures
        dll_onexit_effect(old(vm), final(vm), stack_ptr, r),
{
    0
}

/// Whether the bytes are printable ASCII (and not empty).
pub open spec fn printable(b: Seq<u8>) -> bool {
    b.len() > 0 && forall|i: int| 0 <= i < b.len() ==> 0x20 <= #[trigger] b[i] <= 0x7E
}

/// The text of non-empty printable ASCII bytes.
pub fn bytes_to_ascii(bytes: &[u8]) -> (r: Option<String>)
    ensures
        match r {
            Some(s) => printable(bytes@) && s@ == utf8_lossy(bytes@),
            None => !printable(bytes@),
        },
{
    if bytes.len() == 0 {
        return None;
    }
    let mut i: usize = 0;
    while i < bytes.len()
        invariant
            i <= bytes@.len(),
            forall|j: int| 0 <= j < i ==> 0x20 <= #[trigger] bytes@[j] <= 0x7E,
        decreases bytes.len() - i,
    {
        if bytes[i] < 0x20 || bytes[i] > 0x7E {
            return None;
        }
        i = i + 1;
    }
    Some(from_utf8_lossy(bytes))
}

/// The number of dots in a text.
pub open spec fn dot_count(t: Seq<char>) -> nat
    decreases t.len(),
{
    if t.len() == 0 {
        0
    } else {
        dot_count(t.drop_last()) + if t.last() == '.' { 1nat } else { 0nat }
    }
}

/// Whether the dots counted before the first character that is neither a
/// digit nor a dot stay below 256 (the count is kept in a byte).
pub open spec fn ipv4_dots_fit(t: Seq<char>) -> bool {
    forall|i: int|
        0 <= i <= t.len() && (forall|j: int| 0 <= j < i ==> ('0' <= #[trigger] t[j] <= '9' || t[j] == '.'))
            ==> dot_count(#[trigger] t.take(i)) < 256
}

/// Whether a text is digits and exactly three dots, with a digit.
pub open spec fn ipv4_like(t: Seq<char>) -> bool {
    &&& forall|i: int| 0 <= i < t.len() ==> ('0' <= #[trigger] t[i] <= '9' || t[i] == '.')
    &&& exists|i: int| 0 <= i < t.len() && '0' <= #[trigger] t[i] <= '9'
    &&& dot_count(t) == 3
}

/// Whether a text looks like a dotted IPv4 address.
pub fn looks_like_ipv4(text: &str) -> (r: bool)
    requires
        ipv4_dots_fit(text@),
    ensures
        r == ipv4_like(text@),
{
    let cs = crate::text::chars_of(text);
    let mut dots: u8 = 0;
    let mut has_digit = false;
    let mut i: usize = 0;
    while i < cs.len()
        invariant
            i <= cs@.len(),
            cs@ == text@,
            forall|j: int| 0 <= j < i ==> ('0' <= #[trigger] cs@[j] <= '9' || cs@[j] == '.'),
            has_digit == exists|j: int| 0 <= j < i && '0' <= #[trigger] cs@[j] <= '9',
            dots == dot_count(cs@.take(i as int)),
            ipv4_dots_fit(cs@),
        decreases cs.len() - i,
    {
        let c = cs[i];
        assert(cs@.take(i + 1).drop_last() =~= cs@.take(i as int));
        assert(cs@.take(i as int).push(c) =~= cs@.take(i + 1));
        if '0' <= c && c <= '9' {
            has_digit = true;
        } else if c == '.' {
            assert(dot_count(cs@.take(i + 1)) < 256);
            dots = dots + 1;
        } else {
            return false;
        }
        i = i + 1;
    }
    assert(cs@.take(cs@.len() as int) =~= cs@);
    has_digit && dots == 3
}

/// How `fopen` opens a file for a mode string.
#[derive(Debug, Clone, Copy, PartialEq, Eq)]
pub struct OpenMode {
    pub readable: bool,
    pub writable: bool,
    pub create: bool,
    pub truncate: bool,
    pub append: bool,
}

pub open spec fn open_mode(m: Seq<char>) -> OpenMode {
    OpenMode {
        readable: m.contains('r') || m.contains('+'),
        writable: m.contains('w') || m.contains('a') || m.contains('+'),
        create: m.contains('w') || m.contains('a') || m.contains('+'),
        truncate: m.contains('w'),
        append: m.contains('a'),
    }
}

fn has_char(cs: &[char], c: char) -> (r: bool)
    ensures
        r == cs@.contains(c),
{
    let mut i: usize = 0;
    while i < cs.len()
        invariant
            i <= cs@.len(),
            forall|j: int| 0 <= j < i ==> cs@[j] != c,
        decreases cs.len() - i,
    {
        if cs[i] == c {
            return true;
        }
        i = i + 1;
    }
    false
}

/// The flags of an `fopen` mode string.
pub fn parse_mode(mode: &str) -> (r: OpenMode)
    ensures
        r == open_mode(mode@),
{
    let cs = crate::text::chars_of(mode);
    let r = has_char(cs.as_slice(), 'r');
    let w = has_char(cs.as_slice(), 'w');
    let a = has_char(cs.as_slice(), 'a');
    let plus = has_char(cs.as_slice(), '+');
    OpenMode {
        readable: r || plus,
        writable: w || a || plus,
        create: w || a || plus,
        truncate: w,
        append: a,
    }
}

/// The host file handle of a stream: the handle field of a `FILE` in
/// memory, or the value itself where it is no address in memory.
pub open spec fn file_handle(vm: &Vm, file_ptr: u32) -> Option<u32> {
    if file_ptr == 0 {
        None
    } else if in_range(vm, file_ptr as int, 1) {
        crate::vm::mem_u32(vm, file_ptr + FILE_HANDLE_OFFSET)
    } else {
        Some(file_ptr)
    }
}

/// The host file handle of a stream.
pub fn read_file_handle(vm: &Vm, file_ptr: u32) -> (r: Option<u32>)
    ensures
        r == file_handle(vm, file_ptr),
{
    if file_ptr == 0 {
        return None;
    }
    if vm.contains_addr(file_ptr) {
        if file_ptr > u32::MAX - FILE_HANDLE_OFFSET {
            return None;
        }
        match vm.read_u32(file_ptr + FILE_HANDLE_OFFSET) {
            Ok(v) => Some(v),
            Err(_) => None,
        }
    } else {
        Some(file_ptr)
    }
}

/// Memory once flag bits of the `FILE` at `file_ptr` are set or cleared
/// (unchanged for a stream that is no address in memory or whose flags
/// cannot be read).
pub open spec fn flag_set(vm: &Vm, file_ptr: u32, mask: u32, set: bool) -> Seq<u8> {
    if file_ptr == 0 || !in_range(vm, file_ptr as int, 1) {
        vm.memory@
    } else {
        match crate::vm::mem_u32(vm, file_ptr + FILE_FLAG_OFFSET) {
            None => vm.memory@,
            Some(flags) => store(vm.base, vm.memory@, file_ptr + FILE_FLAG_OFFSET,
                crate::vm::bytes32(if set { flags | mask } else { flags & !mask })),
        }
    }
}

/// Sets or clears flag bits of a `FILE` in memory (nothing for a stream
/// that is no address in memory or whose flags cannot be read).
pub fn set_file_flag(vm: &mut Vm, file_ptr: u32, mask: u32, set: bool)
    ensures
        same_but_memory(old(vm), final(vm)),
        final(vm).memory@ == flag_set(old(vm), file_ptr, mask, set),
{
    if file_ptr == 0 || !vm.contains_addr(file_ptr) {
        return;
    }
    if file_ptr > u32::MAX - FILE_FLAG_OFFSET {
        return;
    }
    let flags = match vm.read_u32(file_ptr + FILE_FLAG_OFFSET) {
        Ok(f) => f,
        Err(_) => return,
    };
    let next = if set { flags | mask } else { flags & !mask };
    let _ = vm.write_u32(file_ptr + FILE_FLAG_OFFSET, next);
}

/// What `fopen(path, mode)` asks the host to open: the path and how; `None`
/// (and `fopen` returns null) for an empty path.
pub fn fopen_request(vm: &Vm, stack_ptr: u32) -> (r: Option<(String, OpenMode)>)
    ensures
        ({
            let path = utf8_lossy(cstr_bytes(vm, arg(vm, stack_ptr, 0)));
            if path.len() == 0 {
                r is None
            } else {
                r matches Some((p, m)) && p@ == path && m == open_mode(utf8_lossy(cstr_bytes(vm, arg(vm, stack_ptr, 1))))
            }
        }),
{
    let path_ptr = vm.arg(stack_ptr, 0);
    let mode_ptr = vm.arg(stack_ptr, 1);
    let path = read_c_string(vm, path_ptr);
    if path.as_str().is_empty() {
        return None;
    }
    let mode = read_c_string(vm, mode_ptr);
    Some((path, parse_mode(mode.as_str())))
}

/// The flags of a stream opened in a mode: readable, writable.
pub open spec fn stream_flags(m: OpenMode) -> u32 {
    (if m.readable { IOREAD } else { 0 }) | (if m.writable { IOWRT } else { 0 })
}

/// The end of `fopen`, given the host's handle (0 where opening failed):
/// a zeroed `FILE` on the heap with the stream's flags and the handle;
/// null where opening failed or the heap is full.
pub fn fopen_finish(vm: &mut Vm, handle: u32, mode: OpenMode) -> (r: u32)
    ensures
        same_but_heap(old(vm), final(vm)),
        if handle == 0 {
            r == 0 && unchanged(old(vm), final(vm))
        } else {
            match alloc_at(old(vm), FILE_STRUCT_SIZE as int, 8) {
                None => r == 0 && unchanged(old(vm), final(vm)),
                Some(p) => {
                    let m = written(old(vm), p - BLOCK_HEADER, block_image(Seq::new(FILE_STRUCT_SIZE as nat, |i: int| 0u8)));
                    &&& r == p
                    &&& final(vm).heap_cursor == p + FILE_STRUCT_SIZE
                    &&& final(vm).memory@ == store(
                        old(vm).base,
                        store(old(vm).base, m, p + FILE_FLAG_OFFSET, bytes32(stream_flags(mode))),
                        p + FILE_HANDLE_OFFSET,
                        bytes32(handle),
                    )
                },
            }
        },
{
    if handle == 0 {
        return 0;
    }
    let file_ptr = vm.heap_alloc(FILE_STRUCT_SIZE);
    if file_ptr == 0 {
        return 0;
    }
    let flags: u32 = (if mode.readable { IOREAD } else { 0 }) | (if mode.writable { IOWRT } else { 0 });
    let _ = vm.write_u32(wrap_add(file_ptr, FILE_FLAG_OFFSET), flags);
    let _ = vm.write_u32(wrap_add(file_ptr, FILE_HANDLE_OFFSET), handle);
    file_ptr
}

/// What `fclose(stream)` closes: the stream and its host handle (where it
/// has one); -1 for a null stream.
pub fn fclose_request(vm: &Vm, stack_ptr: u32) -> (r: Result<(u32, Option<u32>), u32>)
    ensures
        ({
            let fp = arg(vm, stack_ptr, 0);
            if fp == 0 {
                r == Err::<(u32, Option<u32>), u32>(0xFFFF_FFFF)
            } else {
                r == Ok::<(u32, Option<u32>), u32>((fp, file_handle(vm, fp)))
            }
        }),
{
    let file_ptr = vm.arg(stack_ptr, 0);
    if file_ptr == 0 {
        return Err(0xFFFF_FFFF);
    }
    Ok((file_ptr, read_file_handle(vm, file_ptr)))
}

/// The end of `fclose`: clears the handle and flags of the `FILE`; 0.
pub fn fclose_finish(vm: &mut Vm, file_ptr: u32) -> (r: u32)
    ensures
        r == 0,
        same_but_memory(old(vm), final(vm)),
        final(vm).memory@ == store(
            old(vm).base,
            store(old(vm).base, old(vm).memory@, add32(file_ptr, FILE_HANDLE_OFFSET) as int, bytes32(0)),
            add32(file_ptr, FILE_FLAG_OFFSET) as int,
            bytes32(0),
        ),
{
    let _ = vm.write_u32(wrap_add(file_ptr, FILE_HANDLE_OFFSET), 0);
    let _ = vm.write_u32(wrap_add(file_ptr, FILE_FLAG_OFFSET), 0);
    0
}

/// The stream of `fgetc(stream)` and its host handle; `None` (and `fgetc`
/// returns -1) where it has none.
pub fn fgetc_request(vm: &Vm, stack_ptr: u32) -> (r: Option<(u32, u32)>)
    ensures
        ({
            let fp = arg(vm, stack_ptr, 0);
            match file_handle(vm, fp) {
                None => r is None,
                Some(h) => r == Some((fp, h)),
            }
        }),
{
    let file_ptr = vm.arg(stack_ptr, 0);
    match read_file_handle(vm, file_ptr) {
        Some(h) => Some((file_ptr, h)),
        None => None,
    }
}

/// The end of `fgetc`, given what the host read (`None` for an error,
/// `Some(None)` at the end of the file): the byte, clearing the end-of-file
/// flag; or -1, setting the end-of-file or error flag.
pub fn fgetc_finish(vm: &mut Vm, file_ptr: u32, read: Option<Option<u8>>) -> (r: u32)
    ensures
        same_but_memory(old(vm), final(vm)),
        match read {
            None => r == 0xFFFF_FFFF && final(vm).memory@ == flag_set(old(vm), file_ptr, IOERR, true),
            Some(None) => r == 0xFFFF_FFFF && final(vm).memory@ == flag_set(old(vm), file_ptr, IOEOF, true),
            Some(Some(b)) => r == b as u32 && final(vm).memory@ == flag_set(old(vm), file_ptr, IOEOF, false),
        },
{
    match read {
        None => {
            set_file_flag(vm, file_ptr, IOERR, true);
            0xFFFF_FFFF
        },
        Some(None) => {
            set_file_flag(vm, file_ptr, IOEOF, true);
            0xFFFF_FFFF
        },
        Some(Some(b)) => {
            set_file_flag(vm, file_ptr, IOEOF, false);
            b as u32
        },
    }
}

/// What `fputc(value, stream)` writes: the stream, its host handle and the
/// low byte of the value; `None` (and `fputc` returns -1) where the stream
/// has no handle.
pub fn fputc_request(vm: &Vm, stack_ptr: u32) -> (r: Option<(u32, u32, u8)>)
    ensures
        ({
            let fp = arg(vm, stack_ptr, 1);
            match file_handle(vm, fp) {
                None => r is None,
                Some(h) => r == Some((fp, h, (arg(vm, stack_ptr, 0) % 256) as u8)),
            }
        }),
{
    let value = vm.arg(stack_ptr, 0);
    let file_ptr = vm.arg(stack_ptr, 1);
    match read_file_handle(vm, file_ptr) {
        Some(h) => Some((file_ptr, h, (value % 256) as u8)),
        None => None,
    }
}

/// The end of `fputc(value, stream)`, given how many bytes the host wrote
/// (`None` for an error): the byte written, clearing the error flag; or -1,
/// setting it.
pub fn fputc_finish(vm: &mut Vm, file_ptr: u32, value: u32, written: Option<usize>) -> (r: u32)
    ensures
        same_but_memory(old(vm), final(vm)),
        if written == Some(1usize) {
            r == value % 256 && final(vm).memory@ == flag_set(old(vm), file_ptr, IOERR, false)
        } else {
            r == 0xFFFF_FFFF && final(vm).memory@ == flag_set(old(vm), file_ptr, IOERR, true)
        },
{
    match written {
        Some(1) => {
            set_file_flag(vm, file_ptr, IOERR, false);
            value % 256
        },
        _ => {
            set_file_flag(vm, file_ptr, IOERR, true);
            0xFFFF_FFFF
        },
    }
}

} // verus!
