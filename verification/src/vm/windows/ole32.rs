//! OLE32: class ids, task memory and the OLE entry points that COM hosting
//! needs.

use vstd::prelude::*;

use super::guid::{format_guid, format_guid_spec, parse_guid, parse_guid_spec};
use super::oleaut32::bstr::{read_utf16_z, unchanged, utf16z};
use crate::num::{decode_utf16_lossy, encode_utf16, utf16_encode, utf16_lossy};
use crate::registry::key::parse_key;
use crate::registry::store::{model_get, Registry};
use crate::registry::value::{RegistryValue, ValueModel};
use crate::text::{chars_of, string_from};
use crate::vm::imports::{arg_bytes, imports_model, named, same_but_imports, stdcall_args, CallConv, ImportModel, Routine};
use crate::vm::{
    add32, alloc_at, allocated, arg, bytes16, in_range, mem_bytes, same_but_memory, store, wrap_add, written, Vm,
    VmError,
};

verus! {

pub const DLL_NAME: &'static str = "ole32.dll";

pub const S_OK: u32 = 0;
pub const E_INVALIDARG: u32 = 0x8007_0057;
pub const E_NOTIMPL: u32 = 0x8000_4001;
pub const CLASS_E_CLASSNOTAVAILABLE: u32 = 0x8004_0111;
pub const CO_E_CLASSSTRING: u32 = 0x8004_010F;

pub open spec fn ole32(name: Seq<char>, args: nat, routine: Routine) -> ImportModel {
    named(DLL_NAME@, name, CallConv::Stdcall(arg_bytes(args) as u32), routine)
}

/// What `register` adds, in order.
pub open spec fn imports() -> Seq<ImportModel> {
    seq![
        ole32("CLSIDFromString"@, 2, Routine::ClsidFromString),
        ole32("CLSIDFromProgID"@, 2, Routine::ClsidFromProgId),
        ole32("StringFromGUID2"@, 3, Routine::StringFromGuid2),
        ole32("CoCreateInstance"@, 5, Routine::CoCreateInstance),
        ole32("CoGetClassObject"@, 5, Routine::CoGetClassObject),
        ole32("CoTaskMemAlloc"@, 1, Routine::CoTaskMemAlloc),
        ole32("CoTaskMemRealloc"@, 2, Routine::CoTaskMemRealloc),
        ole32("CoTaskMemFree"@, 1, Routine::CoTaskMemFree),
        ole32("CreateDataAdviseHolder"@, 1, Routine::CreateDataAdviseHolder),
        ole32("ReadClassStm"@, 2, Routine::ReadClassStm),
        ole32("WriteClassStm"@, 2, Routine::WriteClassStm),
        ole32("OleInitialize"@, 1, Routine::OleInitialize),
        ole32("OleUninitialize"@, 0, Routine::OleUninitialize),
        ole32("OleSaveToStream"@, 2, Routine::OleSaveToStream),
        ole32("OleLockRunning"@, 3, Routine::OleLockRunning),
        ole32("CreateOleAdviseHolder"@, 1, Routine::CreateOleAdviseHolder),
        ole32("OleRegGetUserType"@, 3, Routine::OleRegGetUserType),
        ole32("OleRegGetMiscStatus"@, 3, Routine::OleRegGetMiscStatus),
        ole32("OleRegEnumVerbs"@, 2, Routine::OleRegEnumVerbs),
        ole32("CreateStreamOnHGlobal"@, 3, Routine::CreateStreamOnHGlobal),
    ]
}

pub fn register(vm: &mut Vm)
    ensures
        same_but_imports(old(vm), final(vm)),
        imports_model(final(vm).imports@) == imports_model(old(vm).imports@) + imports(),
{
    let ghost start = imports_model(vm.imports@);
    vm.register_import_stdcall(DLL_NAME, "CLSIDFromString", stdcall_args(2), Routine::ClsidFromString);
    vm.register_import_stdcall(DLL_NAME, "CLSIDFromProgID", stdcall_args(2), Routine::ClsidFromProgId);
    vm.register_import_stdcall(DLL_NAME, "StringFromGUID2", stdcall_args(3), Routine::StringFromGuid2);
    vm.register_import_stdcall(DLL_NAME, "CoCreateInstance", stdcall_args(5), Routine::CoCreateInstance);
    vm.register_import_stdcall(DLL_NAME, "CoGetClassObject", stdcall_args(5), Routine::CoGetClassObject);
    vm.register_import_stdcall(DLL_NAME, "CoTaskMemAlloc", stdcall_args(1), Routine::CoTaskMemAlloc);
    vm.register_import_stdcall(DLL_NAME, "CoTaskMemRealloc", stdcall_args(2), Routine::CoTaskMemRealloc);
    vm.register_import_stdcall(DLL_NAME, "CoTaskMemFree", stdcall_args(1), Routine::CoTaskMemFree);
    vm.register_import_stdcall(DLL_NAME, "CreateDataAdviseHolder", stdcall_args(1), Routine::CreateDataAdviseHolder);
    vm.register_import_stdcall(DLL_NAME, "ReadClassStm", stdcall_args(2), Routine::ReadClassStm);
    vm.register_import_stdcall(DLL_NAME, "WriteClassStm", stdcall_args(2), Routine::WriteClassStm);
    vm.register_import_stdcall(DLL_NAME, "OleInitialize", stdcall_args(1), Routine::OleInitialize);
    vm.register_import_stdcall(DLL_NAME, "OleUninitialize", stdcall_args(0), Routine::OleUninitialize);
    vm.register_import_stdcall(DLL_NAME, "OleSaveToStream", stdcall_args(2), Routine::OleSaveToStream);
    vm.register_import_stdcall(DLL_NAME, "OleLockRunning", stdcall_args(3), Routine::OleLockRunning);
    vm.register_import_stdcall(DLL_NAME, "CreateOleAdviseHolder", stdcall_args(1), Routine::CreateOleAdviseHolder);
    vm.register_import_stdcall(DLL_NAME, "OleRegGetUserType", stdcall_args(3), Routine::OleRegGetUserType);
    vm.register_import_stdcall(DLL_NAME, "OleRegGetMiscStatus", stdcall_args(3), Routine::OleRegGetMiscStatus);
    vm.register_import_stdcall(DLL_NAME, "OleRegEnumVerbs", stdcall_args(2), Routine::OleRegEnumVerbs);
    vm.register_import_stdcall(DLL_NAME, "CreateStreamOnHGlobal", stdcall_args(3), Routine::CreateStreamOnHGlobal);
    assert(imports_model(vm.imports@) =~= start + imports());
}

/// A NUL-terminated UTF-16 string's units, none where it cannot be read.
pub open spec fn units_or_empty(vm: &Vm, ptr: u32) -> Seq<u16> {
    match utf16z(vm, ptr) {
        Ok(u) => u,
        Err(_) => Seq::empty(),
    }
}

fn read_text(vm: &Vm, ptr: u32) -> (r: String)
    ensures
        r@ == utf16_lossy(units_or_empty(vm, ptr)),
{
    let units = match read_utf16_z(vm, ptr) {
        Ok(u) => u,
        Err(_) => Vec::new(),
    };
    decode_utf16_lossy(units.as_slice())
}

/// What `clsid_from_string` returns (`r`) and leaves (`post`) on the machine `pre`.
pub open spec fn clsid_from_string_effect(pre: &Vm, post: &Vm, stack_ptr: u32, r: u32) -> bool {
    &&& same_but_memory(pre, post)
    &&& ({
        let s = arg(pre, stack_ptr, 0);
        let out = arg(pre, stack_ptr, 1);
        if s == 0 || out == 0 {
            r == E_INVALIDARG && post.memory@ == pre.memory@
        } else {
            match parse_guid_spec(utf16_lossy(units_or_empty(pre, s))) {
                None => r == CO_E_CLASSSTRING && post.memory@ == pre.memory@,
                Some(g) => if in_range(pre, out as int, 16) {
                    r == S_OK && post.memory@ == written(pre, out as int, g)
                } else {
                    r == E_INVALIDARG && post.memory@ == pre.memory@
                },
            }
        }
    })
}

/// `CLSIDFromString(text, out)`: stores the GUID that the text writes.
pub fn clsid_from_string(vm: &mut Vm, stack_ptr: u32) -> (r: u32)
    ensures
        clsid_from_string_effect(old(vm), final(vm), stack_ptr, r),
{
    let str_ptr = vm.arg(stack_ptr, 0);
    let out_ptr = vm.arg(stack_ptr, 1);
    if str_ptr == 0 || out_ptr == 0 {
        return E_INVALIDARG;
    }
    let text = read_text(vm, str_ptr);
    let bytes = match parse_guid(text.as_str()) {
        Some(b) => b,
        None => return CO_E_CLASSSTRING,
    };
    if vm.write_bytes(out_ptr, bytes.as_slice()).is_err() {
        return E_INVALIDARG;
    }
    S_OK
}

/// The class id registered for a ProgID: the GUID written in the string
/// value `HKCR\<progid>\CLSID`.
pub open spec fn progid_clsid(m: crate::registry::store::RegistryModel, progid: Seq<char>) -> Option<Seq<u8>> {
    match parse_key("HKCR\\"@ + progid + "\\CLSID"@) {
        Ok(k) => match model_get(m, k) {
            Some(ValueModel::String(s)) => parse_guid_spec(s),
            _ => None,
        },
        Err(_) => None,
    }
}

/// What `clsid_from_progid` returns (`r`) and leaves (`post`) on the machine `pre`.
pub open spec fn clsid_from_progid_effect(pre: &Vm, post: &Vm, stack_ptr: u32, r: u32) -> bool {
    &&& same_but_memory(pre, post)
    &&& ({
        let p = arg(pre, stack_ptr, 0);
        let out = arg(pre, stack_ptr, 1);
        if p == 0 || out == 0 {
            r == E_INVALIDARG && post.memory@ == pre.memory@
        } else {
            match pre.registry {
                None => r == CLASS_E_CLASSNOTAVAILABLE && post.memory@ == pre.memory@,
                Some(reg) => match progid_clsid(reg@, utf16_lossy(units_or_empty(pre, p))) {
                    None => r == CLASS_E_CLASSNOTAVAILABLE && post.memory@ == pre.memory@,
                    Some(g) => if in_range(pre, out as int, 16) {
                        r == S_OK && post.memory@ == written(pre, out as int, g)
                    } else {
                        r == E_INVALIDARG && post.memory@ == pre.memory@
                    },
                },
            }
        }
    })
}

/// `CLSIDFromProgID(progid, out)`: stores the class id that the machine's
/// registry holds for the ProgID.
pub fn clsid_from_progid(vm: &mut Vm, stack_ptr: u32) -> (r: u32)
    ensures
        clsid_from_progid_effect(old(vm), final(vm), stack_ptr, r),
{
    let progid_ptr = vm.arg(stack_ptr, 0);
    let out_ptr = vm.arg(stack_ptr, 1);
    if progid_ptr == 0 || out_ptr == 0 {
        return E_INVALIDARG;
    }
    let progid = read_text(vm, progid_ptr);
    let bytes = match &vm.registry {
        None => return CLASS_E_CLASSNOTAVAILABLE,
        Some(registry) => {
            let mut key: Vec<char> = chars_of("HKCR\\");
            let p = chars_of(progid.as_str());
            let tail = chars_of("\\CLSID");
            let ghost k0 = key@;
            let mut i: usize = 0;
            while i < p.len()
                invariant
                    i <= p@.len(),
                    key@ == k0 + p@.take(i as int),
                decreases p.len() - i,
            {
                key.push(p[i]);
                i = i + 1;
                assert(key@ =~= k0 + p@.take(i as int));
            }
            assert(p@.take(p@.len() as int) =~= p@);
            let ghost k1 = key@;
            let mut j: usize = 0;
            while j < tail.len()
                invariant
                    j <= tail@.len(),
                    key@ == k1 + tail@.take(j as int),
                decreases tail.len() - j,
            {
                key.push(tail[j]);
                j = j + 1;
                assert(key@ =~= k1 + tail@.take(j as int));
            }
            assert(tail@.take(tail@.len() as int) =~= tail@);
            let key_text = string_from(key.as_slice());
            assert(key_text@ =~= "HKCR\\"@ + progid@ + "\\CLSID"@);
            match registry.get(key_text.as_str()) {
                Ok(Some(RegistryValue::String(value))) => match parse_guid(value.as_str()) {
                    Some(b) => b,
                    None => return CLASS_E_CLASSNOTAVAILABLE,
                },
                _ => return CLASS_E_CLASSNOTAVAILABLE,
            }
        },
    };
    if vm.write_bytes(out_ptr, bytes.as_slice()).is_err() {
        return E_INVALIDARG;
    }
    S_OK
}

/// The 16 bytes at `ptr`, where they lie in memory.
pub fn read_guid(vm: &Vm, ptr: u32) -> (r: Result<Vec<u8>, VmError>)
    ensures
        match r {
            Ok(b) => in_range(vm, ptr as int, 16) && b@ == mem_bytes(vm, ptr as int, 16),
            Err(e) => !in_range(vm, ptr as int, 16) && e == VmError::MemoryOutOfRange,
        },
{
    vm.read_bytes(ptr, 16)
}

/// Memory `m` after storing the units one after another from `out`, each
/// where it lies in memory.
pub open spec fn store_units(base: u32, m: Seq<u8>, out: u32, units: Seq<u16>) -> Seq<u8>
    decreases units.len(),
{
    if units.len() == 0 {
        m
    } else {
        store(
            base,
            store_units(base, m, out, units.drop_last()),
            add32(out, (2 * (units.len() - 1)) as u32) as int,
            bytes16(units.last()),
        )
    }
}

/// What `string_from_guid2` returns (`r`) and leaves (`post`) on the machine `pre`.
pub open spec fn string_from_guid2_effect(pre: &Vm, post: &Vm, stack_ptr: u32, r: u32) -> bool {
    &&& same_but_memory(pre, post)
    &&& ({
        let g = arg(pre, stack_ptr, 0);
        let out = arg(pre, stack_ptr, 1);
        let max = arg(pre, stack_ptr, 2);
        let units = utf16_encode(format_guid_spec(mem_bytes(pre, g as int, 16)));
        if g == 0 || out == 0 || max == 0 || !in_range(pre, g as int, 16) || units.len() + 1 > max {
            r == 0 && post.memory@ == pre.memory@
        } else {
            r == units.len() + 1
                && post.memory@ == store_units(pre.base, pre.memory@, out, units.push(0))
        }
    })
}

/// `StringFromGUID2(guid, out, max)`: writes the GUID's registry form and a
/// NUL as UTF-16 at `out` and returns the units written (39), or 0 where an
/// argument is null, the GUID cannot be read or `max` is too small.
pub fn string_from_guid2(vm: &mut Vm, stack_ptr: u32) -> (r: u32)
    ensures
        string_from_guid2_effect(old(vm), final(vm), stack_ptr, r),
{
    let guid_ptr = vm.arg(stack_ptr, 0);
    let out_ptr = vm.arg(stack_ptr, 1);
    let max_len = vm.arg(stack_ptr, 2);
    if guid_ptr == 0 || out_ptr == 0 || max_len == 0 {
        return 0;
    }
    let guid = match read_guid(vm, guid_ptr) {
        Ok(value) => value,
        Err(_) => return 0,
    };
    let text = format_guid(guid.as_slice());
    let cs = chars_of(text.as_str());
    let mut utf16 = encode_utf16(cs.as_slice());
    if utf16.len() >= max_len as usize {
        return 0;
    }
    let n = utf16.len();
    utf16.push(0);
    let ghost all = utf16@;
    let ghost m0 = vm.memory@;
    let mut i: usize = 0;
    while i < utf16.len()
        invariant
            same_but_memory(old(vm), vm),
            utf16@ == all,
            all.len() == n + 1,
            n + 1 <= max_len,
            i <= all.len(),
            vm.memory@ == store_units(old(vm).base, m0, out_ptr, all.take(i as int)),
        decreases utf16.len() - i,
    {
        let addr = wrap_add(out_ptr, (2 * (i as u64)) as u32);
        let _ = vm.write_u16(addr, utf16[i]);
        i = i + 1;
        assert(all.take(i as int).drop_last() =~= all.take(i - 1));
    }
    assert(all.take(all.len() as int) =~= all);
    (n + 1) as u32
}

/// Task memory: `size` zeroed bytes aligned to 8, or 0 where the heap is
/// full.
pub open spec fn task_alloc(a: &Vm, b: &Vm, size: u32, r: u32) -> bool {
    match alloc_at(a, size as int, 8) {
        Some(p) => r == p && allocated(a, b, p, Seq::new(size as nat, |i: int| 0u8)),
        None => r == 0 && unchanged(a, b),
    }
}

fn alloc_zeroed(vm: &mut Vm, size: u32) -> (r: u32)
    ensures
        task_alloc(old(vm), final(vm), size, r),
{
    let c = vm.heap_cursor as u64;
    let rem = c % 8;
    let p: u64 = if rem == 0 { c } else { c + 8 - rem };
    if p + size as u64 > vm.heap_end as u64 {
        return 0;
    }
    let mut buf: Vec<u8> = Vec::new();
    let mut i: u32 = 0;
    while i < size
        invariant
            i <= size,
            buf@ == Seq::new(i as nat, |j: int| 0u8),
        decreases size - i,
    {
        buf.push(0);
        i = i + 1;
        assert(buf@ =~= Seq::new(i as nat, |j: int| 0u8));
    }
    match vm.alloc_bytes(buf.as_slice(), 8) {
        Ok(a) => a,
        Err(_) => 0,
    }
}

/// What `co_task_mem_alloc` returns (`r`) and leaves (`post`) on the machine `pre`.
pub open spec fn co_task_mem_alloc_effect(pre: &Vm, post: &Vm, stack_ptr: u32, r: u32) -> bool {
    task_alloc(pre, post, arg(pre, stack_ptr, 0), r)
}

/// `CoTaskMemAlloc(size)`.
pub fn co_task_mem_alloc(vm: &mut Vm, stack_ptr: u32) -> (r: u32)
    ensures
        co_task_mem_alloc_effect(old(vm), final(vm), stack_ptr, r),
{
    let size = vm.arg(stack_ptr, 0);
    alloc_zeroed(vm, size)
}

/// What `co_task_mem_realloc` returns (`r`) and leaves (`post`) on the machine `pre`.
pub open spec fn co_task_mem_realloc_effect(pre: &Vm, post: &Vm, stack_ptr: u32, r: u32) -> bool {
    task_alloc(pre, post, arg(pre, stack_ptr, 1), r)
}

/// `CoTaskMemRealloc(ptr, size)`: new zeroed memory (the old block's bytes
/// are not carried over).
pub fn co_task_mem_realloc(vm: &mut Vm, stack_ptr: u32) -> (r: u32)
    ensures
        co_task_mem_realloc_effect(old(vm), final(vm), stack_ptr, r),
{
    let size = vm.arg(stack_ptr, 1);
    alloc_zeroed(vm, size)
}

/// What `co_task_mem_free` returns (`r`) and leaves (`post`) on the machine `pre`.
pub open spec fn co_task_mem_free_effect(pre: &Vm, post: &Vm, stack_ptr: u32, r: u32) -> bool {
    &&& r == 0
    &&& unchanged(pre, post)
}

/// `CoTaskMemFree(ptr)`: the heap does not reclaim.
pub fn co_task_mem_free(vm: &mut Vm, stack_ptr: u32) -> (r: u32)
    ensures
        co_task_mem_free_effect(old(vm), final(vm), stack_ptr, r),
{
    0
}

/// What `co_create_instance` returns (`r`) and leaves (`post`) on the machine `pre`.
pub open spec fn co_create_instance_effect(pre: &Vm, post: &Vm, stack_ptr: u32, r: u32) -> bool {
    &&& r == CLASS_E_CLASSNOTAVAILABLE
    &&& unchanged(pre, post)
}

/// `CoCreateInstance`: no class is available.
pub fn co_create_instance(vm: &mut Vm, stack_ptr: u32) -> (r: u32)
    ensures
        co_create_instance_effect(old(vm), final(vm), stack_ptr, r),
{
    CLASS_E_CLASSNOTAVAILABLE
}

/// What `co_get_class_object` returns (`r`) and leaves (`post`) on the machine `pre`.
pub open spec fn co_get_class_object_effect(pre: &Vm, post: &Vm, stack_ptr: u32, r: u32) -> bool {
    &&& r == CLASS_E_CLASSNOTAVAILABLE
    &&& unchanged(pre, post)
}

/// `CoGetClassObject`: no class is available.
pub fn co_get_class_object(vm: &mut Vm, stack_ptr: u32) -> (r: u32)
    ensures
        co_get_class_object_effect(old(vm), final(vm), stack_ptr, r),
{
    CLASS_E_CLASSNOTAVAILABLE
}

/// What `create_data_advise_holder` returns (`r`) and leaves (`post`) on the machine `pre`.
pub open spec fn create_data_advise_holder_effect(pre: &Vm, post: &Vm, stack_ptr: u32, r: u32) -> bool {
    &&& r == E_NOTIMPL
    &&& unchanged(pre, post)
}

/// `CreateDataAdviseHolder`: not implemented.
pub fn create_data_advise_holder(vm: &mut Vm, stack_ptr: u32) -> (r: u32)
    ensures
        create_data_advise_holder_effect(old(vm), final(vm), stack_ptr, r),
{
    E_NOTIMPL
}

/// What `read_class_stm` returns (`r`) and leaves (`post`) on the machine `pre`.
pub open spec fn read_class_stm_effect(pre: &Vm, post: &Vm, stack_ptr: u32, r: u32) -> bool {
    &&& r == E_NOTIMPL
    &&& unchanged(pre, post)
}

/// `ReadClassStm`: not implemented.
pub fn read_class_stm(vm: &mut Vm, stack_ptr: u32) -> (r: u32)
    ensures
        read_class_stm_effect(old(vm), final(vm), stack_ptr, r),
{
    E_NOTIMPL
}

/// What `write_class_stm` returns (`r`) and leaves (`post`) on the machine `pre`.
pub open spec fn write_class_stm_effect(pre: &Vm, post: &Vm, stack_ptr: u32, r: u32) -> bool {
    &&& r == E_NOTIMPL
    &&& unchanged(pre, post)
}

/// `WriteClassStm`: not implemented.
pub fn write_class_stm(vm: &mut Vm, stack_ptr: u32) -> (r: u32)
    ensures
        write_class_stm_effect(old(vm), final(vm), stack_ptr, r),
{
    E_NOTIMPL
}

/// What `ole_initialize` returns (`r`) and leaves (`post`) on the machine `pre`.
pub open spec fn ole_initialize_effect(pre: &Vm, post: &Vm, stack_ptr: u32, r: u32) -> bool {
    &&& r == S_OK
    &&& unchanged(pre, post)
}

/// `OleInitialize`: succeeds.
pub fn ole_initialize(vm: &mut Vm, stack_ptr: u32) -> (r: u32)
    ensures
        ole_initialize_effect(old(vm), final(vm), stack_ptr, r),
{
    S_OK
}

/// What `ole_uninitialize` returns (`r`) and leaves (`post`) on the machine `pre`.
pub open spec fn ole_uninitialize_effect(pre: &Vm, post: &Vm, stack_ptr: u32, r: u32) -> bool {
    &&& r == 0
    &&& unchanged(pre, post)
}

/// `OleUninitialize`: returns 0.
pub fn ole_uninitialize(vm: &mut Vm, stack_ptr: u32) -> (r: u32)
    ensures
        ole_uninitialize_effect(old(vm), final(vm), stack_ptr, r),
{
    0
}

/// What `ole_save_to_stream` returns (`r`) and leaves (`post`) on the machine `pre`.
pub open spec fn ole_save_to_stream_effect(pre: &Vm, post: &Vm, stack_ptr: u32, r: u32) -> bool {
    &&& r == E_NOTIMPL
    &&& unchanged(pre, post)
}

/// `OleSaveToStream`: not implemented.
pub fn ole_save_to_stream(vm: &mut Vm, stack_ptr: u32) -> (r: u32)
    ensures
        ole_save_to_stream_effect(old(vm), final(vm), stack_ptr, r),
{
    E_NOTIMPL
}

/// What `ole_lock_running` returns (`r`) and leaves (`post`) on the machine `pre`.
pub open spec fn ole_lock_running_effect(pre: &Vm, post: &Vm, stack_ptr: u32, r: u32) -> bool {
    &&& r == S_OK
    &&& unchanged(pre, post)
}

/// `OleLockRunning`: succeeds.
pub fn ole_lock_running(vm: &mut Vm, stack_ptr: u32) -> (r: u32)
    ensures
        ole_lock_running_effect(old(vm), final(vm), stack_ptr, r),
{
    S_OK
}

/// What `create_ole_advise_holder` returns (`r`) and leaves (`post`) on the machine `pre`.
pub open spec fn create_ole_advise_holder_effect(pre: &Vm, post: &Vm, stack_ptr: u32, r: u32) -> bool {
    &&& r == E_NOTIMPL
    &&& unchanged(pre, post)
}

/// `CreateOleAdviseHolder`: not implemented.
pub fn create_ole_advise_holder(vm: &mut Vm, stack_ptr: u32) -> (r: u32)
    ensures
        create_ole_advise_holder_effect(old(vm), final(vm), stack_ptr, r),
{
    E_NOTIMPL
}

/// What `create_stream_on_hglobal` returns (`r`) and leaves (`post`) on the machine `pre`.
pub open spec fn create_stream_on_hglobal_effect(pre: &Vm, post: &Vm, stack_ptr: u32, r: u32) -> bool {
    &&& r == E_NOTIMPL
    &&& unchanged(pre, post)
}

/// `CreateStreamOnHGlobal`: not implemented.
pub fn create_stream_on_hglobal(vm: &mut Vm, stack_ptr: u32) -> (r: u32)
    ensures
        create_stream_on_hglobal_effect(old(vm), final(vm), stack_ptr, r),
{
    E_NOTIMPL
}

/// Clears the 32-bit out value at the `index`-th argument, where it is
/// non-null; succeeds.
fn clear_out_arg(vm: &mut Vm, stack_ptr: u32, index: u32) -> (r: u32)
    requires
        index < 16,
    ensures
        same_but_memory(old(vm), final(vm)),
        r == S_OK,
        ({
            let out = arg(old(vm), stack_ptr, index as int);
            final(vm).memory@ == if out == 0 {
                old(vm).memory@
            } else {
                store(old(vm).base, old(vm).memory@, out as int, crate::vm::bytes32(0))
            }
        }),
{
    let out_ptr = vm.arg(stack_ptr, index);
    if out_ptr != 0 {
        let _ = vm.write_u32(out_ptr, 0);
    }
    S_OK
}

/// What `ole_reg_get_user_type` returns (`r`) and leaves (`post`) on the machine `pre`.
pub open spec fn ole_reg_get_user_type_effect(pre: &Vm, post: &Vm, stack_ptr: u32, r: u32) -> bool {
    &&& same_but_memory(pre, post)
    &&& r == S_OK
    &&& ({
        let out = arg(pre, stack_ptr, 2);
        post.memory@ == if out == 0 {
            pre.memory@
        } else {
            store(pre.base, pre.memory@, out as int, crate::vm::bytes32(0))
        }
    })
}

/// `OleRegGetUserType(clsid, form, out)`: no user type; clears `*out`.
pub fn ole_reg_get_user_type(vm: &mut Vm, stack_ptr: u32) -> (r: u32)
    ensures
        ole_reg_get_user_type_effect(old(vm), final(vm), stack_ptr, r),
{
    clear_out_arg(vm, stack_ptr, 2)
}

/// What `ole_reg_get_misc_status` returns (`r`) and leaves (`post`) on the machine `pre`.
pub open spec fn ole_reg_get_misc_status_effect(pre: &Vm, post: &Vm, stack_ptr: u32, r: u32) -> bool {
    &&& same_but_memory(pre, post)
    &&& r == S_OK
    &&& ({
        let out = arg(pre, stack_ptr, 2);
        post.memory@ == if out == 0 {
            pre.memory@
        } else {
            store(pre.base, pre.memory@, out as int, crate::vm::bytes32(0))
        }
    })
}

/// `OleRegGetMiscStatus(clsid, aspect, out)`: no status bits; clears `*out`.
pub fn ole_reg_get_misc_status(vm: &mut Vm, stack_ptr: u32) -> (r: u32)
    ensures
        ole_reg_get_misc_status_effect(old(vm), final(vm), stack_ptr, r),
{
    clear_out_arg(vm, stack_ptr, 2)
}

/// What `ole_reg_enum_verbs` returns (`r`) and leaves (`post`) on the machine `pre`.
pub open spec fn ole_reg_enum_verbs_effect(pre: &Vm, post: &Vm, stack_ptr: u32, r: u32) -> bool {
    &&& same_but_memory(pre, post)
    &&& r == S_OK
    &&& ({
        let out = arg(pre, stack_ptr, 1);
        post.memory@ == if out == 0 {
            pre.memory@
        } else {
            store(pre.base, pre.memory@, out as int, crate::vm::bytes32(0))
        }
    })
}

/// `OleRegEnumVerbs(clsid, out)`: no verb enumerator; clears `*out`.
pub fn ole_reg_enum_verbs(vm: &mut Vm, stack_ptr: u32) -> (r: u32)
    ensures
        ole_reg_enum_verbs_effect(old(vm), final(vm), stack_ptr, r),
{
    clear_out_arg(vm, stack_ptr, 1)
}

} // verus!
