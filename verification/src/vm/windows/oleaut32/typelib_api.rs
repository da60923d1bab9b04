//! The ITypeLib object: a type library as the guest holds it, the vtables
//! of ITypeLib and ITypeInfo, and the routines behind the ITypeLib one.

use vstd::prelude::*;

use super::constants::{E_INVALIDARG, E_NOINTERFACE, E_NOTIMPL, IID_ITYPELIB, IID_IUNKNOWN, S_OK};
use super::guid::{guid_at, guid_matches, guid_or0, read_guid_bytes};
use super::typelib::{TypeInfoData, TypeLib};
use crate::vm::com::ComState;
use crate::vm::imports::{arg_bytes, dynamic, dynamic_thunk, imports_model, same_but_imports, stdcall_args, ImportModel, Routine};
use crate::vm::windows::guid::parse_guid_spec;
use crate::vm::{
    add32, align_up, alloc_at, block_at, allocated, arg, block_image, bytes32, heap_grown, in_range, lemma_allocated_grows,
    lemma_heap_grown_trans, lemma_words_at, lemma_words_len, lemma_written_u32, le32, mem_u32, same_but_heap,
    same_but_memory, store, u32_or0, words, wrap_add, Vm, VmError, BLOCK_HEADER,
};

verus! {

/// The ITypeLib vtable: for each entry the name its routine is registered
/// under, its number of 32-bit arguments (`this` included) and the routine.
pub open spec fn typelib_methods() -> Seq<(&'static str, u8, Routine)> {
    seq![
        ("pe_vm.typelib.QueryInterface", 3, Routine::TypeLibQueryInterface),
        ("pe_vm.typelib.AddRef", 1, Routine::Stub(1)),
        ("pe_vm.typelib.Release", 1, Routine::Stub(1)),
        ("pe_vm.typelib.GetTypeInfoCount", 1, Routine::TypeLibGetTypeInfoCount),
        ("pe_vm.typelib.GetTypeInfo", 3, Routine::TypeLibGetTypeInfo),
        ("pe_vm.typelib.GetTypeInfoType", 3, Routine::TypeLibGetTypeInfoType),
        ("pe_vm.typelib.GetTypeInfoOfGuid", 3, Routine::TypeLibGetTypeInfoOfGuid),
        ("pe_vm.typelib.GetLibAttr", 2, Routine::Stub(E_NOTIMPL)),
        ("pe_vm.typelib.GetTypeComp", 2, Routine::Stub(E_NOTIMPL)),
        ("pe_vm.typelib.GetDocumentation", 6, Routine::Stub(E_NOTIMPL)),
        ("pe_vm.typelib.IsName", 4, Routine::Stub(E_NOTIMPL)),
        ("pe_vm.typelib.FindName", 6, Routine::Stub(E_NOTIMPL)),
        ("pe_vm.typelib.ReleaseTLibAttr", 2, Routine::Stub(E_NOTIMPL)),
    ]
}

pub fn typelib_method_table() -> (r: Vec<(&'static str, u8, Routine)>)
    ensures
        r@ == typelib_methods(),
{
    let v = vec![
        ("pe_vm.typelib.QueryInterface", 3, Routine::TypeLibQueryInterface),
        ("pe_vm.typelib.AddRef", 1, Routine::Stub(1)),
        ("pe_vm.typelib.Release", 1, Routine::Stub(1)),
        ("pe_vm.typelib.GetTypeInfoCount", 1, Routine::TypeLibGetTypeInfoCount),
        ("pe_vm.typelib.GetTypeInfo", 3, Routine::TypeLibGetTypeInfo),
        ("pe_vm.typelib.GetTypeInfoType", 3, Routine::TypeLibGetTypeInfoType),
        ("pe_vm.typelib.GetTypeInfoOfGuid", 3, Routine::TypeLibGetTypeInfoOfGuid),
        ("pe_vm.typelib.GetLibAttr", 2, Routine::Stub(E_NOTIMPL)),
        ("pe_vm.typelib.GetTypeComp", 2, Routine::Stub(E_NOTIMPL)),
        ("pe_vm.typelib.GetDocumentation", 6, Routine::Stub(E_NOTIMPL)),
        ("pe_vm.typelib.IsName", 4, Routine::Stub(E_NOTIMPL)),
        ("pe_vm.typelib.FindName", 6, Routine::Stub(E_NOTIMPL)),
        ("pe_vm.typelib.ReleaseTLibAttr", 2, Routine::Stub(E_NOTIMPL)),
    ];
    assert(v@ =~= typelib_methods());
    v
}

/// The ITypeInfo vtable, in the same form.
pub open spec fn typeinfo_methods() -> Seq<(&'static str, u8, Routine)> {
    seq![
        ("pe_vm.typeinfo.QueryInterface", 3, Routine::TypeInfoQueryInterface),
        ("pe_vm.typeinfo.AddRef", 1, Routine::Stub(1)),
        ("pe_vm.typeinfo.Release", 1, Routine::Stub(1)),
        ("pe_vm.typeinfo.GetTypeAttr", 2, Routine::TypeInfoGetTypeAttr),
        ("pe_vm.typeinfo.GetTypeComp", 2, Routine::Stub(E_NOTIMPL)),
        ("pe_vm.typeinfo.GetFuncDesc", 3, Routine::Stub(E_NOTIMPL)),
        ("pe_vm.typeinfo.GetVarDesc", 3, Routine::Stub(E_NOTIMPL)),
        ("pe_vm.typeinfo.GetNames", 5, Routine::Stub(E_NOTIMPL)),
        ("pe_vm.typeinfo.GetRefTypeOfImplType", 3, Routine::Stub(E_NOTIMPL)),
        ("pe_vm.typeinfo.GetImplTypeFlags", 3, Routine::Stub(E_NOTIMPL)),
        ("pe_vm.typeinfo.GetIDsOfNames", 4, Routine::Stub(E_NOTIMPL)),
        ("pe_vm.typeinfo.Invoke", 8, Routine::TypeInfoInvoke),
        ("pe_vm.typeinfo.GetDocumentation", 6, Routine::Stub(E_NOTIMPL)),
        ("pe_vm.typeinfo.GetDllEntry", 6, Routine::Stub(E_NOTIMPL)),
        ("pe_vm.typeinfo.GetRefTypeInfo", 3, Routine::Stub(E_NOTIMPL)),
        ("pe_vm.typeinfo.AddressOfMember", 4, Routine::Stub(E_NOTIMPL)),
        ("pe_vm.typeinfo.CreateInstance", 4, Routine::Stub(E_NOTIMPL)),
        ("pe_vm.typeinfo.GetMops", 3, Routine::Stub(E_NOTIMPL)),
        ("pe_vm.typeinfo.GetContainingTypeLib", 3, Routine::Stub(E_NOTIMPL)),
        ("pe_vm.typeinfo.ReleaseTypeAttr", 2, Routine::Stub(S_OK)),
        ("pe_vm.typeinfo.ReleaseFuncDesc", 2, Routine::Stub(E_NOTIMPL)),
        ("pe_vm.typeinfo.ReleaseVarDesc", 2, Routine::Stub(E_NOTIMPL)),
        ("pe_vm.typeinfo.GetTypeKind", 2, Routine::Stub(E_NOTIMPL)),
        ("pe_vm.typeinfo.GetTypeFlags", 2, Routine::Stub(E_NOTIMPL)),
        ("pe_vm.typeinfo.GetFuncIndexOfMemId", 4, Routine::Stub(E_NOTIMPL)),
        ("pe_vm.typeinfo.GetVarIndexOfMemId", 3, Routine::Stub(E_NOTIMPL)),
        ("pe_vm.typeinfo.GetCustData", 3, Routine::Stub(E_NOTIMPL)),
        ("pe_vm.typeinfo.GetFuncCustData", 4, Routine::Stub(E_NOTIMPL)),
        ("pe_vm.typeinfo.GetParamCustData", 5, Routine::Stub(E_NOTIMPL)),
        ("pe_vm.typeinfo.GetVarCustData", 4, Routine::Stub(E_NOTIMPL)),
        ("pe_vm.typeinfo.GetImplTypeCustData", 4, Routine::Stub(E_NOTIMPL)),
        ("pe_vm.typeinfo.GetDocumentation2", 6, Routine::Stub(E_NOTIMPL)),
        ("pe_vm.typeinfo.GetAllCustData", 2, Routine::Stub(E_NOTIMPL)),
        ("pe_vm.typeinfo.GetAllFuncCustData", 3, Routine::Stub(E_NOTIMPL)),
        ("pe_vm.typeinfo.GetAllParamCustData", 4, Routine::Stub(E_NOTIMPL)),
        ("pe_vm.typeinfo.GetAllVarCustData", 3, Routine::Stub(E_NOTIMPL)),
        ("pe_vm.typeinfo.GetAllImplTypeCustData", 3, Routine::Stub(E_NOTIMPL)),
    ]
}

pub fn typeinfo_method_table() -> (r: Vec<(&'static str, u8, Routine)>)
    ensures
        r@ == typeinfo_methods(),
{
    let v = vec![
        ("pe_vm.typeinfo.QueryInterface", 3, Routine::TypeInfoQueryInterface),
        ("pe_vm.typeinfo.AddRef", 1, Routine::Stub(1)),
        ("pe_vm.typeinfo.Release", 1, Routine::Stub(1)),
        ("pe_vm.typeinfo.GetTypeAttr", 2, Routine::TypeInfoGetTypeAttr),
        ("pe_vm.typeinfo.GetTypeComp", 2, Routine::Stub(E_NOTIMPL)),
        ("pe_vm.typeinfo.GetFuncDesc", 3, Routine::Stub(E_NOTIMPL)),
        ("pe_vm.typeinfo.GetVarDesc", 3, Routine::Stub(E_NOTIMPL)),
        ("pe_vm.typeinfo.GetNames", 5, Routine::Stub(E_NOTIMPL)),
        ("pe_vm.typeinfo.GetRefTypeOfImplType", 3, Routine::Stub(E_NOTIMPL)),
        ("pe_vm.typeinfo.GetImplTypeFlags", 3, Routine::Stub(E_NOTIMPL)),
        ("pe_vm.typeinfo.GetIDsOfNames", 4, Routine::Stub(E_NOTIMPL)),
        ("pe_vm.typeinfo.Invoke", 8, Routine::TypeInfoInvoke),
        ("pe_vm.typeinfo.GetDocumentation", 6, Routine::Stub(E_NOTIMPL)),
        ("pe_vm.typeinfo.GetDllEntry", 6, Routine::Stub(E_NOTIMPL)),
        ("pe_vm.typeinfo.GetRefTypeInfo", 3, Routine::Stub(E_NOTIMPL)),
        ("pe_vm.typeinfo.AddressOfMember", 4, Routine::Stub(E_NOTIMPL)),
        ("pe_vm.typeinfo.CreateInstance", 4, Routine::Stub(E_NOTIMPL)),
        ("pe_vm.typeinfo.GetMops", 3, Routine::Stub(E_NOTIMPL)),
        ("pe_vm.typeinfo.GetContainingTypeLib", 3, Routine::Stub(E_NOTIMPL)),
        ("pe_vm.typeinfo.ReleaseTypeAttr", 2, Routine::Stub(S_OK)),
        ("pe_vm.typeinfo.ReleaseFuncDesc", 2, Routine::Stub(E_NOTIMPL)),
        ("pe_vm.typeinfo.ReleaseVarDesc", 2, Routine::Stub(E_NOTIMPL)),
        ("pe_vm.typeinfo.GetTypeKind", 2, Routine::Stub(E_NOTIMPL)),
        ("pe_vm.typeinfo.GetTypeFlags", 2, Routine::Stub(E_NOTIMPL)),
        ("pe_vm.typeinfo.GetFuncIndexOfMemId", 4, Routine::Stub(E_NOTIMPL)),
        ("pe_vm.typeinfo.GetVarIndexOfMemId", 3, Routine::Stub(E_NOTIMPL)),
        ("pe_vm.typeinfo.GetCustData", 3, Routine::Stub(E_NOTIMPL)),
        ("pe_vm.typeinfo.GetFuncCustData", 4, Routine::Stub(E_NOTIMPL)),
        ("pe_vm.typeinfo.GetParamCustData", 5, Routine::Stub(E_NOTIMPL)),
        ("pe_vm.typeinfo.GetVarCustData", 4, Routine::Stub(E_NOTIMPL)),
        ("pe_vm.typeinfo.GetImplTypeCustData", 4, Routine::Stub(E_NOTIMPL)),
        ("pe_vm.typeinfo.GetDocumentation2", 6, Routine::Stub(E_NOTIMPL)),
        ("pe_vm.typeinfo.GetAllCustData", 2, Routine::Stub(E_NOTIMPL)),
        ("pe_vm.typeinfo.GetAllFuncCustData", 3, Routine::Stub(E_NOTIMPL)),
        ("pe_vm.typeinfo.GetAllParamCustData", 4, Routine::Stub(E_NOTIMPL)),
        ("pe_vm.typeinfo.GetAllVarCustData", 3, Routine::Stub(E_NOTIMPL)),
        ("pe_vm.typeinfo.GetAllImplTypeCustData", 3, Routine::Stub(E_NOTIMPL)),
    ];
    assert(v@ =~= typeinfo_methods());
    v
}

/// The imports that registering a table's routines for any DLL adds.
pub open spec fn thunk_models(t: Seq<(&'static str, u8, Routine)>) -> Seq<ImportModel> {
    t.map_values(|m: (&'static str, u8, Routine)| dynamic(m.0@, arg_bytes(m.1 as nat) as u32, m.2))
}

/// Registers a table's routines for any DLL.
pub fn register_thunks(vm: &mut Vm, table: &Vec<(&'static str, u8, Routine)>)
    ensures
        same_but_imports(old(vm), final(vm)),
        imports_model(final(vm).imports@) == imports_model(old(vm).imports@) + thunk_models(table@),
{
    let ghost start = imports_model(vm.imports@);
    let mut i: usize = 0;
    while i < table.len()
        invariant
            i <= table@.len(),
            same_but_imports(old(vm), vm),
            imports_model(vm.imports@) == start + thunk_models(table@.take(i as int)),
        decreases table.len() - i,
    {
        let (name, args, routine) = table[i];
        vm.register_import_any_stdcall(name, stdcall_args(args as u32), routine);
        assert(table@.take(i + 1) =~= table@.take(i as int).push(table@[i as int]));
        assert(thunk_models(table@.take(i + 1)) =~= thunk_models(table@.take(i as int)).push(
            dynamic(name@, arg_bytes(args as nat) as u32, routine)));
        i = i + 1;
    }
    assert(table@.take(table@.len() as int) =~= table@);
}

/// Whether every routine of a table resolves to a thunk.
pub open spec fn all_resolve(s: Seq<ImportModel>, t: Seq<(&'static str, u8, Routine)>) -> bool {
    forall|i: int| 0 <= i < t.len() ==> (#[trigger] dynamic_thunk(s, t[i].0@)) is Some
}

/// The thunks of a table's routines (where all resolve).
pub open spec fn vtable_words(s: Seq<ImportModel>, t: Seq<(&'static str, u8, Routine)>) -> Seq<u32> {
    t.map_values(|m: (&'static str, u8, Routine)| dynamic_thunk(s, m.0@).unwrap())
}

/// Allocates a vtable: the thunks of a table's routines, in order.
pub fn build_vtable(vm: &mut Vm, table: &Vec<(&'static str, u8, Routine)>) -> (r: Result<u32, VmError>)
    requires
        table@.len() < 0x1000,
    ensures
        same_but_heap(old(vm), final(vm)),
        ({
            let s = imports_model(old(vm).imports@);
            let n = 4 * table@.len() as int;
            match r {
                Ok(p) => all_resolve(s, table@) && alloc_at(old(vm), n, 4) == Some(p as int)
                    && allocated(old(vm), final(vm), p as int, words(vtable_words(s, table@))),
                Err(e) => final(vm).memory@ == old(vm).memory@ && final(vm).heap_cursor == old(vm).heap_cursor
                    && (!all_resolve(s, table@) ==> e == VmError::InvalidConfig("missing import"))
                    && (all_resolve(s, table@) ==> alloc_at(old(vm), n, 4) is None
                        && (e == VmError::OutOfMemory || e == VmError::MemoryOutOfRange)),
            }
        }),
{
    let ghost s = imports_model(vm.imports@);
    let mut bytes: Vec<u8> = Vec::new();
    let mut i: usize = 0;
    while i < table.len()
        invariant
            i <= table@.len(),
            s == imports_model(vm.imports@),
            forall|j: int| 0 <= j < i ==> (#[trigger] dynamic_thunk(s, table@[j].0@)) is Some,
            bytes@ == words(vtable_words(s, table@.take(i as int))),
        decreases table.len() - i,
    {
        let entry = match vm.resolve_dynamic_import(table[i].0) {
            Some(e) => e,
            None => {
                assert(!all_resolve(s, table@)) by {
                    assert(dynamic_thunk(s, table@[i as int].0@) is None);
                }
                return Err(VmError::InvalidConfig("missing import"));
            },
        };
        bytes.push((entry % 256) as u8);
        bytes.push(((entry / 256) % 256) as u8);
        bytes.push(((entry / 65536) % 256) as u8);
        bytes.push((entry / 16777216) as u8);
        proof {
            let t = table@.take(i + 1);
            assert(t.drop_last() =~= table@.take(i as int));
            assert(vtable_words(s, t).drop_last() =~= vtable_words(s, table@.take(i as int)));
            assert(vtable_words(s, t).last() == entry);
        }
        i = i + 1;
        assert(bytes@ =~= words(vtable_words(s, table@.take(i as int))));
    }
    assert(table@.take(table@.len() as int) =~= table@);
    proof {
        lemma_words_len(vtable_words(s, table@));
    }
    vm.alloc_bytes(bytes.as_slice(), 4)
}

/// Allocates a COM object: its vtable pointer followed by `extras`.
pub fn build_object(vm: &mut Vm, vtable: u32, extras: &[u32]) -> (r: Result<u32, VmError>)
    requires
        extras@.len() < 0x1000,
    ensures
        same_but_heap(old(vm), final(vm)),
        ({
            let image = words(seq![vtable] + extras@);
            match r {
                Ok(p) => alloc_at(old(vm), image.len() as int, 4) == Some(p as int)
                    && allocated(old(vm), final(vm), p as int, image),
                Err(e) => final(vm).memory@ == old(vm).memory@ && final(vm).heap_cursor == old(vm).heap_cursor
                    && alloc_at(old(vm), image.len() as int, 4) is None
                    && (e == VmError::OutOfMemory || e == VmError::MemoryOutOfRange),
            }
        }),
{
    let ghost ws = seq![vtable] + extras@;
    let mut bytes: Vec<u8> = Vec::new();
    bytes.push((vtable % 256) as u8);
    bytes.push(((vtable / 256) % 256) as u8);
    bytes.push(((vtable / 65536) % 256) as u8);
    bytes.push((vtable / 16777216) as u8);
    proof {
        let t = ws.take(1);
        assert(t.drop_last() =~= Seq::<u32>::empty());
        assert(t.last() == vtable);
        assert(words(t.drop_last()) =~= Seq::<u8>::empty());
        assert(words(t) == words(t.drop_last()) + bytes32(vtable));
        assert(bytes@ =~= words(ws.take(1)));
    }
    let mut i: usize = 0;
    while i < extras.len()
        invariant
            i <= extras@.len(),
            ws == seq![vtable] + extras@,
            bytes@ == words(ws.take(i + 1)),
        decreases extras.len() - i,
    {
        let x = extras[i];
        bytes.push((x % 256) as u8);
        bytes.push(((x / 256) % 256) as u8);
        bytes.push(((x / 65536) % 256) as u8);
        bytes.push((x / 16777216) as u8);
        proof {
            let t = ws.take(i + 2);
            assert(t.drop_last() =~= ws.take(i + 1));
            assert(t.last() == x);
        }
        i = i + 1;
        assert(bytes@ =~= words(ws.take(i + 1)));
    }
    assert(ws.take(extras@.len() as int + 1) =~= ws);
    vm.alloc_bytes(bytes.as_slice(), 4)
}

/// Whether the words `ws` lie in memory one after another from `addr`.
pub open spec fn holds_words(vm: &Vm, addr: int, ws: Seq<u32>) -> bool {
    forall|i: int| 0 <= i < ws.len() ==> #[trigger] mem_u32(vm, addr + 4 * i) == Some(ws[i])
}

/// A block of words reads back where it was allocated.
pub proof fn lemma_allocated_words(a: &Vm, b: &Vm, p: int, ws: Seq<u32>)
    requires
        alloc_at(a, 4 * ws.len() as int, 4) == Some(p),
        allocated(a, b, p, words(ws)),
    ensures
        holds_words(b, p, ws),
        p + 4 * ws.len() <= b.heap_cursor,
{
    lemma_words_len(ws);
    let img = block_image(words(ws));
    assert forall|i: int| 0 <= i < ws.len() implies #[trigger] mem_u32(b, p + 4 * i) == Some(ws[i]) by {
        lemma_written_u32(a, p - BLOCK_HEADER, img, 4 + 4 * i);
        lemma_words_at(ws, i);
        let w = words(ws);
        assert(img[4 + 4 * i] == w[4 * i]);
        assert(img[4 + 4 * i + 1] == w[4 * i + 1]);
        assert(img[4 + 4 * i + 2] == w[4 * i + 2]);
        assert(img[4 + 4 * i + 3] == w[4 * i + 3]);
    }
}

/// Words below the old heap cursor stay where they are as the heap grows.
pub proof fn lemma_words_kept(a: &Vm, b: &Vm, addr: int, ws: Seq<u32>)
    requires
        holds_words(a, addr, ws),
        heap_grown(a, b),
        addr + 4 * ws.len() <= a.heap_cursor,
    ensures
        holds_words(b, addr, ws),
{
    assert forall|i: int| 0 <= i < ws.len() implies #[trigger] mem_u32(b, addr + 4 * i) == Some(ws[i]) by {
        assert(mem_u32(a, addr + 4 * i) == Some(ws[i]));
        let o = addr + 4 * i - a.base;
        assert(b.memory@[o] == a.memory@[o]);
        assert(b.memory@[o + 1] == a.memory@[o + 1]);
        assert(b.memory@[o + 2] == a.memory@[o + 2]);
        assert(b.memory@[o + 3] == a.memory@[o + 3]);
    }
}

/// Whether `obj` is a COM object whose vtable holds `ws` and whose first
/// word after the vtable pointer is `id`.
pub open spec fn object_at(vm: &Vm, obj: int, ws: Seq<u32>, id: u32) -> bool {
    &&& mem_u32(vm, obj + 4) == Some(id)
    &&& match mem_u32(vm, obj) {
        Some(vt) => holds_words(vm, vt as int, ws),
        None => false,
    }
}

/// A vtable of `n` bytes (a multiple of 4) and, after it, a two-word
/// object fit in the heap: both blocks with their headers lie below the
/// heap's end and in memory.
pub open spec fn com_object_fits(vm: &Vm, n: int) -> bool {
    let p = block_at(vm, 4);
    &&& p + n + 12 <= vm.heap_end
    &&& in_range(vm, p - BLOCK_HEADER, n + 16)
}

/// Allocates a COM object whose vtable holds the thunks of `table` and
/// whose first word after the vtable pointer is `id`.
#[verifier::rlimit(40)]
pub fn build_com_object(vm: &mut Vm, table: &Vec<(&'static str, u8, Routine)>, id: u32) -> (r: Result<u32, VmError>)
    requires
        table@.len() < 0x1000,
    ensures
        same_but_heap(old(vm), final(vm)),
        heap_grown(old(vm), final(vm)),
        ({
            let s = imports_model(old(vm).imports@);
            &&& r matches Ok(obj) ==> obj != 0 && all_resolve(s, table@)
                && object_at(final(vm), obj as int, vtable_words(s, table@), id)
            &&& r is Ok <==> (all_resolve(s, table@) && com_object_fits(old(vm), 4 * table@.len() as int))
            &&& r matches Err(e) ==> (!all_resolve(s, table@) ==> e == VmError::InvalidConfig("missing import"))
            &&& r matches Err(e) ==> (all_resolve(s, table@) ==> (e == VmError::OutOfMemory
                || e == VmError::MemoryOutOfRange))
        }),
{
    let ghost a = *vm;
    let ghost s = imports_model(vm.imports@);
    let ghost ws = vtable_words(s, table@);
    let vt = match build_vtable(vm, table) {
        Ok(p) => p,
        Err(e) => {
            proof {
                assert(heap_grown(&a, &*vm));
                if all_resolve(s, table@) && com_object_fits(&a, 4 * table@.len() as int) {
                    let p = align_up(a.heap_cursor + BLOCK_HEADER, 4);
                    assert(alloc_at(&a, 4 * table@.len() as int, 4) == Some(p));
                }
            }
            return Err(e);
        },
    };
    let ghost b = *vm;
    proof {
        lemma_words_len(ws);
        lemma_allocated_grows(&a, &b, vt as int, words(ws), 4);
        lemma_allocated_words(&a, &b, vt as int, ws);
    }
    let extras = [id];
    let obj = match build_object(vm, vt, &extras) {
        Ok(p) => p,
        Err(e) => {
            proof {
                lemma_words_len(ws);
                lemma_words_len(seq![vt] + extras@);
                assert(heap_grown(&b, &*vm));
                lemma_heap_grown_trans(&a, &b, &*vm);
                let p = block_at(&a, 4);
                assert(vt as int == p && b.heap_cursor == p + 4 * table@.len());
                assert(block_at(&b, 4) == p + 4 * table@.len() + 4);
                assert(!com_object_fits(&a, 4 * table@.len() as int));
            }
            return Err(e);
        },
    };
    proof {
        let ow = seq![vt] + extras@;
        lemma_words_len(ow);
        lemma_allocated_grows(&b, &*vm, obj as int, words(ow), 4);
        lemma_heap_grown_trans(&a, &b, &*vm);
        lemma_allocated_words(&b, &*vm, obj as int, ow);
        lemma_words_kept(&b, &*vm, vt as int, ws);
        assert(mem_u32(&*vm, obj + 4 * 0) == Some(ow[0]));
        assert(mem_u32(&*vm, obj + 4 * 1) == Some(ow[1]));
        let p = block_at(&a, 4);
        assert(vt as int == p && b.heap_cursor == p + 4 * table@.len());
        assert(block_at(&b, 4) == p + 4 * table@.len() + 4);
        assert(com_object_fits(&a, 4 * table@.len() as int));
    }
    Ok(obj)
}

/// The imports once the routines of both vtables are registered.
pub open spec fn with_thunks(s: Seq<ImportModel>) -> Seq<ImportModel> {
    s + thunk_models(typelib_methods()) + thunk_models(typeinfo_methods())
}

/// The ITypeLib vtable of a machine with the imports `s`.
pub open spec fn typelib_vtable(s: Seq<ImportModel>) -> Seq<u32> {
    vtable_words(s, typelib_methods())
}

/// The ITypeInfo vtable of a machine with the imports `s`.
pub open spec fn typeinfo_vtable(s: Seq<ImportModel>) -> Seq<u32> {
    vtable_words(s, typeinfo_methods())
}

/// The machine's bounds, system, registry and registers are as they were.
pub open spec fn same_frame(a: &Vm, b: &Vm) -> bool {
    &&& a.base == b.base
    &&& a.stack_top == b.stack_top
    &&& a.heap_start == b.heap_start
    &&& a.heap_end == b.heap_end
    &&& b.memory@.len() == a.memory@.len()
    &&& a.os == b.os
    &&& a.registry == b.registry
    &&& a.ecx == b.ecx
}

/// Everything of the machine but its heap, import table and automation
/// state is as it was.
pub open spec fn same_but_com(a: &Vm, b: &Vm) -> bool {
    &&& heap_grown(a, b)
    &&& same_frame(a, b)
}

/// Takes in a type library: registers the routines of the ITypeLib and
/// ITypeInfo vtables, stores the library under the next id and allocates
/// an ITypeLib object for it (the library stays stored where the object
/// cannot be allocated).
pub fn alloc_typelib(vm: &mut Vm, lib: TypeLib) -> (r: Result<u32, VmError>)
    ensures
        same_but_com(old(vm), final(vm)),
        ({
            let s = with_thunks(imports_model(old(vm).imports@));
            let id = old(vm).com.next_id;
            &&& imports_model(final(vm).imports@) == s
            &&& final(vm).com.typelibs@ == old(vm).com.typelibs@.insert(id, lib)
            &&& final(vm).com.next_id == add32(id, 1)
            &&& final(vm).com.typeinfos@ == old(vm).com.typeinfos@
            &&& final(vm).com.dispatch_instance == old(vm).com.dispatch_instance
            &&& final(vm).com.last_out_params@ == old(vm).com.last_out_params@
            &&& r matches Ok(obj) ==> object_at(final(vm), obj as int, typelib_vtable(s), id)
            &&& r is Ok <==> (all_resolve(s, typelib_methods()) && com_object_fits(old(vm), 52))
        }),
{
    let ghost a = *vm;
    let t1 = typelib_method_table();
    let t2 = typeinfo_method_table();
    register_thunks(vm, &t1);
    register_thunks(vm, &t2);
    let ghost lib0 = lib;
    let id = vm.com.store_typelib(lib);
    let ghost b = *vm;
    proof {
        assert(heap_grown(&a, &b));
        assert(imports_model(b.imports@) =~= with_thunks(imports_model(a.imports@)));
    }
    let r = build_com_object(vm, &t1, id);
    proof {
        lemma_heap_grown_trans(&a, &b, &*vm);
    }
    r
}

/// Allocates an ITypeInfo object for the type info with the id `id`.
pub fn build_typeinfo_object(vm: &mut Vm, id: u32) -> (r: Result<u32, VmError>)
    ensures
        same_but_heap(old(vm), final(vm)),
        heap_grown(old(vm), final(vm)),
        ({
            let s = imports_model(old(vm).imports@);
            &&& r matches Ok(obj) ==> obj != 0 && object_at(final(vm), obj as int, typeinfo_vtable(s), id)
            &&& r is Ok <==> (all_resolve(s, typeinfo_methods()) && com_object_fits(old(vm), 148))
        }),
{
    let t = typeinfo_method_table();
    build_com_object(vm, &t, id)
}

/// `b` is `a` with a type info handed out under `id` and the object `v`
/// for it (0 where none could be allocated) stored at `out`.
pub open spec fn typeinfo_handed_out(a: &Vm, b: &Vm, out: u32, id: u32, r: u32) -> bool {
    exists|g: Vm, v: u32| {
        &&& heap_grown(a, &g)
        &&& b.memory@ == #[trigger] store(a.base, g.memory@, out as int, bytes32(v))
        &&& b.heap_cursor == g.heap_cursor
        &&& (r == S_OK <==> v != 0)
        &&& (r == S_OK || r == E_NOTIMPL)
        &&& (v != 0 ==> object_at(&g, v as int, typeinfo_vtable(imports_model(a.imports@)), id))
    }
}

/// Hands out the type info at `index` of the library with the id
/// `typelib_id` under the next id, and stores an ITypeInfo object for it
/// at `out`; `S_OK`, or `E_NOTIMPL` (with 0 stored) where no object can be
/// allocated.
pub fn hand_out_typeinfo(vm: &mut Vm, typelib_id: u32, index: usize, out: u32) -> (r: u32)
    requires
        old(vm).com.typelib_of(typelib_id) is Some,
    ensures
        same_frame(old(vm), final(vm)),
        final(vm).imports == old(vm).imports,
        final(vm).com.typelibs@ == old(vm).com.typelibs@,
        final(vm).com.typeinfos@ == old(vm).com.typeinfos@.insert(
            old(vm).com.next_id, crate::vm::com::TypeInfoHandle { typelib_id, index },
        ),
        final(vm).com.next_id == add32(old(vm).com.next_id, 1),
        final(vm).com.dispatch_instance == old(vm).com.dispatch_instance,
        final(vm).com.last_out_params@ == old(vm).com.last_out_params@,
        typeinfo_handed_out(old(vm), final(vm), out, old(vm).com.next_id, r),
        r == S_OK <==> (all_resolve(imports_model(old(vm).imports@), typeinfo_methods())
            && com_object_fits(old(vm), 148)),
{
    let ghost a = *vm;
    let id = match vm.com.store_typeinfo(typelib_id, index) {
        Some(id) => id,
        None => {
            assert(false);
            return E_NOTIMPL;
        },
    };
    let ghost b = *vm;
    assert(heap_grown(&a, &b));
    let typeinfo = match build_typeinfo_object(vm, id) {
        Ok(p) => p,
        Err(_) => 0,
    };
    let ghost g = *vm;
    proof {
        lemma_heap_grown_trans(&a, &b, &g);
        assert(b.imports == a.imports);
    }
    let _ = vm.write_u32(out, typeinfo);
    let r = if typeinfo == 0 {
        E_NOTIMPL
    } else {
        S_OK
    };
    proof {
        let v = typeinfo;
        assert(heap_grown(&a, &g));
        assert(vm.memory@ == store(a.base, g.memory@, out as int, bytes32(v)));
        assert(v != 0 ==> object_at(&g, v as int, typeinfo_vtable(imports_model(a.imports@)), id));
        assert(typeinfo_handed_out(&a, &*vm, out, id, r));
        assert(com_object_fits(&a, 148) == com_object_fits(&b, 148));
    }
    r
}

/// The word after the vtable pointer of the object at `this`: the id of
/// what it stands for (0 where it cannot be read).
pub open spec fn object_id(vm: &Vm, this: u32) -> u32 {
    u32_or0(vm, add32(this, 4) as int)
}

/// Whether the 16 bytes at `ptr` (unreadable ones as 0) are the interface
/// id that `iid` writes.
pub open spec fn is_iid(vm: &Vm, ptr: u32, iid: &str) -> bool {
    match parse_guid_spec(iid@) {
        Some(g) => g == guid_or0(vm, ptr),
        None => false,
    }
}

/// `b` is `a` with `v` stored at `out`.
pub open spec fn stored_u32(a: &Vm, b: &Vm, out: u32, v: u32) -> bool {
    &&& same_but_memory(a, b)
    &&& b.memory@ == store(a.base, a.memory@, out as int, bytes32(v))
}

/// What `typelib_query_interface` returns (`r`) and leaves (`post`) on the machine `pre`.
pub open spec fn typelib_query_interface_effect(pre: &Vm, post: &Vm, stack_ptr: u32, r: u32) -> bool {
    ({
        let this = arg(pre, stack_ptr, 0);
        let iid = arg(pre, stack_ptr, 1);
        let out = arg(pre, stack_ptr, 2);
        if out == 0 {
            r == E_NOINTERFACE && *post == *pre
        } else if is_iid(pre, iid, IID_IUNKNOWN) || is_iid(pre, iid, IID_ITYPELIB) {
            r == S_OK && stored_u32(pre, post, out, this)
        } else {
            r == E_NOINTERFACE && stored_u32(pre, post, out, 0)
        }
    })
}

/// `ITypeLib::QueryInterface(this, iid, out)`: stores `this` at `out` for
/// IUnknown and ITypeLib, and 0 for any other interface
/// (`E_NOINTERFACE`); `E_NOINTERFACE`, with nothing stored, for a null
/// `out`.
pub fn typelib_query_interface(vm: &mut Vm, stack_ptr: u32) -> (r: u32)
    ensures
        typelib_query_interface_effect(old(vm), final(vm), stack_ptr, r),
{
    let this = vm.arg(stack_ptr, 0);
    let iid_ptr = vm.arg(stack_ptr, 1);
    let out_ptr = vm.arg(stack_ptr, 2);
    if out_ptr == 0 {
        return E_NOINTERFACE;
    }
    if guid_matches(vm, iid_ptr, IID_IUNKNOWN) || guid_matches(vm, iid_ptr, IID_ITYPELIB) {
        let _ = vm.write_u32(out_ptr, this);
        return S_OK;
    }
    let _ = vm.write_u32(out_ptr, 0);
    E_NOINTERFACE
}

/// What `typelib_get_typeinfo_count` returns (`r`) and leaves (`post`) on the machine `pre`.
pub open spec fn typelib_get_typeinfo_count_effect(pre: &Vm, post: &Vm, stack_ptr: u32, r: u32) -> bool {
    &&& *post == *pre
    &&& r == match pre.com.typelib_of(object_id(pre, arg(pre, stack_ptr, 0))) {
        Some(lib) => lib.typeinfos@.len() as u32,
        None => 0,
    }
}

/// `ITypeLib::GetTypeInfoCount(this)`: how many type infos the library of
/// `this` has (0 where it stands for none).
pub fn typelib_get_typeinfo_count(vm: &mut Vm, stack_ptr: u32) -> (r: u32)
    ensures
        typelib_get_typeinfo_count_effect(old(vm), final(vm), stack_ptr, r),
{
    let this = vm.arg(stack_ptr, 0);
    let lib_id = vm.read_u32_or0(wrap_add(this, 4));
    match vm.com.get_typelib(lib_id) {
        Some(lib) => lib.typeinfos.len() as u32,
        None => 0,
    }
}

/// What `typelib_get_typeinfo` returns (`r`) and leaves (`post`) on the machine `pre`.
pub open spec fn typelib_get_typeinfo_effect(pre: &Vm, post: &Vm, stack_ptr: u32, r: u32) -> bool {
    ({
        let this = arg(pre, stack_ptr, 0);
        let index = arg(pre, stack_ptr, 1);
        let out = arg(pre, stack_ptr, 2);
        let lib_id = object_id(pre, this);
        if out == 0 {
            r == E_INVALIDARG && *post == *pre
        } else {
            match pre.com.typelib_of(lib_id) {
                None => r == E_NOTIMPL && stored_u32(pre, post, out, 0),
                Some(lib) => if index >= lib.typeinfos@.len() {
                    r == E_INVALIDARG && stored_u32(pre, post, out, 0)
                } else {
                    &&& same_frame(pre, post)
                    &&& post.imports == pre.imports
                    &&& post.com.typelibs@ == pre.com.typelibs@
                    &&& post.com.typeinfos@ == pre.com.typeinfos@.insert(
                        pre.com.next_id, crate::vm::com::TypeInfoHandle { typelib_id: lib_id, index: index as usize },
                    )
                    &&& post.com.next_id == add32(pre.com.next_id, 1)
                    &&& post.com.dispatch_instance == pre.com.dispatch_instance
                    &&& post.com.last_out_params@ == pre.com.last_out_params@
                    &&& typeinfo_handed_out(pre, post, out, pre.com.next_id, r)
                    &&& r == S_OK <==> (all_resolve(imports_model(pre.imports@), typeinfo_methods())
                        && com_object_fits(pre, 148))
                },
            }
        }
    })
}

/// `ITypeLib::GetTypeInfo(this, index, out)`: hands out the type info at
/// `index` and stores an ITypeInfo object for it at `out`.
/// `E_INVALIDARG` for a null `out` (nothing stored) or an index past the
/// type infos (0 stored); `E_NOTIMPL`, with 0 stored, where `this` stands
/// for no library.
pub fn typelib_get_typeinfo(vm: &mut Vm, stack_ptr: u32) -> (r: u32)
    ensures
        typelib_get_typeinfo_effect(old(vm), final(vm), stack_ptr, r),
{
    let this = vm.arg(stack_ptr, 0);
    let index = vm.arg(stack_ptr, 1) as usize;
    let out_ptr = vm.arg(stack_ptr, 2);
    if out_ptr == 0 {
        return E_INVALIDARG;
    }
    let lib_id = vm.read_u32_or0(wrap_add(this, 4));
    let count = match vm.com.get_typelib(lib_id) {
        Some(lib) => lib.typeinfos.len(),
        None => {
            let _ = vm.write_u32(out_ptr, 0);
            return E_NOTIMPL;
        },
    };
    if index >= count {
        let _ = vm.write_u32(out_ptr, 0);
        return E_INVALIDARG;
    }
    hand_out_typeinfo(vm, lib_id, index, out_ptr)
}

/// What `typelib_get_typeinfo_type` returns (`r`) and leaves (`post`) on the machine `pre`.
pub open spec fn typelib_get_typeinfo_type_effect(pre: &Vm, post: &Vm, stack_ptr: u32, r: u32) -> bool {
    ({
        let this = arg(pre, stack_ptr, 0);
        let index = arg(pre, stack_ptr, 1);
        let out = arg(pre, stack_ptr, 2);
        if out == 0 {
            r == E_INVALIDARG && *post == *pre
        } else {
            match pre.com.typelib_of(object_id(pre, this)) {
                None => r == E_NOTIMPL && stored_u32(pre, post, out, 0),
                Some(lib) => r == S_OK && stored_u32(
                    pre,
                    post,
                    out,
                    if index < lib.typeinfos@.len() {
                        lib.typeinfos@[index as int].typekind
                    } else {
                        0
                    },
                ),
            }
        }
    })
}

/// `ITypeLib::GetTypeInfoType(this, index, out)`: stores the kind of the
/// type info at `index` at `out` (0 for an index past the type infos).
/// `E_INVALIDARG` for a null `out`; `E_NOTIMPL`, with 0 stored, where
/// `this` stands for no library.
pub fn typelib_get_typeinfo_type(vm: &mut Vm, stack_ptr: u32) -> (r: u32)
    ensures
        typelib_get_typeinfo_type_effect(old(vm), final(vm), stack_ptr, r),
{
    let this = vm.arg(stack_ptr, 0);
    let index = vm.arg(stack_ptr, 1) as usize;
    let out_ptr = vm.arg(stack_ptr, 2);
    if out_ptr == 0 {
        return E_INVALIDARG;
    }
    let lib_id = vm.read_u32_or0(wrap_add(this, 4));
    let kind = match vm.com.get_typelib(lib_id) {
        Some(lib) => if index < lib.typeinfos.len() {
            lib.typeinfos[index].typekind
        } else {
            0
        },
        None => {
            let _ = vm.write_u32(out_ptr, 0);
            return E_NOTIMPL;
        },
    };
    let _ = vm.write_u32(out_ptr, kind);
    S_OK
}

/// The index of the first type info with the GUID `g`.
pub open spec fn guid_index(infos: Seq<TypeInfoData>, g: Seq<u8>, i: int) -> bool {
    &&& 0 <= i < infos.len()
    &&& infos[i].guid@ == g
    &&& forall|j: int| 0 <= j < i ==> (#[trigger] infos[j]).guid@ != g
}

/// Where the first type info with the GUID `g` stands.
fn find_guid(infos: &Vec<TypeInfoData>, g: &Vec<u8>) -> (r: Option<usize>)
    ensures
        match r {
            Some(i) => guid_index(infos@, g@, i as int),
            None => forall|j: int| 0 <= j < infos@.len() ==> (#[trigger] infos@[j]).guid@ != g@,
        },
{
    let mut i: usize = 0;
    while i < infos.len()
        invariant
            i <= infos@.len(),
            forall|j: int| 0 <= j < i ==> (#[trigger] infos@[j]).guid@ != g@,
        decreases infos.len() - i,
    {
        let guid = &infos[i].guid;
        let mut same = guid.len() == g.len();
        let mut k: usize = 0;
        while same && k < g.len()
            invariant
                guid@ == infos@[i as int].guid@,
                k <= g@.len(),
                same ==> guid@.len() == g@.len(),
                same ==> forall|m: int| 0 <= m < k ==> guid@[m] == g@[m],
                !same ==> guid@ != g@,
            decreases g.len() - k,
        {
            if guid[k] != g[k] {
                same = false;
            }
            k = k + 1;
        }
        if same {
            assert(guid@ =~= g@);
            return Some(i);
        }
        i = i + 1;
    }
    None
}

/// What `typelib_get_typeinfo_of_guid` returns (`r`) and leaves (`post`) on the machine `pre`.
pub open spec fn typelib_get_typeinfo_of_guid_effect(pre: &Vm, post: &Vm, stack_ptr: u32, r: u32) -> bool {
    ({
        let this = arg(pre, stack_ptr, 0);
        let gp = arg(pre, stack_ptr, 1);
        let out = arg(pre, stack_ptr, 2);
        let lib_id = object_id(pre, this);
        if out == 0 {
            r == E_INVALIDARG && *post == *pre
        } else {
            match guid_at(pre, gp) {
                None => r == E_INVALIDARG && stored_u32(pre, post, out, 0),
                Some(g) => match pre.com.typelib_of(lib_id) {
                    None => r == E_NOTIMPL && stored_u32(pre, post, out, 0),
                    Some(lib) => if exists|i: int| guid_index(lib.typeinfos@, g, i) {
                        let index = choose|i: int| guid_index(lib.typeinfos@, g, i);
                        &&& same_frame(pre, post)
                        &&& post.imports == pre.imports
                        &&& post.com.typelibs@ == pre.com.typelibs@
                        &&& post.com.typeinfos@ == pre.com.typeinfos@.insert(
                            pre.com.next_id, crate::vm::com::TypeInfoHandle { typelib_id: lib_id, index: index as usize },
                        )
                        &&& post.com.next_id == add32(pre.com.next_id, 1)
                        &&& post.com.dispatch_instance == pre.com.dispatch_instance
                        &&& post.com.last_out_params@ == pre.com.last_out_params@
                        &&& typeinfo_handed_out(pre, post, out, pre.com.next_id, r)
                        &&& r == S_OK <==> (all_resolve(imports_model(pre.imports@), typeinfo_methods())
                            && com_object_fits(pre, 148))
                    } else {
                        r == E_NOTIMPL && stored_u32(pre, post, out, 0)
                    },
                },
            }
        }
    })
}

/// `ITypeLib::GetTypeInfoOfGuid(this, guid, out)`: hands out the first
/// type info with the GUID at `guid` and stores an ITypeInfo object for it
/// at `out`. `E_INVALIDARG` for a null `out` (nothing stored) or an
/// unreadable GUID (0 stored); `E_NOTIMPL`, with 0 stored, where `this`
/// stands for no library or no type info has the GUID.
pub fn typelib_get_typeinfo_of_guid(vm: &mut Vm, stack_ptr: u32) -> (r: u32)
    ensures
        typelib_get_typeinfo_of_guid_effect(old(vm), final(vm), stack_ptr, r),
{
    let this = vm.arg(stack_ptr, 0);
    let guid_ptr = vm.arg(stack_ptr, 1);
    let out_ptr = vm.arg(stack_ptr, 2);
    if out_ptr == 0 {
        return E_INVALIDARG;
    }
    let guid = match read_guid_bytes(vm, guid_ptr) {
        Some(g) => g,
        None => {
            let _ = vm.write_u32(out_ptr, 0);
            return E_INVALIDARG;
        },
    };
    let lib_id = vm.read_u32_or0(wrap_add(this, 4));
    let found = match vm.com.get_typelib(lib_id) {
        Some(lib) => find_guid(&lib.typeinfos, &guid),
        None => {
            let _ = vm.write_u32(out_ptr, 0);
            return E_NOTIMPL;
        },
    };
    let index = match found {
        Some(i) => i,
        None => {
            let _ = vm.write_u32(out_ptr, 0);
            return E_NOTIMPL;
        },
    };
    proof {
        let lib = vm.com.typelib_of(lib_id).unwrap();
        let g = guid@;
        let k = choose|k: int| guid_index(lib.typeinfos@, g, k);
        if k < index {
            assert(lib.typeinfos@[k].guid@ != g);
        }
        if k > index {
            assert(lib.typeinfos@[index as int].guid@ != g);
        }
    }
    hand_out_typeinfo(vm, lib_id, index, out_ptr)
}

} // verus!
