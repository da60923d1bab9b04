//! The ITypeInfo object: finding `this` (on the stack, or in ECX for a
//! thiscall), and the routines of its vtable but `Invoke`.

use vstd::prelude::*;

use super::constants::{E_INVALIDARG, E_NOINTERFACE, E_NOTIMPL, IID_ITYPEINFO, IID_ITYPEINFO2, IID_IUNKNOWN, S_OK};
use super::bstr::unchanged;
use super::guid::guid_matches;
use super::typelib::{FuncDesc, TypeInfoData};
use super::typelib_api::{is_iid, stored_u32};
use crate::vm::imports::{dynamic_thunk, imports_model};
use crate::vm::{
    add32, alloc_at, allocated, arg, heap_grown, lemma_allocated_grows, lemma_heap_grown_trans, same_but_memory, block_image, bytes16, bytes32, in_range, same_but_heap, store, u32_or0, written,
    wrap_add, Vm, VmError, BLOCK_HEADER,
};

verus! {

/// The name the ITypeInfo `QueryInterface` routine is registered under;
/// its thunk marks a vtable as one of an ITypeInfo object.
pub const TYPEINFO_MARK: &'static str = "pe_vm.typeinfo.QueryInterface";

/// Whether `ptr` is an ITypeInfo object of this machine: its vtable lies
/// in memory and begins with the thunk of the ITypeInfo `QueryInterface`.
pub open spec fn is_typeinfo(vm: &Vm, ptr: u32) -> bool {
    let vt = u32_or0(vm, ptr as int);
    &&& ptr != 0
    &&& in_range(vm, vt as int, 1)
    &&& dynamic_thunk(imports_model(vm.imports@), TYPEINFO_MARK@) == Some(u32_or0(vm, vt as int))
}

pub fn is_typeinfo_object(vm: &Vm, ptr: u32) -> (r: bool)
    ensures
        r == is_typeinfo(vm, ptr),
{
    if ptr == 0 {
        return false;
    }
    let vtable_ptr = vm.read_u32_or0(ptr);
    if !vm.contains_addr(vtable_ptr) {
        return false;
    }
    let entry = vm.read_u32_or0(vtable_ptr);
    match vm.resolve_dynamic_import(TYPEINFO_MARK) {
        Some(expected) => entry == expected,
        None => false,
    }
}

/// The `this` of an ITypeInfo call: the first stack argument where it is
/// an ITypeInfo object, else ECX where that is one (a thiscall, whose
/// arguments then start at the first stack slot).
pub open spec fn typeinfo_this(vm: &Vm, sp: u32) -> Option<(u32, bool)> {
    let st = arg(vm, sp, 0);
    if st != 0 && is_typeinfo(vm, st) {
        Some((st, false))
    } else if vm.ecx != 0 && is_typeinfo(vm, vm.ecx) {
        Some((vm.ecx, true))
    } else {
        None
    }
}

pub fn resolve_typeinfo_this(vm: &Vm, stack_ptr: u32) -> (r: Option<(u32, bool)>)
    ensures
        r == typeinfo_this(vm, stack_ptr),
{
    let stack_this = vm.arg(stack_ptr, 0);
    if stack_this != 0 && is_typeinfo_object(vm, stack_this) {
        return Some((stack_this, false));
    }
    let ecx = vm.ecx;
    if ecx != 0 && is_typeinfo_object(vm, ecx) {
        return Some((ecx, true));
    }
    None
}

/// The `i`-th argument after `this` of a call whose `this` was found on the
/// stack or, for a thiscall, in ECX.
pub open spec fn targ(vm: &Vm, sp: u32, thiscall: bool, i: int) -> u32 {
    if thiscall {
        arg(vm, sp, i)
    } else {
        arg(vm, sp, i + 1)
    }
}

/// The `this` of an ITypeInfo call with the id it holds, where that id
/// stands for a type info; and whether the call is a thiscall.
pub open spec fn typeinfo_call(vm: &Vm, sp: u32) -> Option<(u32, u32, bool)> {
    match typeinfo_this(vm, sp) {
        None => None,
        Some((this, thiscall)) => {
            let p = add32(this, 4);
            if in_range(vm, p as int, 4) && vm.com.typeinfo_of(u32_or0(vm, p as int)) is Some {
                Some((this, u32_or0(vm, p as int), thiscall))
            } else {
                None
            }
        },
    }
}

pub fn resolve_typeinfo_info(vm: &Vm, stack_ptr: u32) -> (r: Option<(u32, u32, bool)>)
    ensures
        r == typeinfo_call(vm, stack_ptr),
{
    let (this, thiscall) = match resolve_typeinfo_this(vm, stack_ptr) {
        Some(t) => t,
        None => return None,
    };
    let info_id = match vm.read_u32(wrap_add(this, 4)) {
        Ok(v) => v,
        Err(_) => return None,
    };
    if vm.com.get_typeinfo(info_id).is_some() {
        Some((this, info_id, thiscall))
    } else {
        None
    }
}

/// What `typeinfo_query_interface` returns (`r`) and leaves (`post`) on the machine `pre`.
pub open spec fn typeinfo_query_interface_effect(pre: &Vm, post: &Vm, stack_ptr: u32, r: u32) -> bool {
    ({
        let (this, thiscall) = match typeinfo_this(pre, stack_ptr) {
            Some(t) => t,
            None => (0u32, false),
        };
        let iid = targ(pre, stack_ptr, thiscall, 0);
        let out = targ(pre, stack_ptr, thiscall, 1);
        if out == 0 {
            r == E_NOINTERFACE && *post == *pre
        } else if is_iid(pre, iid, IID_IUNKNOWN) || is_iid(pre, iid, IID_ITYPEINFO)
            || is_iid(pre, iid, IID_ITYPEINFO2) {
            r == S_OK && stored_u32(pre, post, out, this)
        } else {
            r == E_NOINTERFACE && stored_u32(pre, post, out, 0)
        }
    })
}

/// `ITypeInfo::QueryInterface([this,] iid, out)`: stores `this` at `out` for
/// IUnknown, ITypeInfo and ITypeInfo2, and 0 for any other interface
/// (`E_NOINTERFACE`); `E_NOINTERFACE`, with nothing stored, for a null
/// `out`. Where `this` is no ITypeInfo object, 0 stands for it.
pub fn typeinfo_query_interface(vm: &mut Vm, stack_ptr: u32) -> (r: u32)
    ensures
        typeinfo_query_interface_effect(old(vm), final(vm), stack_ptr, r),
{
    let (this, thiscall) = match resolve_typeinfo_this(vm, stack_ptr) {
        Some(t) => t,
        None => (0, false),
    };
    let (iid_ptr, out_ptr) = if thiscall {
        (vm.arg(stack_ptr, 0), vm.arg(stack_ptr, 1))
    } else {
        (vm.arg(stack_ptr, 1), vm.arg(stack_ptr, 2))
    };
    if out_ptr == 0 {
        return E_NOINTERFACE;
    }
    if guid_matches(vm, iid_ptr, IID_IUNKNOWN) || guid_matches(vm, iid_ptr, IID_ITYPEINFO)
        || guid_matches(vm, iid_ptr, IID_ITYPEINFO2) {
        let _ = vm.write_u32(out_ptr, this);
        return S_OK;
    }
    let _ = vm.write_u32(out_ptr, 0);
    E_NOINTERFACE
}

/// `n` zero bytes.
pub open spec fn zeros(n: nat) -> Seq<u8> {
    Seq::new(n, |i: int| 0u8)
}

/// The first 16 bytes of a GUID, zeros past its end.
pub open spec fn guid16(g: Seq<u8>) -> Seq<u8> {
    Seq::new(16, |i: int| if i < g.len() { g[i] } else { 0u8 })
}

/// The TYPEATTR of a type info: its GUID, no constructor or destructor,
/// its kind, counts, vtable size and flags; the rest zero.
pub open spec fn type_attr_image(info: TypeInfoData) -> Seq<u8> {
    guid16(info.guid@) + zeros(8) + bytes32(0xFFFF_FFFF) + bytes32(0xFFFF_FFFF) + zeros(8)
        + bytes32(info.typekind) + bytes16(info.c_funcs) + bytes16(info.c_vars)
        + bytes16(info.c_impl_types) + bytes16(info.cb_size_vft) + zeros(2)
        + bytes16(info.flags as u16) + zeros(20)
}

fn push_zeros(v: &mut Vec<u8>, n: usize)
    ensures
        final(v)@ == old(v)@ + zeros(n as nat),
{
    let mut i: usize = 0;
    while i < n
        invariant
            i <= n,
            v@ == old(v)@ + zeros(i as nat),
        decreases n - i,
    {
        v.push(0);
        i = i + 1;
        assert(v@ =~= old(v)@ + zeros(i as nat));
    }
}

fn push_u16(v: &mut Vec<u8>, x: u16)
    ensures
        final(v)@ == old(v)@ + bytes16(x),
{
    v.push((x % 256) as u8);
    v.push((x / 256) as u8);
    assert(v@ =~= old(v)@ + bytes16(x));
}

fn push_u32(v: &mut Vec<u8>, x: u32)
    ensures
        final(v)@ == old(v)@ + bytes32(x),
{
    v.push((x % 256) as u8);
    v.push(((x / 256) % 256) as u8);
    v.push(((x / 65536) % 256) as u8);
    v.push((x / 16777216) as u8);
    assert(v@ =~= old(v)@ + bytes32(x));
}

/// The TYPEATTR bytes of a type info.
pub fn type_attr_bytes(info: &TypeInfoData) -> (r: Vec<u8>)
    ensures
        r@ == type_attr_image(*info),
        r@.len() == 0x4C,
{
    let mut v: Vec<u8> = Vec::new();
    let mut i: usize = 0;
    while i < 16
        invariant
            i <= 16,
            v@ == Seq::new(i as nat, |k: int| if k < info.guid@.len() { info.guid@[k] } else { 0u8 }),
        decreases 16 - i,
    {
        let b = if i < info.guid.len() {
            info.guid[i]
        } else {
            0
        };
        v.push(b);
        i = i + 1;
        assert(v@ =~= Seq::new(i as nat, |k: int| if k < info.guid@.len() { info.guid@[k] } else { 0u8 }));
    }
    assert(v@ =~= guid16(info.guid@));
    push_zeros(&mut v, 8);
    push_u32(&mut v, 0xFFFF_FFFF);
    push_u32(&mut v, 0xFFFF_FFFF);
    push_zeros(&mut v, 8);
    push_u32(&mut v, info.typekind);
    push_u16(&mut v, info.c_funcs);
    push_u16(&mut v, info.c_vars);
    push_u16(&mut v, info.c_impl_types);
    push_u16(&mut v, info.cb_size_vft);
    push_zeros(&mut v, 2);
    push_u16(&mut v, info.flags as u16);
    push_zeros(&mut v, 20);
    v
}

/// What `typeinfo_get_type_attr` returns (`r`) and leaves (`post`) on the machine `pre`.
pub open spec fn typeinfo_get_type_attr_effect(pre: &Vm, post: &Vm, stack_ptr: u32, r: u32) -> bool {
    match typeinfo_call(pre, stack_ptr) {
        None => r == E_NOTIMPL && *post == *pre,
        Some((_, id, thiscall)) => {
            let out = targ(pre, stack_ptr, thiscall, 0);
            let image = type_attr_image(pre.com.typeinfo_of(id).unwrap());
            if out == 0 {
                r == E_INVALIDARG && *post == *pre
            } else {
                match alloc_at(pre, 0x4C, 4) {
                    None => r == E_NOTIMPL && unchanged(pre, post),
                    Some(p) => r == S_OK && same_but_heap(pre, post)
                        && post.heap_cursor == p + 0x4C
                        && post.memory@ == store(
                            pre.base,
                            written(pre, p - BLOCK_HEADER, block_image(image)),
                            out as int,
                            bytes32(p as u32),
                        ),
                }
            }
        },
    }
}

/// `ITypeInfo::GetTypeAttr([this,] out)`: allocates the TYPEATTR of the
/// type info and stores its address at `out`. `E_NOTIMPL` where `this`
/// stands for no type info, or (with nothing stored) where the heap is
/// full; `E_INVALIDARG` for a null `out`.
pub fn typeinfo_get_type_attr(vm: &mut Vm, stack_ptr: u32) -> (r: u32)
    ensures
        typeinfo_get_type_attr_effect(old(vm), final(vm), stack_ptr, r),
{
    let (_, info_id, thiscall) = match resolve_typeinfo_info(vm, stack_ptr) {
        Some(t) => t,
        None => return E_NOTIMPL,
    };
    let out_ptr = if thiscall {
        vm.arg(stack_ptr, 0)
    } else {
        vm.arg(stack_ptr, 1)
    };
    if out_ptr == 0 {
        return E_INVALIDARG;
    }
    let bytes = match vm.com.get_typeinfo(info_id) {
        Some(info) => type_attr_bytes(info),
        None => {
            let _ = vm.write_u32(out_ptr, 0);
            return E_NOTIMPL;
        },
    };
    let attr_ptr = match vm.alloc_bytes(bytes.as_slice(), 4) {
        Ok(p) => p,
        Err(_) => return E_NOTIMPL,
    };
    proof {
        assert(attr_ptr != 0);
    }
    let _ = vm.write_u32(out_ptr, attr_ptr);
    S_OK
}

/// An ELEMDESC: a type description of type `vt`, and the flags.
pub open spec fn elemdesc_image(vt: u16, flags: u16) -> Seq<u8> {
    zeros(4) + bytes16(vt) + zeros(2) + zeros(4) + bytes16(flags) + zeros(2)
}

/// Writes an ELEMDESC into `bytes` at `offset`, where it fits.
pub fn write_elemdesc(bytes: &mut Vec<u8>, offset: usize, vt: u16, flags: u16)
    ensures
        if offset + 16 <= old(bytes)@.len() {
            final(bytes)@ == old(bytes)@.take(offset as int) + elemdesc_image(vt, flags)
                + old(bytes)@.skip(offset + 16)
        } else {
            final(bytes)@ == old(bytes)@
        },
{
    if offset > bytes.len() || bytes.len() - offset < 16 {
        return;
    }
    let mut img: Vec<u8> = Vec::new();
    push_zeros(&mut img, 4);
    push_u16(&mut img, vt);
    push_zeros(&mut img, 2);
    push_zeros(&mut img, 4);
    push_u16(&mut img, flags);
    push_zeros(&mut img, 2);
    let ghost b0 = bytes@;
    let len = bytes.len();
    let mut k: usize = 0;
    while k < 16
        invariant
            k <= 16,
            offset + 16 <= len,
            len == b0.len(),
            img@ == elemdesc_image(vt, flags),
            offset + 16 <= b0.len(),
            b0.len() == bytes@.len(),
            bytes@ == b0.take(offset as int) + img@.take(k as int) + b0.skip(offset + k),
        decreases 16 - k,
    {
        bytes.set(offset + k, img[k]);
        k = k + 1;
        assert(bytes@ =~= b0.take(offset as int) + img@.take(k as int) + b0.skip(offset + k));
    }
    assert(img@.take(16) =~= img@);
}

/// The ELEMDESCs of parameters, one after another.
pub open spec fn params_image(ps: Seq<super::typelib::ParamDesc>) -> Seq<u8>
    decreases ps.len(),
{
    if ps.len() == 0 {
        Seq::empty()
    } else {
        params_image(ps.drop_last()) + elemdesc_image(ps.last().vt, ps.last().flags as u16)
    }
}

pub proof fn lemma_params_image_len(ps: Seq<super::typelib::ParamDesc>)
    ensures
        params_image(ps).len() == 16 * ps.len(),
    decreases ps.len(),
{
    if ps.len() > 0 {
        lemma_params_image_len(ps.drop_last());
    }
}

/// The ELEMDESC array of a function's parameters.
pub fn params_bytes(f: &FuncDesc) -> (r: Vec<u8>)
    requires
        f.params@.len() < 0x1000_0000,
    ensures
        r@ == params_image(f.params@),
{
    let n = f.params.len();
    let mut v: Vec<u8> = Vec::new();
    push_zeros(&mut v, n * 16);
    let mut i: usize = 0;
    while i < n
        invariant
            n == f.params@.len(),
            n < 0x1000_0000,
            i <= n,
            v@ == params_image(f.params@.take(i as int)) + zeros((16 * (n - i)) as nat),
        decreases n - i,
    {
        proof {
            lemma_params_image_len(f.params@.take(i as int));
        }
        let p = f.params[i];
        write_elemdesc(&mut v, i * 16, p.vt, p.flags as u16);
        proof {
            let t = f.params@.take(i + 1);
            assert(t.drop_last() =~= f.params@.take(i as int));
            assert(t.last() == p);
            assert(v@ =~= params_image(t) + zeros((16 * (n - i - 1)) as nat));
        }
        i = i + 1;
    }
    assert(f.params@.take(n as int) =~= f.params@);
    assert(v@ =~= params_image(f.params@));
    v
}

/// A FUNCDESC: the member id, the parameters' ELEMDESCs at `params`, a
/// virtual function of the given kind and calling convention, the count of
/// parameters, none optional, the vtable offset, and the return type.
pub open spec fn func_desc_image(f: FuncDesc, params: u32) -> Seq<u8> {
    bytes32(f.memid) + bytes32(0) + bytes32(params) + bytes32(0) + bytes32(f.invkind as u32)
        + bytes32(f.callconv as u32) + bytes16(f.params@.len() as u16) + bytes16(0)
        + bytes16(f.vtable_offset) + bytes16(0) + elemdesc_image(f.ret_vt, 0) + zeros(4)
}

pub fn func_desc_bytes(f: &FuncDesc, params: u32) -> (r: Vec<u8>)
    ensures
        r@ == func_desc_image(*f, params),
        r@.len() == 0x34,
{
    let mut v: Vec<u8> = Vec::new();
    push_u32(&mut v, f.memid);
    push_u32(&mut v, 0);
    push_u32(&mut v, params);
    push_u32(&mut v, 0);
    push_u32(&mut v, f.invkind as u32);
    push_u32(&mut v, f.callconv as u32);
    push_u16(&mut v, f.params.len() as u16);
    push_u16(&mut v, 0);
    push_u16(&mut v, f.vtable_offset);
    push_u16(&mut v, 0);
    let ghost before = v@;
    push_zeros(&mut v, 16);
    write_elemdesc(&mut v, 32, f.ret_vt, 0);
    assert(v@ =~= before + elemdesc_image(f.ret_vt, 0));
    push_zeros(&mut v, 4);
    v
}

/// Whether the bytes `img` lie in memory from `addr`.
pub open spec fn holds_bytes(vm: &Vm, addr: int, img: Seq<u8>) -> bool {
    &&& in_range(vm, addr, img.len() as int)
    &&& crate::vm::mem_bytes(vm, addr, img.len() as int) == img
}

/// `b` is `a` with the FUNCDESC of `f` allocated and its address `v` (0
/// where the heap is full) stored at `out`.
pub open spec fn func_desc_handed_out(a: &Vm, b: &Vm, out: u32, f: FuncDesc) -> bool {
    exists|g: Vm, v: u32, pp: u32|
        #![trigger store(a.base, g.memory@, out as int, bytes32(v)), func_desc_image(f, pp)]
    {
        &&& heap_grown(a, &g)
        &&& same_but_heap(a, &g)
        &&& b.memory@ == store(a.base, g.memory@, out as int, bytes32(v))
        &&& same_but_memory(&g, b)
        &&& (v != 0 ==> holds_bytes(&g, v as int, func_desc_image(f, pp)))
        &&& (pp != 0 ==> holds_bytes(&g, pp as int, params_image(f.params@)))
        &&& (f.params@.len() == 0 ==> pp == 0)
    }
}

/// Allocates a block of bytes, giving 0 where the heap is full.
fn alloc_or0(vm: &mut Vm, bytes: &Vec<u8>) -> (r: u32)
    ensures
        same_but_heap(old(vm), final(vm)),
        heap_grown(old(vm), final(vm)),
        r != 0 ==> holds_bytes(final(vm), r as int, bytes@) && r + bytes@.len() <= final(vm).heap_cursor,
        match alloc_at(old(vm), bytes@.len() as int, 4) {
            Some(p) => r == p && allocated(old(vm), final(vm), p, bytes@),
            None => r == 0 && final(vm).memory@ == old(vm).memory@
                && final(vm).heap_cursor == old(vm).heap_cursor,
        },
{
    let ghost a = *vm;
    match vm.alloc_bytes(bytes.as_slice(), 4) {
        Ok(p) => {
            proof {
                lemma_allocated_grows(&a, &*vm, p as int, bytes@, 4);
                let img = block_image(bytes@);
                assert(crate::vm::mem_bytes(&*vm, p as int, bytes@.len() as int) =~= bytes@);
            }
            p
        },
        Err(_) => 0,
    }
}

/// `ITypeInfo::GetFuncDesc([this,] index, out)`: allocates the FUNCDESC of
/// the function at `index` (with its parameters' ELEMDESCs) and stores its
/// address at `out` (0 where the heap is full). `E_NOTIMPL` where `this`
/// stands for no type info; `E_INVALIDARG` for a null `out` (nothing
/// stored) or an index past the functions (0 stored).
pub fn typeinfo_get_func_desc(vm: &mut Vm, stack_ptr: u32) -> (r: u32)
    ensures
        match typeinfo_call(old(vm), stack_ptr) {
            None => r == E_NOTIMPL && *final(vm) == *old(vm),
            Some((_, id, thiscall)) => {
                let index = targ(old(vm), stack_ptr, thiscall, 0);
                let out = targ(old(vm), stack_ptr, thiscall, 1);
                let info = old(vm).com.typeinfo_of(id).unwrap();
                if out == 0 {
                    r == E_INVALIDARG && *final(vm) == *old(vm)
                } else if index >= info.funcs@.len() {
                    r == E_INVALIDARG && stored_u32(old(vm), final(vm), out, 0)
                } else {
                    r == S_OK && func_desc_handed_out(old(vm), final(vm), out, info.funcs@[index as int])
                }
            },
        },
{
    let (_, info_id, thiscall) = match resolve_typeinfo_info(vm, stack_ptr) {
        Some(t) => t,
        None => return E_NOTIMPL,
    };
    let (index, out_ptr) = if thiscall {
        (vm.arg(stack_ptr, 0), vm.arg(stack_ptr, 1))
    } else {
        (vm.arg(stack_ptr, 1), vm.arg(stack_ptr, 2))
    };
    let index = index as usize;
    if out_ptr == 0 {
        return E_INVALIDARG;
    }
    let ghost a = *vm;
    let (pbytes, has_params) = match vm.com.get_typeinfo(info_id) {
        Some(info) => {
            if index >= info.funcs.len() {
                let _ = vm.write_u32(out_ptr, 0);
                return E_INVALIDARG;
            }
            let f = &info.funcs[index];
            if f.params.len() >= 0x1000_0000 {
                (Vec::new(), false)
            } else {
                (params_bytes(f), f.params.len() > 0)
            }
        },
        None => {
            let _ = vm.write_u32(out_ptr, 0);
            return E_NOTIMPL;
        },
    };
    let ghost f = a.com.typeinfo_of(info_id).unwrap().funcs@[index as int];
    let params_ptr = if has_params {
        alloc_or0(vm, &pbytes)
    } else {
        0
    };
    let ghost b = *vm;
    let fbytes = match vm.com.get_typeinfo(info_id) {
        Some(info) => func_desc_bytes(&info.funcs[index], params_ptr),
        None => {
            assert(false);
            Vec::new()
        },
    };
    let func_ptr = alloc_or0(vm, &fbytes);
    let ghost g = *vm;
    proof {
        lemma_heap_grown_trans(&a, &b, &g);
        if params_ptr != 0 {
            assert(holds_bytes(&b, params_ptr as int, params_image(f.params@)));
            assert(holds_bytes(&g, params_ptr as int, params_image(f.params@))) by {
                let n = pbytes@.len() as int;
                assert forall|k: int| 0 <= k < n implies crate::vm::mem_bytes(&g, params_ptr as int, n)[k]
                    == crate::vm::mem_bytes(&b, params_ptr as int, n)[k] by {
                    let o = params_ptr - b.base + k;
                    assert(g.memory@[o] == b.memory@[o]);
                }
                assert(crate::vm::mem_bytes(&g, params_ptr as int, n) =~= crate::vm::mem_bytes(&b, params_ptr as int, n));
            }
        }
    }
    let _ = vm.write_u32(out_ptr, func_ptr);
    proof {
        assert(vm.memory@ == store(a.base, g.memory@, out_ptr as int, bytes32(func_ptr)));
        assert(fbytes@ == func_desc_image(f, params_ptr));
    }
    S_OK
}

} // verus!
