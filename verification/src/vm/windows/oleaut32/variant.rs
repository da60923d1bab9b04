//! VARIANTs: 16 bytes, the type tag in the first 16 bits and a 32-bit value
//! at offset 8.

use vstd::prelude::*;

use super::bstr::{bstr_text_or_empty, decodable, read_bstr};
use super::constants::{DISP_E_TYPEMISMATCH, E_INVALIDARG, S_OK, VARIANT_SIZE, VT_BSTR, VT_EMPTY, VT_I4, VT_UI4};
use super::convert::{parse_u32, parse_u32_text};
use crate::vm::{wrap_add, add32, apply_writes, arg, bytes16, bytes32, same_but_memory, store, u16_or0, u32_or0, Vm, VmError};

verus! {

/// The writes that store a VARIANT of type `vt` holding `value` at `dest`.
pub open spec fn variant_u32_parts(dest: u32, vt: u16, value: u32) -> Seq<(u32, Seq<u8>)> {
    seq![
        (dest, bytes16(vt)),
        (add32(dest, 2), bytes16(0)),
        (add32(dest, 4), bytes16(0)),
        (add32(dest, 6), bytes16(0)),
        (add32(dest, 8), bytes32(value)),
        (add32(dest, 12), bytes32(0)),
    ]
}

/// Stores a VARIANT of type `vt` holding `value`, field by field; stops at
/// the first field that does not lie in memory.
#[verifier::spinoff_prover]
#[verifier::rlimit(40)]
pub fn write_variant_u32(vm: &mut Vm, dest: u32, vt: u16, value: u32) -> (r: Result<(), VmError>)
    ensures
        same_but_memory(old(vm), final(vm)),
        ({
            let (ok, m) = apply_writes(old(vm).base, old(vm).memory@, variant_u32_parts(dest, vt, value));
            &&& final(vm).memory@ == m
            &&& (r is Ok <==> ok)
        }),
{
    let ghost parts = variant_u32_parts(dest, vt, value);
    let ghost b = vm.base;
    proof {
        reveal_with_fuel(apply_writes, 7);
        assert(parts.drop_first().drop_first().drop_first().drop_first().drop_first().drop_first() =~= Seq::<(u32, Seq<u8>)>::empty());
    }
    vm.write_u16(dest, vt)?;
    vm.write_u16(wrap_add(dest, 2), 0)?;
    vm.write_u16(wrap_add(dest, 4), 0)?;
    vm.write_u16(wrap_add(dest, 6), 0)?;
    vm.write_u32(wrap_add(dest, 8), value)?;
    vm.write_u32(wrap_add(dest, 12), 0)?;
    Ok(())
}

/// What `variant_init` returns (`r`) and leaves (`post`) on the machine `pre`.
pub open spec fn variant_init_effect(pre: &Vm, post: &Vm, stack_ptr: u32, r: u32) -> bool {
    &&& same_but_memory(pre, post)
    &&& ({
        let p = arg(pre, stack_ptr, 0);
        if p == 0 {
            r == E_INVALIDARG && post.memory@ == pre.memory@
        } else {
            r == S_OK && post.memory@ == store(pre.base, pre.memory@, p as int, Seq::new(16, |i: int| 0u8))
        }
    })
}

/// `VariantInit(ptr)`: zeroes the 16 bytes of a VARIANT (where they lie in
/// memory).
pub fn variant_init(vm: &mut Vm, stack_ptr: u32) -> (r: u32)
    ensures
        variant_init_effect(old(vm), final(vm), stack_ptr, r),
{
    let ptr = vm.arg(stack_ptr, 0);
    if ptr == 0 {
        return E_INVALIDARG;
    }
    let zeros = [0u8; VARIANT_SIZE];
    assert(zeros@ =~= Seq::new(16, |i: int| 0u8));
    let _ = vm.write_bytes(ptr, &zeros);
    S_OK
}

/// What `variant_clear` returns (`r`) and leaves (`post`) on the machine `pre`.
pub open spec fn variant_clear_effect(pre: &Vm, post: &Vm, stack_ptr: u32, r: u32) -> bool {
    &&& same_but_memory(pre, post)
    &&& ({
        let p = arg(pre, stack_ptr, 0);
        if p == 0 {
            r == E_INVALIDARG && post.memory@ == pre.memory@
        } else {
            r == S_OK && post.memory@ == store(pre.base, pre.memory@, p as int, Seq::new(16, |i: int| 0u8))
        }
    })
}

/// `VariantClear(ptr)`: as `VariantInit`.
pub fn variant_clear(vm: &mut Vm, stack_ptr: u32) -> (r: u32)
    ensures
        variant_clear_effect(old(vm), final(vm), stack_ptr, r),
{
    let ptr = vm.arg(stack_ptr, 0);
    if ptr == 0 {
        return E_INVALIDARG;
    }
    let zeros = [0u8; VARIANT_SIZE];
    assert(zeros@ =~= Seq::new(16, |i: int| 0u8));
    let _ = vm.write_bytes(ptr, &zeros);
    S_OK
}

/// The 32-bit value that `VariantChangeType` converts a source VARIANT of
/// type `src_vt` to type `vt` with, where it supports the pair: 4-byte
/// integers stay as they are, a BSTR is parsed (0 where it is no number).
pub open spec fn changed_value(vm: &Vm, src: u32, src_vt: u16, vt: u16) -> Option<u32> {
    if (src_vt == VT_I4 && vt == VT_I4) || (src_vt == VT_UI4 && vt == VT_UI4) {
        Some(u32_or0(vm, add32(src, 8) as int))
    } else if src_vt == VT_BSTR && (vt == VT_I4 || vt == VT_UI4) {
        match parse_u32(bstr_text_or_empty(vm, u32_or0(vm, add32(src, 8) as int))) {
            Some(v) => Some(v),
            None => Some(0),
        }
    } else {
        None
    }
}

/// What `variant_change_type` returns (`r`) and leaves (`post`) on the machine `pre`.
pub open spec fn variant_change_type_effect(pre: &Vm, post: &Vm, stack_ptr: u32, r: u32) -> bool {
    &&& same_but_memory(pre, post)
    &&& ({
        let dest = arg(pre, stack_ptr, 0);
        let src = arg(pre, stack_ptr, 1);
        let vt = arg(pre, stack_ptr, 3) as u16;
        if dest == 0 || src == 0 {
            r == E_INVALIDARG && post.memory@ == pre.memory@
        } else {
            match changed_value(pre, src, u16_or0(pre, src as int), vt) {
                None => r == DISP_E_TYPEMISMATCH && post.memory@ == pre.memory@,
                Some(v) => {
                    let (ok, m) = apply_writes(pre.base, pre.memory@, variant_u32_parts(dest, vt, v));
                    post.memory@ == m && r == if ok { S_OK } else { DISP_E_TYPEMISMATCH }
                },
            }
        }
    })
}

/// `VariantChangeType(dest, src, flags, vt)`.
pub fn variant_change_type(vm: &mut Vm, stack_ptr: u32) -> (r: u32)
    requires
        decodable(old(vm)),
    ensures
        variant_change_type_effect(old(vm), final(vm), stack_ptr, r),
{
    let dest = vm.arg(stack_ptr, 0);
    let src = vm.arg(stack_ptr, 1);
    let vt = vm.arg(stack_ptr, 3) as u16;
    if dest == 0 || src == 0 {
        return E_INVALIDARG;
    }
    let src_vt = vm.read_u16_or0(src);
    let value = if (src_vt == VT_I4 && vt == VT_I4) || (src_vt == VT_UI4 && vt == VT_UI4) {
        vm.read_u32_or0(wrap_add(src, 8))
    } else if src_vt == VT_BSTR && (vt == VT_I4 || vt == VT_UI4) {
        let ptr = vm.read_u32_or0(wrap_add(src, 8));
        let text = match read_bstr(vm, ptr) {
            Ok(t) => t,
            Err(_) => String::new(),
        };
        match parse_u32_text(&text) {
            Some(v) => v,
            None => 0,
        }
    } else {
        return DISP_E_TYPEMISMATCH;
    };
    match write_variant_u32(vm, dest, vt, value) {
        Ok(()) => S_OK,
        Err(_) => DISP_E_TYPEMISMATCH,
    }
}

} // verus!
