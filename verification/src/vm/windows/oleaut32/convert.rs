//! Conversions used by automation calls.

use vstd::prelude::*;

use super::bstr::{alloc_bstr, bstr_image, bstr_text_or_empty, decodable, read_bstr, units_bytes};
use super::constants::{DISP_E_TYPEMISMATCH, E_INVALIDARG, S_OK};
use crate::num::{parse_radix, str_radix, utf16_encode};
use crate::text::{string_from, trim, trimmed, chars_of};
use crate::vm::{alloc_at, arg, block_image, bytes32, same_but_heap, same_but_memory, store, written, Vm, BLOCK_HEADER};

verus! {

/// The unsigned 32-bit number a text holds after trimming whitespace
/// (`str::parse::<u32>`).
pub open spec fn parse_u32(t: Seq<char>) -> Option<u32> {
    match str_radix(trim(t), 10, u32::MAX as nat) {
        Some(v) => Some(v as u32),
        None => None,
    }
}

/// The trimmed text parsed as an unsigned 32-bit number.
pub fn parse_u32_text(s: &String) -> (r: Option<u32>)
    ensures
        r == parse_u32(s@),
{
    let cs = chars_of(s.as_str());
    let t = trimmed(cs.as_slice());
    parse_radix(t.as_slice(), 10, u32::MAX)
}

/// What `var_ui4_from_str` returns (`r`) and leaves (`post`) on the machine `pre`.
pub open spec fn var_ui4_from_str_effect(pre: &Vm, post: &Vm, stack_ptr: u32, r: u32) -> bool {
    &&& same_but_memory(pre, post)
    &&& ({
        let s = arg(pre, stack_ptr, 0);
        let out = arg(pre, stack_ptr, 3);
        if out == 0 {
            r == E_INVALIDARG && post.memory@ == pre.memory@
        } else {
            match parse_u32(bstr_text_or_empty(pre, s)) {
                Some(v) => r == S_OK
                    && post.memory@ == store(pre.base, pre.memory@, out as int, bytes32(v)),
                None => r == DISP_E_TYPEMISMATCH && post.memory@ == pre.memory@,
            }
        }
    })
}

/// `VarUI4FromStr(str, lcid, flags, out)`: parses the BSTR (an unreadable
/// one as the empty text) and stores the number at `out`.
pub fn var_ui4_from_str(vm: &mut Vm, stack_ptr: u32) -> (r: u32)
    requires
        decodable(old(vm)),
    ensures
        var_ui4_from_str_effect(old(vm), final(vm), stack_ptr, r),
{
    let str_ptr = vm.arg(stack_ptr, 0);
    let out_ptr = vm.arg(stack_ptr, 3);
    if out_ptr == 0 {
        return E_INVALIDARG;
    }
    let text = match read_bstr(vm, str_ptr) {
        Ok(t) => t,
        Err(_) => String::new(),
    };
    match parse_u32_text(&text) {
        Some(value) => {
            let _ = vm.write_u32(out_ptr, value);
            S_OK
        },
        None => DISP_E_TYPEMISMATCH,
    }
}

/// What `var_bstr_cat` returns (`r`) and leaves (`post`) on the machine `pre`.
pub open spec fn var_bstr_cat_effect(pre: &Vm, post: &Vm, stack_ptr: u32, r: u32) -> bool {
    &&& same_but_heap(pre, post)
    &&& ({
        let out = arg(pre, stack_ptr, 2);
        let text = bstr_text_or_empty(pre, arg(pre, stack_ptr, 0))
            + bstr_text_or_empty(pre, arg(pre, stack_ptr, 1));
        let image = bstr_image(units_bytes(utf16_encode(text)));
        let b = pre.base;
        if out == 0 {
            r == E_INVALIDARG && post.memory@ == pre.memory@
                && post.heap_cursor == pre.heap_cursor
        } else {
            r == S_OK && match alloc_at(pre, image.len() as int, 4) {
                Some(p) => post.heap_cursor == p + image.len()
                    && post.memory@ == store(b, written(pre, p - BLOCK_HEADER, block_image(image)), out as int, bytes32((p + 4) as u32)),
                None => post.heap_cursor == pre.heap_cursor
                    && post.memory@ == store(b, pre.memory@, out as int, bytes32(0)),
            }
        }
    })
}

/// `VarBstrCat(left, right, out)`: stores at `out` a new BSTR holding the two
/// texts (unreadable ones empty), or 0 where the heap is full.
pub fn var_bstr_cat(vm: &mut Vm, stack_ptr: u32) -> (r: u32)
    requires
        decodable(old(vm)),
    ensures
        var_bstr_cat_effect(old(vm), final(vm), stack_ptr, r),
{
    let left_ptr = vm.arg(stack_ptr, 0);
    let right_ptr = vm.arg(stack_ptr, 1);
    let out_ptr = vm.arg(stack_ptr, 2);
    if out_ptr == 0 {
        return E_INVALIDARG;
    }
    let left = match read_bstr(vm, left_ptr) {
        Ok(t) => t,
        Err(_) => String::new(),
    };
    let right = match read_bstr(vm, right_ptr) {
        Ok(t) => t,
        Err(_) => String::new(),
    };
    let mut cs = chars_of(left.as_str());
    let rs = chars_of(right.as_str());
    let mut i: usize = 0;
    let ghost l = cs@;
    while i < rs.len()
        invariant
            i <= rs@.len(),
            cs@ == l + rs@.take(i as int),
        decreases rs.len() - i,
    {
        cs.push(rs[i]);
        i = i + 1;
        assert(cs@ =~= l + rs@.take(i as int));
    }
    assert(rs@.take(rs@.len() as int) =~= rs@);
    let combined = string_from(cs.as_slice());
    let bstr = match alloc_bstr(vm, combined.as_str()) {
        Ok(p) => p,
        Err(_) => 0,
    };
    let _ = vm.write_u32(out_ptr, bstr);
    S_OK
}

} // verus!
