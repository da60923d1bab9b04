//! Property frames and fonts, which the machine does not provide.

use vstd::prelude::*;

use super::bstr::unchanged;
use super::constants::E_NOTIMPL;
use crate::vm::Vm;

verus! {

/// What `ole_create_property_frame` returns (`r`) and leaves (`post`) on the machine `pre`.
pub open spec fn ole_create_property_frame_effect(pre: &Vm, post: &Vm, stack_ptr: u32, r: u32) -> bool {
    &&& r == E_NOTIMPL
    &&& unchanged(pre, post)
}

/// `OleCreatePropertyFrame`: not implemented.
pub fn ole_create_property_frame(vm: &mut Vm, stack_ptr: u32) -> (r: u32)
    ensures
        ole_create_property_frame_effect(old(vm), final(vm), stack_ptr, r),
{
    E_NOTIMPL
}

/// What `ole_create_font_indirect` returns (`r`) and leaves (`post`) on the machine `pre`.
pub open spec fn ole_create_font_indirect_effect(pre: &Vm, post: &Vm, stack_ptr: u32, r: u32) -> bool {
    &&& r == E_NOTIMPL
    &&& unchanged(pre, post)
}

/// `OleCreateFontIndirect`: not implemented.
pub fn ole_create_font_indirect(vm: &mut Vm, stack_ptr: u32) -> (r: u32)
    ensures
        ole_create_font_indirect_effect(old(vm), final(vm), stack_ptr, r),
{
    E_NOTIMPL
}

} // verus!
