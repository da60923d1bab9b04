//! SAFEARRAY routines: the machine creates no arrays.

use vstd::prelude::*;

use super::bstr::unchanged;
use super::constants::S_OK;
use crate::vm::Vm;

verus! {

/// What `safe_array_create` returns (`r`) and leaves (`post`) on the machine `pre`.
pub open spec fn safe_array_create_effect(pre: &Vm, post: &Vm, stack_ptr: u32, r: u32) -> bool {
    &&& r == 0
    &&& unchanged(pre, post)
}

/// `SafeArrayCreate`: returns a null array.
pub fn safe_array_create(vm: &mut Vm, stack_ptr: u32) -> (r: u32)
    ensures
        safe_array_create_effect(old(vm), final(vm), stack_ptr, r),
{
    0
}

/// What `safe_array_access_data` returns (`r`) and leaves (`post`) on the machine `pre`.
pub open spec fn safe_array_access_data_effect(pre: &Vm, post: &Vm, stack_ptr: u32, r: u32) -> bool {
    &&& r == S_OK
    &&& unchanged(pre, post)
}

/// `SafeArrayAccessData`: succeeds with nothing to lock.
pub fn safe_array_access_data(vm: &mut Vm, stack_ptr: u32) -> (r: u32)
    ensures
        safe_array_access_data_effect(old(vm), final(vm), stack_ptr, r),
{
    S_OK
}

/// What `safe_array_unaccess_data` returns (`r`) and leaves (`post`) on the machine `pre`.
pub open spec fn safe_array_unaccess_data_effect(pre: &Vm, post: &Vm, stack_ptr: u32, r: u32) -> bool {
    &&& r == S_OK
    &&& unchanged(pre, post)
}

/// `SafeArrayUnaccessData`: succeeds with nothing to unlock.
pub fn safe_array_unaccess_data(vm: &mut Vm, stack_ptr: u32) -> (r: u32)
    ensures
        safe_array_unaccess_data_effect(old(vm), final(vm), stack_ptr, r),
{
    S_OK
}

} // verus!
