//! The NTDLL singly linked list routines.

use vstd::prelude::*;

use super::DLL_NAME;
use crate::vm::imports::{arg_bytes, imports_model, named, same_but_imports, stdcall_args, CallConv, ImportModel, Routine};
use crate::vm::{wrap_add, add32, arg, bytes32, same_but_memory, store, Vm};

verus! {

/// What `register` adds.
pub open spec fn imports() -> Seq<ImportModel> {
    seq![named(DLL_NAME@, "RtlInitializeSListHead"@, CallConv::Stdcall(arg_bytes(1) as u32), Routine::RtlInitializeSListHead)]
}

pub fn register(vm: &mut Vm)
    ensures
        same_but_imports(old(vm), final(vm)),
        imports_model(final(vm).imports@) == imports_model(old(vm).imports@) + imports(),
{
    vm.register_import_stdcall(DLL_NAME, "RtlInitializeSListHead", stdcall_args(1), Routine::RtlInitializeSListHead);
    assert(imports_model(vm.imports@) =~= imports_model(old(vm).imports@) + imports());
}

/// What `rtl_initialize_slist_head` returns (`r`) and leaves (`post`) on the machine `pre`.
pub open spec fn rtl_initialize_slist_head_effect(pre: &Vm, post: &Vm, stack_ptr: u32, r: u32) -> bool {
    &&& r == 0
    &&& same_but_memory(pre, post)
    &&& ({
        let h = arg(pre, stack_ptr, 0);
        let b = pre.base;
        post.memory@ == if h == 0 {
            pre.memory@
        } else {
            store(b, store(b, pre.memory@, h as int, bytes32(0)), add32(h, 4) as int, bytes32(0))
        }
    })
}

/// `RtlInitializeSListHead(header)`: clears the two words of a non-null
/// list header (each where it lies in memory); returns 0.
pub fn rtl_initialize_slist_head(vm: &mut Vm, stack_ptr: u32) -> (r: u32)
    ensures
        rtl_initialize_slist_head_effect(old(vm), final(vm), stack_ptr, r),
{
    let header = vm.arg(stack_ptr, 0);
    if header != 0 {
        let _ = vm.write_u32(header, 0);
        let _ = vm.write_u32(wrap_add(header, 4), 0);
    }
    0
}

} // verus!
