//! The NTDLL routine that hands out the process environment block.

use vstd::prelude::*;

use super::DLL_NAME;
use crate::vm::imports::{arg_bytes, imports_model, named, same_but_imports, stdcall_args, CallConv, ImportModel, Routine};
use crate::vm::Vm;

verus! {

/// What `register` adds: `RtlGetCurrentPeb`, which has no process block to
/// hand out and returns 0.
pub open spec fn imports() -> Seq<ImportModel> {
    seq![named(DLL_NAME@, "RtlGetCurrentPeb"@, CallConv::Stdcall(arg_bytes(0) as u32), Routine::Stub(0))]
}

pub fn register(vm: &mut Vm)
    ensures
        same_but_imports(old(vm), final(vm)),
        imports_model(final(vm).imports@) == imports_model(old(vm).imports@) + imports(),
{
    vm.register_import_stdcall(DLL_NAME, "RtlGetCurrentPeb", stdcall_args(0), Routine::Stub(0));
    assert(imports_model(vm.imports@) =~= imports_model(old(vm).imports@) + imports());
}

} // verus!
