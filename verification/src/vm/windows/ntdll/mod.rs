//! NTDLL: the routines that images import from `ntdll.dll`.

pub mod peb;
pub mod slist;

use vstd::prelude::*;

use crate::vm::imports::{imports_model, same_but_imports};
use crate::vm::Vm;

verus! {

pub const DLL_NAME: &'static str = "ntdll.dll";

/// Registers the NTDLL routines: the SList routines, then the PEB ones.
pub fn register(vm: &mut Vm)
    ensures
        same_but_imports(old(vm), final(vm)),
        imports_model(final(vm).imports@) == imports_model(old(vm).imports@) + slist::imports() + peb::imports(),
{
    slist::register(vm);
    peb::register(vm);
}

} // verus!
