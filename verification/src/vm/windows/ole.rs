//! `OLE.dll`, the library behind the Perl `Win32::OLE` module: the machine
//! provides its exports as routines with nothing to do.

use vstd::prelude::*;

use crate::vm::imports::{imports_model, same_but_imports, stub_models};
use crate::vm::Vm;

verus! {

pub const DLL_NAME: &'static str = "OLE.dll";

/// The exports, in the order they are registered (the boot routine under
/// two names).
pub open spec fn export_names() -> Seq<&'static str> {
    seq!["CreatePerlObject", "SetSVFromVariant", "SetSVFromVariantEx", "SetVariantFromSV", "_boot_Win32__OLE", "boot_Win32__OLE"]
}

pub fn register(vm: &mut Vm)
    ensures
        same_but_imports(old(vm), final(vm)),
        imports_model(final(vm).imports@) == imports_model(old(vm).imports@) + stub_models(DLL_NAME@, export_names()),
{
    let names = ["CreatePerlObject", "SetSVFromVariant", "SetSVFromVariantEx", "SetVariantFromSV", "_boot_Win32__OLE", "boot_Win32__OLE"];
    assert(names@ =~= export_names());
    vm.register_stubs(DLL_NAME, &names);
}

} // verus!
