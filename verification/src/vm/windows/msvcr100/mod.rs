//! MSVCR100.dll, the Visual C++ 2010 runtime: the machine provides its
//! exports as routines with nothing to do, grouped by area.

pub mod concurrency;
pub mod crt;
pub mod exception;
pub mod io;
pub mod locale;
pub mod math;
pub mod memory;
pub mod process;
pub mod stdlib;
pub mod string;
pub mod time;

use vstd::prelude::*;

use crate::vm::imports::{imports_model, same_but_imports, ImportModel};
use crate::vm::Vm;

verus! {

pub const DLL_NAME: &'static str = "MSVCR100.dll";

/// What `register` adds, area by area.
pub open spec fn imports() -> Seq<ImportModel> {
    concurrency::imports() + crt::imports() + exception::imports() + io::imports() + locale::imports() + math::imports() + memory::imports() + process::imports() + stdlib::imports() + string::imports() + time::imports()
}

pub fn register(vm: &mut Vm)
    ensures
        same_but_imports(old(vm), final(vm)),
        imports_model(final(vm).imports@) == imports_model(old(vm).imports@) + imports(),
{
    let ghost start = imports_model(vm.imports@);
    concurrency::register(vm);
    crt::register(vm);
    exception::register(vm);
    io::register(vm);
    locale::register(vm);
    math::register(vm);
    memory::register(vm);
    process::register(vm);
    stdlib::register(vm);
    string::register(vm);
    time::register(vm);
    assert(imports_model(vm.imports@) =~= start + imports());
}

} // verus!
