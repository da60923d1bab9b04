//! CRT initialization and utility: routines with nothing to do, which return 0.

use vstd::prelude::*;

use super::DLL_NAME;
use crate::vm::imports::{imports_model, same_but_imports, stub_models, ImportModel};
use crate::vm::Vm;

verus! {

/// The exports, in the order they are registered.
pub const EXPORTS: [&'static str; 23] = [
    "__dllonexit",
    "_encoded_null",
    "_encode_pointer",
    "_decode_pointer",
    "_crt_atexit",
    "_crt_at_quick_exit",
    "_get_sbh_threshold",
    "_set_sbh_threshold",
    "_seh_longjmp_unwind",
    "_seh_longjmp_unwind4",
    "_local_unwind2",
    "_local_unwind4",
    "_global_unwind2",
    "_except_handler2",
    "_except_handler3",
    "_except_handler4",
    "__security_error_handler",
    "__security_init_cookie",
    "_CrtDbgReportV",
    "_CrtDbgReportWV",
    "__pxcptinfoptrs",
    "signal",
    "raise",
];

/// What `register` adds.
pub open spec fn imports() -> Seq<ImportModel> {
    stub_models(DLL_NAME@, EXPORTS@)
}

pub fn register(vm: &mut Vm)
    ensures
        same_but_imports(old(vm), final(vm)),
        imports_model(final(vm).imports@) == imports_model(old(vm).imports@) + imports(),
{
    vm.register_stubs(DLL_NAME, &EXPORTS);
}

} // verus!
