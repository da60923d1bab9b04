//! Memory management: routines with nothing to do, which return 0.

use vstd::prelude::*;

use super::DLL_NAME;
use crate::vm::imports::{imports_model, same_but_imports, stub_models, ImportModel};
use crate::vm::Vm;

verus! {

/// Standard, aligned and heap allocation, and the new handlers.
pub const ALLOCATION: [&'static str; 27] = [
    "malloc",
    "calloc",
    "realloc",
    "free",
    "_aligned_malloc",
    "_aligned_realloc",
    "_aligned_recalloc",
    "_aligned_free",
    "_aligned_msize",
    "_aligned_offset_malloc",
    "_aligned_offset_realloc",
    "_aligned_offset_recalloc",
    "_msize",
    "_expand",
    "_heapchk",
    "_heapmin",
    "_heapset",
    "_heapwalk",
    "_heapadd",
    "_heapused",
    "_recalloc",
    "_get_heap_handle",
    "__sbh_heap_init",
    "_query_new_handler",
    "_query_new_mode",
    "_set_new_handler",
    "_set_new_mode",
];

/// The debug heap, C++ new and delete, and internal allocation.
pub const DEBUG_AND_INTERNAL: [&'static str; 37] = [
    "_CrtDbgBreak",
    "_CrtDbgReport",
    "_CrtDbgReportW",
    "_CrtSetAllocHook",
    "_CrtSetBreakAlloc",
    "_CrtSetDbgFlag",
    "_CrtSetDumpClient",
    "_CrtSetReportFile",
    "_CrtSetReportHook",
    "_CrtSetReportHook2",
    "_CrtSetReportMode",
    "_CrtMemCheckpoint",
    "_CrtMemDifference",
    "_CrtMemDumpAllObjectsSince",
    "_CrtMemDumpStatistics",
    "_CrtIsValidHeapPointer",
    "_CrtIsValidPointer",
    "_CrtCheckMemory",
    "_CrtDumpMemoryLeaks",
    "??2@YAPAXI@Z",
    "??2@YAPAXIHPBDH@Z",
    "??3@YAXPAX@Z",
    "??_U@YAPAXI@Z",
    "??_U@YAPAXIHPBDH@Z",
    "??_V@YAXPAX@Z",
    "_nh_malloc",
    "_nh_malloc_dbg",
    "_heap_alloc",
    "_heap_realloc",
    "_heap_free",
    "_callnewh",
    "_lock",
    "_unlock",
    "_purecall",
    "_onexit",
    "_initterm",
    "_initterm_e",
];

/// What `register` adds: the groups above, in order.
pub open spec fn imports() -> Seq<ImportModel> {
    stub_models(DLL_NAME@, ALLOCATION@)
        + stub_models(DLL_NAME@, DEBUG_AND_INTERNAL@)
}

pub fn register(vm: &mut Vm)
    ensures
        same_but_imports(old(vm), final(vm)),
        imports_model(final(vm).imports@) == imports_model(old(vm).imports@) + imports(),
{
    let ghost start = imports_model(vm.imports@);
    vm.register_stubs(DLL_NAME, &ALLOCATION);
    vm.register_stubs(DLL_NAME, &DEBUG_AND_INTERNAL);
    assert(imports_model(vm.imports@) =~= start + imports());
}

} // verus!
