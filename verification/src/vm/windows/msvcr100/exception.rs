//! Exception handling: routines with nothing to do, which return 0.

use vstd::prelude::*;

use super::DLL_NAME;
use crate::vm::imports::{imports_model, same_but_imports, stub_models, ImportModel};
use crate::vm::Vm;

verus! {

/// C++ exception handling.
pub const EH: [&'static str; 36] = [
    "_CxxThrowException",
    "__CxxFrameHandler",
    "__CxxFrameHandler2",
    "__CxxFrameHandler3",
    "__CxxCallUnwindDtor",
    "__CxxCallUnwindDelDtor",
    "__CxxCallUnwindStdDelDtor",
    "__CxxCallUnwindVecDtor",
    "__CxxDetectRethrow",
    "__CxxExceptionFilter",
    "__CxxLongjmpUnwind",
    "__CxxQueryExceptionSize",
    "__CxxRegisterExceptionObject",
    "__CxxUnregisterExceptionObject",
    "__DestructExceptionObject",
    "_IsExceptionObjectToBeDestroyed",
    "__FrameUnwindFilter",
    "_XcptFilter",
    "__CppXcptFilter",
    "_EH_prolog",
    "_CreateFrameInfo",
    "_FindAndUnlinkFrame",
    "__AdjustPointer",
    "__BuildCatchObject",
    "__BuildCatchObjectHelper",
    "__TypeMatch",
    "_NLG_Dispatch2",
    "_NLG_Return",
    "_NLG_Return2",
    "_abnormal_termination",
    "longjmp",
    "_setjmp",
    "_setjmp3",
    "__RTCastToVoid",
    "__RTDynamicCast",
    "__RTtypeid",
];

/// The exception and type information classes.
pub const CLASSES: [&'static str; 38] = [
    "??0exception@std@@QAE@XZ",
    "??0exception@std@@QAE@ABQBD@Z",
    "??0exception@std@@QAE@ABQBDH@Z",
    "??0exception@std@@QAE@ABV01@@Z",
    "??1exception@std@@UAE@XZ",
    "?what@exception@std@@UBEPBDXZ",
    "?_Copy_str@exception@std@@AAEXPBD@Z",
    "??4exception@std@@QAEAAV01@ABV01@@Z",
    "??_7exception@std@@6B@",
    "??_7exception@@6B@",
    "??0bad_cast@std@@QAE@PBD@Z",
    "??0bad_cast@std@@AAE@PBQBD@Z",
    "??0bad_cast@std@@QAE@ABV01@@Z",
    "??1bad_cast@std@@UAE@XZ",
    "??4bad_cast@std@@QAEAAV01@ABV01@@Z",
    "??_Fbad_cast@std@@QAEXXZ",
    "??_7bad_cast@std@@6B@",
    "??0bad_typeid@std@@QAE@PBD@Z",
    "??0bad_typeid@std@@QAE@ABV01@@Z",
    "??1bad_typeid@std@@UAE@XZ",
    "??4bad_typeid@std@@QAEAAV01@ABV01@@Z",
    "??_Fbad_typeid@std@@QAEXXZ",
    "??_7bad_typeid@std@@6B@",
    "??0__non_rtti_object@std@@QAE@PBD@Z",
    "??0__non_rtti_object@std@@QAE@ABV01@@Z",
    "??1__non_rtti_object@std@@UAE@XZ",
    "??4__non_rtti_object@std@@QAEAAV01@ABV01@@Z",
    "??_7__non_rtti_object@std@@6B@",
    "??1type_info@@UAE@XZ",
    "?name@type_info@@QBEPBDPAU__type_info_node@@@Z",
    "?raw_name@type_info@@QBEPBDXZ",
    "??8type_info@@QBE_NABV0@@Z",
    "??9type_info@@QBE_NABV0@@Z",
    "?before@type_info@@QBEHABV1@@Z",
    "?_Name_base@type_info@@CAPBDPBV1@PAU__type_info_node@@@Z",
    "?_Name_base_internal@type_info@@CAPBDPBV1@PAU__type_info_node@@@Z",
    "__clean_type_info_names_internal",
    "__uncaught_exception",
];

/// The Concurrency Runtime exceptions.
pub const CONCURRENCY: [&'static str; 46] = [
    "??0bad_target@Concurrency@@QAE@PBD@Z",
    "??0bad_target@Concurrency@@QAE@XZ",
    "??0context_self_unblock@Concurrency@@QAE@PBD@Z",
    "??0context_self_unblock@Concurrency@@QAE@XZ",
    "??0context_unblock_unbalanced@Concurrency@@QAE@PBD@Z",
    "??0context_unblock_unbalanced@Concurrency@@QAE@XZ",
    "??0default_scheduler_exists@Concurrency@@QAE@PBD@Z",
    "??0default_scheduler_exists@Concurrency@@QAE@XZ",
    "??0improper_lock@Concurrency@@QAE@PBD@Z",
    "??0improper_lock@Concurrency@@QAE@XZ",
    "??0improper_scheduler_attach@Concurrency@@QAE@PBD@Z",
    "??0improper_scheduler_attach@Concurrency@@QAE@XZ",
    "??0improper_scheduler_detach@Concurrency@@QAE@PBD@Z",
    "??0improper_scheduler_detach@Concurrency@@QAE@XZ",
    "??0improper_scheduler_reference@Concurrency@@QAE@PBD@Z",
    "??0improper_scheduler_reference@Concurrency@@QAE@XZ",
    "??0invalid_link_target@Concurrency@@QAE@PBD@Z",
    "??0invalid_link_target@Concurrency@@QAE@XZ",
    "??0invalid_multiple_scheduling@Concurrency@@QAE@PBD@Z",
    "??0invalid_multiple_scheduling@Concurrency@@QAE@XZ",
    "??0invalid_operation@Concurrency@@QAE@PBD@Z",
    "??0invalid_operation@Concurrency@@QAE@XZ",
    "??0invalid_oversubscribe_operation@Concurrency@@QAE@PBD@Z",
    "??0invalid_oversubscribe_operation@Concurrency@@QAE@XZ",
    "??0invalid_scheduler_policy_key@Concurrency@@QAE@PBD@Z",
    "??0invalid_scheduler_policy_key@Concurrency@@QAE@XZ",
    "??0invalid_scheduler_policy_thread_specification@Concurrency@@QAE@PBD@Z",
    "??0invalid_scheduler_policy_thread_specification@Concurrency@@QAE@XZ",
    "??0invalid_scheduler_policy_value@Concurrency@@QAE@PBD@Z",
    "??0invalid_scheduler_policy_value@Concurrency@@QAE@XZ",
    "??0message_not_found@Concurrency@@QAE@PBD@Z",
    "??0message_not_found@Concurrency@@QAE@XZ",
    "??0missing_wait@Concurrency@@QAE@PBD@Z",
    "??0missing_wait@Concurrency@@QAE@XZ",
    "??0nested_scheduler_missing_detach@Concurrency@@QAE@PBD@Z",
    "??0nested_scheduler_missing_detach@Concurrency@@QAE@XZ",
    "??0operation_timed_out@Concurrency@@QAE@PBD@Z",
    "??0operation_timed_out@Concurrency@@QAE@XZ",
    "??0scheduler_not_attached@Concurrency@@QAE@PBD@Z",
    "??0scheduler_not_attached@Concurrency@@QAE@XZ",
    "??0scheduler_resource_allocation_error@Concurrency@@QAE@J@Z",
    "??0scheduler_resource_allocation_error@Concurrency@@QAE@PBDJ@Z",
    "??0task_canceled@details@Concurrency@@QAE@PBD@Z",
    "??0task_canceled@details@Concurrency@@QAE@XZ",
    "??0unsupported_os@Concurrency@@QAE@PBD@Z",
    "??0unsupported_os@Concurrency@@QAE@XZ",
];

/// What `register` adds: the groups above, in order.
pub open spec fn imports() -> Seq<ImportModel> {
    stub_models(DLL_NAME@, EH@)
        + stub_models(DLL_NAME@, CLASSES@)
        + stub_models(DLL_NAME@, CONCURRENCY@)
}

pub fn register(vm: &mut Vm)
    ensures
        same_but_imports(old(vm), final(vm)),
        imports_model(final(vm).imports@) == imports_model(old(vm).imports@) + imports(),
{
    let ghost start = imports_model(vm.imports@);
    vm.register_stubs(DLL_NAME, &EH);
    vm.register_stubs(DLL_NAME, &CLASSES);
    vm.register_stubs(DLL_NAME, &CONCURRENCY);
    assert(imports_model(vm.imports@) =~= start + imports());
}

} // verus!
