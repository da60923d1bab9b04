//! Concurrency Runtime: routines with nothing to do, which return 0.

use vstd::prelude::*;

use super::DLL_NAME;
use crate::vm::imports::{imports_model, same_but_imports, stub_models, ImportModel};
use crate::vm::Vm;

verus! {

/// Allocation, contexts, schedulers and the public synchronisation objects.
pub const SCHEDULING: [&'static str; 49] = [
    "?Alloc@Concurrency@@YAPAXI@Z",
    "?Free@Concurrency@@YAXPAX@Z",
    "?Block@Context@Concurrency@@SAXXZ",
    "?CurrentContext@Context@Concurrency@@SAPAV12@XZ",
    "?Id@Context@Concurrency@@SAIXZ",
    "?IsCurrentTaskCollectionCanceling@Context@Concurrency@@SA_NXZ",
    "?Oversubscribe@Context@Concurrency@@SAX_N@Z",
    "?ScheduleGroupId@Context@Concurrency@@SAIXZ",
    "?VirtualProcessorId@Context@Concurrency@@SAIXZ",
    "?Yield@Context@Concurrency@@SAXXZ",
    "?Create@CurrentScheduler@Concurrency@@SAXABVSchedulerPolicy@2@@Z",
    "?Detach@CurrentScheduler@Concurrency@@SAXXZ",
    "?Get@CurrentScheduler@Concurrency@@SAPAVScheduler@2@XZ",
    "?GetNumberOfVirtualProcessors@CurrentScheduler@Concurrency@@SAIXZ",
    "?GetPolicy@CurrentScheduler@Concurrency@@SA?AVSchedulerPolicy@2@XZ",
    "?Id@CurrentScheduler@Concurrency@@SAIXZ",
    "?CreateScheduleGroup@CurrentScheduler@Concurrency@@SAPAVScheduleGroup@2@XZ",
    "?RegisterShutdownEvent@CurrentScheduler@Concurrency@@SAXPAX@Z",
    "?ScheduleTask@CurrentScheduler@Concurrency@@SAXP6AXPAX@Z0@Z",
    "?Create@Scheduler@Concurrency@@SAPAV12@ABVSchedulerPolicy@2@@Z",
    "?SetDefaultSchedulerPolicy@Scheduler@Concurrency@@SAXABVSchedulerPolicy@2@@Z",
    "?ResetDefaultSchedulerPolicy@Scheduler@Concurrency@@SAXXZ",
    "??0SchedulerPolicy@Concurrency@@QAE@XZ",
    "??0SchedulerPolicy@Concurrency@@QAA@IZZ",
    "??0SchedulerPolicy@Concurrency@@QAE@ABV01@@Z",
    "??1SchedulerPolicy@Concurrency@@QAE@XZ",
    "??4SchedulerPolicy@Concurrency@@QAEAAV01@ABV01@@Z",
    "?GetPolicyValue@SchedulerPolicy@Concurrency@@QBEIW4PolicyElementKey@2@@Z",
    "?SetPolicyValue@SchedulerPolicy@Concurrency@@QAEIW4PolicyElementKey@2@I@Z",
    "?SetConcurrencyLimits@SchedulerPolicy@Concurrency@@QAEXII@Z",
    "??0critical_section@Concurrency@@QAE@XZ",
    "??1critical_section@Concurrency@@QAE@XZ",
    "?lock@critical_section@Concurrency@@QAEXXZ",
    "?try_lock@critical_section@Concurrency@@QAE_NXZ",
    "?unlock@critical_section@Concurrency@@QAEXXZ",
    "?native_handle@critical_section@Concurrency@@QAEAAV12@XZ",
    "??0reader_writer_lock@Concurrency@@QAE@XZ",
    "??1reader_writer_lock@Concurrency@@QAE@XZ",
    "?lock@reader_writer_lock@Concurrency@@QAEXXZ",
    "?lock_read@reader_writer_lock@Concurrency@@QAEXXZ",
    "?try_lock@reader_writer_lock@Concurrency@@QAE_NXZ",
    "?try_lock_read@reader_writer_lock@Concurrency@@QAE_NXZ",
    "?unlock@reader_writer_lock@Concurrency@@QAEXXZ",
    "??0event@Concurrency@@QAE@XZ",
    "??1event@Concurrency@@QAE@XZ",
    "?set@event@Concurrency@@QAEXXZ",
    "?reset@event@Concurrency@@QAEXXZ",
    "?wait@event@Concurrency@@QAEII@Z",
    "?wait_for_multiple@event@Concurrency@@SAIPAPAV12@I_NI@Z",
];

/// Spin locks, task collections and the internal locks.
pub const INTERNAL_LOCKS: [&'static str; 51] = [
    "??0_SpinLock@details@Concurrency@@QAE@ACJ@Z",
    "??1_SpinLock@details@Concurrency@@QAE@XZ",
    "?_Acquire@_SpinLock@details@Concurrency@@QAEXXZ",
    "?_TryAcquire@_SpinLock@details@Concurrency@@QAE_NXZ",
    "?_Release@_SpinLock@details@Concurrency@@QAEXXZ",
    "??0?$_SpinWait@$00@details@Concurrency@@QAE@P6AXXZ@Z",
    "??0?$_SpinWait@$0A@@details@Concurrency@@QAE@P6AXXZ@Z",
    "??_F?$_SpinWait@$00@details@Concurrency@@QAEXXZ",
    "??_F?$_SpinWait@$0A@@details@Concurrency@@QAEXXZ",
    "?_SpinOnce@?$_SpinWait@$00@details@Concurrency@@QAE_NXZ",
    "?_SpinOnce@?$_SpinWait@$0A@@details@Concurrency@@QAE_NXZ",
    "?_Reset@?$_SpinWait@$00@details@Concurrency@@IAEXXZ",
    "?_Reset@?$_SpinWait@$0A@@details@Concurrency@@IAEXXZ",
    "?_DoYield@?$_SpinWait@$00@details@Concurrency@@IAEXXZ",
    "?_DoYield@?$_SpinWait@$0A@@details@Concurrency@@IAEXXZ",
    "?_NumberOfSpins@?$_SpinWait@$00@details@Concurrency@@IAEKXZ",
    "?_NumberOfSpins@?$_SpinWait@$0A@@details@Concurrency@@IAEKXZ",
    "?_SetSpinCount@?$_SpinWait@$00@details@Concurrency@@QAEXI@Z",
    "?_SetSpinCount@?$_SpinWait@$0A@@details@Concurrency@@QAEXI@Z",
    "??4?$_SpinWait@$00@details@Concurrency@@QAEAAV012@ABV012@@Z",
    "??4?$_SpinWait@$0A@@details@Concurrency@@QAEAAV012@ABV012@@Z",
    "??0_TaskCollection@details@Concurrency@@QAE@XZ",
    "??1_TaskCollection@details@Concurrency@@QAE@XZ",
    "?_Cancel@_TaskCollection@details@Concurrency@@QAEXXZ",
    "?_IsCanceling@_TaskCollection@details@Concurrency@@QAE_NXZ",
    "?_RunAndWait@_TaskCollection@details@Concurrency@@QAG?AW4_TaskCollectionStatus@23@PAV_UnrealizedChore@23@@Z",
    "?_Schedule@_TaskCollection@details@Concurrency@@QAEXPAV_UnrealizedChore@23@@Z",
    "??0_StructuredTaskCollection@details@Concurrency@@QAE@XZ",
    "??1_StructuredTaskCollection@details@Concurrency@@QAE@XZ",
    "?_Abort@_StructuredTaskCollection@details@Concurrency@@AAEXXZ",
    "?_Cancel@_StructuredTaskCollection@details@Concurrency@@QAEXXZ",
    "?_IsCanceling@_StructuredTaskCollection@details@Concurrency@@QAE_NXZ",
    "?_RunAndWait@_StructuredTaskCollection@details@Concurrency@@QAG?AW4_TaskCollectionStatus@23@PAV_UnrealizedChore@23@@Z",
    "?_Schedule@_StructuredTaskCollection@details@Concurrency@@QAEXPAV_UnrealizedChore@23@@Z",
    "??0scoped_lock@critical_section@Concurrency@@QAE@AAV12@@Z",
    "??1scoped_lock@critical_section@Concurrency@@QAE@XZ",
    "??0scoped_lock@reader_writer_lock@Concurrency@@QAE@AAV12@@Z",
    "??1scoped_lock@reader_writer_lock@Concurrency@@QAE@XZ",
    "??0scoped_lock_read@reader_writer_lock@Concurrency@@QAE@AAV12@@Z",
    "??1scoped_lock_read@reader_writer_lock@Concurrency@@QAE@XZ",
    "??0_NonReentrantBlockingLock@details@Concurrency@@QAE@XZ",
    "??1_NonReentrantBlockingLock@details@Concurrency@@QAE@XZ",
    "?_Acquire@_NonReentrantBlockingLock@details@Concurrency@@QAEXXZ",
    "?_Release@_NonReentrantBlockingLock@details@Concurrency@@QAEXXZ",
    "??0_ReentrantBlockingLock@details@Concurrency@@QAE@XZ",
    "??1_ReentrantBlockingLock@details@Concurrency@@QAE@XZ",
    "?_Acquire@_ReentrantBlockingLock@details@Concurrency@@QAEXXZ",
    "?_Release@_ReentrantBlockingLock@details@Concurrency@@QAEXXZ",
    "??0_ReentrantLock@details@Concurrency@@QAE@XZ",
    "?_Acquire@_ReentrantLock@details@Concurrency@@QAEXXZ",
    "?_Release@_ReentrantLock@details@Concurrency@@QAEXXZ",
];

/// PPL locks, timers, utilities and debug hooks.
pub const PPL_AND_UTILITY: [&'static str; 34] = [
    "??0_NonReentrantPPLLock@details@Concurrency@@QAE@XZ",
    "?_Acquire@_NonReentrantPPLLock@details@Concurrency@@QAEXPAX@Z",
    "?_Release@_NonReentrantPPLLock@details@Concurrency@@QAEXXZ",
    "??0_Scoped_lock@_NonReentrantPPLLock@details@Concurrency@@QAE@AAV123@@Z",
    "??1_Scoped_lock@_NonReentrantPPLLock@details@Concurrency@@QAE@XZ",
    "??0_ReentrantPPLLock@details@Concurrency@@QAE@XZ",
    "?_Acquire@_ReentrantPPLLock@details@Concurrency@@QAEXPAX@Z",
    "?_Release@_ReentrantPPLLock@details@Concurrency@@QAEXXZ",
    "??0_Scoped_lock@_ReentrantPPLLock@details@Concurrency@@QAE@AAV123@@Z",
    "??1_Scoped_lock@_ReentrantPPLLock@details@Concurrency@@QAE@XZ",
    "??0_ReaderWriterLock@details@Concurrency@@QAE@XZ",
    "?_AcquireRead@_ReaderWriterLock@details@Concurrency@@QAEXXZ",
    "?_AcquireWrite@_ReaderWriterLock@details@Concurrency@@QAEXXZ",
    "?_ReleaseRead@_ReaderWriterLock@details@Concurrency@@QAEXXZ",
    "?_ReleaseWrite@_ReaderWriterLock@details@Concurrency@@QAEXXZ",
    "??0_Timer@details@Concurrency@@IAE@I_N@Z",
    "??1_Timer@details@Concurrency@@IAE@XZ",
    "?_Start@_Timer@details@Concurrency@@IAEXXZ",
    "?_Stop@_Timer@details@Concurrency@@IAEXXZ",
    "?GetExecutionContextId@Concurrency@@YAIXZ",
    "?GetSchedulerId@Concurrency@@YAIXZ",
    "?GetProcessorCount@Concurrency@@YAIXZ",
    "?GetProcessorNodeCount@Concurrency@@YAIXZ",
    "?GetOSVersion@Concurrency@@YA?AW4OSVersion@IResourceManager@1@XZ",
    "?CreateResourceManager@Concurrency@@YAPAUIResourceManager@1@XZ",
    "?GetSharedTimerQueue@details@Concurrency@@YAPAXXZ",
    "?DisableTracing@Concurrency@@YAJXZ",
    "?EnableTracing@Concurrency@@YAJXZ",
    "?Log2@details@Concurrency@@YAKI@Z",
    "?_CheckTaskCollection@_UnrealizedChore@details@Concurrency@@IAEXXZ",
    "?_ConcRT_Assert@details@Concurrency@@YAXPBD0H@Z",
    "?_ConcRT_CoreAssert@details@Concurrency@@YAXPBD0H@Z",
    "?_ConcRT_DumpMessage@details@Concurrency@@YAXPB_WZZ",
    "?_ConcRT_Trace@details@Concurrency@@YAXHPB_WZZ",
];

/// What `register` adds: the groups above, in order.
pub open spec fn imports() -> Seq<ImportModel> {
    stub_models(DLL_NAME@, SCHEDULING@)
        + stub_models(DLL_NAME@, INTERNAL_LOCKS@)
        + stub_models(DLL_NAME@, PPL_AND_UTILITY@)
}

pub fn register(vm: &mut Vm)
    ensures
        same_but_imports(old(vm), final(vm)),
        imports_model(final(vm).imports@) == imports_model(old(vm).imports@) + imports(),
{
    let ghost start = imports_model(vm.imports@);
    vm.register_stubs(DLL_NAME, &SCHEDULING);
    vm.register_stubs(DLL_NAME, &INTERNAL_LOCKS);
    vm.register_stubs(DLL_NAME, &PPL_AND_UTILITY);
    assert(imports_model(vm.imports@) =~= start + imports());
}

} // verus!
