//! Running a registered routine: from its tag to the routine itself.

use vstd::prelude::*;

use crate::vm::imports::Routine;
use crate::vm::windows::oleaut32::bstr::{decodable, unchanged};
use crate::vm::windows::oleaut32::constants::S_OK;
use crate::vm::windows::{msvcr40d, ntdll, ole32, oleaut32};
use crate::vm::Vm;

verus! {

/// What running a routine comes to.
#[derive(Debug, Clone, Copy, PartialEq, Eq, Structural)]
pub enum RoutineRun {
    /// The routine ran and returned this value.
    Done(u32),
    /// The routine needs the host (its files, the guest CPU, or floating
    /// point), whose drivers run it; nothing was done.
    Host,
}

/// The routines that need the host.
pub open spec fn host_routine(routine: Routine) -> bool {
    ||| routine == Routine::LoadTypeLib
    ||| routine == Routine::LoadRegTypeLib
    ||| routine == Routine::SystemTimeToVariantTime
    ||| routine == Routine::VariantTimeToSystemTime
    ||| routine == Routine::Fopen
    ||| routine == Routine::Fclose
    ||| routine == Routine::Fgetc
    ||| routine == Routine::Fputc
    ||| routine == Routine::TypeInfoInvoke
}

/// What the routine with the tag `routine` returns (`r`) and leaves
/// (`post`) on the machine `pre`, called with the stack at `stack_ptr`: a
/// stub returns its value and changes nothing; `UnRegisterTypeLib`
/// succeeds and changes nothing; every other routine does what its own
/// contract says.
pub open spec fn routine_effect(routine: Routine, pre: &Vm, post: &Vm, stack_ptr: u32, r: u32) -> bool {
    match routine {
        Routine::Stub(v) => r == v && unchanged(pre, post),
        Routine::UnRegisterTypeLib => r == S_OK && unchanged(pre, post),
        Routine::RtlInitializeSListHead => ntdll::slist::rtl_initialize_slist_head_effect(pre, post, stack_ptr, r),
        Routine::ClsidFromString => ole32::clsid_from_string_effect(pre, post, stack_ptr, r),
        Routine::ClsidFromProgId => ole32::clsid_from_progid_effect(pre, post, stack_ptr, r),
        Routine::StringFromGuid2 => ole32::string_from_guid2_effect(pre, post, stack_ptr, r),
        Routine::CoCreateInstance => ole32::co_create_instance_effect(pre, post, stack_ptr, r),
        Routine::CoGetClassObject => ole32::co_get_class_object_effect(pre, post, stack_ptr, r),
        Routine::CoTaskMemAlloc => ole32::co_task_mem_alloc_effect(pre, post, stack_ptr, r),
        Routine::CoTaskMemRealloc => ole32::co_task_mem_realloc_effect(pre, post, stack_ptr, r),
        Routine::CoTaskMemFree => ole32::co_task_mem_free_effect(pre, post, stack_ptr, r),
        Routine::CreateDataAdviseHolder => ole32::create_data_advise_holder_effect(pre, post, stack_ptr, r),
        Routine::ReadClassStm => ole32::read_class_stm_effect(pre, post, stack_ptr, r),
        Routine::WriteClassStm => ole32::write_class_stm_effect(pre, post, stack_ptr, r),
        Routine::OleInitialize => ole32::ole_initialize_effect(pre, post, stack_ptr, r),
        Routine::OleUninitialize => ole32::ole_uninitialize_effect(pre, post, stack_ptr, r),
        Routine::OleSaveToStream => ole32::ole_save_to_stream_effect(pre, post, stack_ptr, r),
        Routine::OleLockRunning => ole32::ole_lock_running_effect(pre, post, stack_ptr, r),
        Routine::CreateOleAdviseHolder => ole32::create_ole_advise_holder_effect(pre, post, stack_ptr, r),
        Routine::OleRegGetUserType => ole32::ole_reg_get_user_type_effect(pre, post, stack_ptr, r),
        Routine::OleRegGetMiscStatus => ole32::ole_reg_get_misc_status_effect(pre, post, stack_ptr, r),
        Routine::OleRegEnumVerbs => ole32::ole_reg_enum_verbs_effect(pre, post, stack_ptr, r),
        Routine::CreateStreamOnHGlobal => ole32::create_stream_on_hglobal_effect(pre, post, stack_ptr, r),
        Routine::SysAllocString => oleaut32::bstr::sys_alloc_string_effect(pre, post, stack_ptr, r),
        Routine::SysAllocStringLen => oleaut32::bstr::sys_alloc_string_len_effect(pre, post, stack_ptr, r),
        Routine::SysFreeString => oleaut32::bstr::sys_free_string_effect(pre, post, stack_ptr, r),
        Routine::SysStringLen => oleaut32::bstr::sys_string_len_effect(pre, post, stack_ptr, r),
        Routine::SysStringByteLen => oleaut32::bstr::sys_string_byte_len_effect(pre, post, stack_ptr, r),
        Routine::SysAllocStringByteLen => oleaut32::bstr::sys_alloc_string_byte_len_effect(pre, post, stack_ptr, r),
        Routine::VariantInit => oleaut32::variant::variant_init_effect(pre, post, stack_ptr, r),
        Routine::VariantClear => oleaut32::variant::variant_clear_effect(pre, post, stack_ptr, r),
        Routine::VariantChangeType => oleaut32::variant::variant_change_type_effect(pre, post, stack_ptr, r),
        Routine::SafeArrayCreate => oleaut32::safearray::safe_array_create_effect(pre, post, stack_ptr, r),
        Routine::SafeArrayAccessData => oleaut32::safearray::safe_array_access_data_effect(pre, post, stack_ptr, r),
        Routine::SafeArrayUnaccessData => oleaut32::safearray::safe_array_unaccess_data_effect(pre, post, stack_ptr, r),
        Routine::RegisterTypeLib => oleaut32::typelib_load::register_type_lib_effect(pre, post, stack_ptr, r),
        Routine::VarUi4FromStr => oleaut32::convert::var_ui4_from_str_effect(pre, post, stack_ptr, r),
        Routine::VarBstrCat => oleaut32::convert::var_bstr_cat_effect(pre, post, stack_ptr, r),
        Routine::OleCreatePropertyFrame => oleaut32::property::ole_create_property_frame_effect(pre, post, stack_ptr, r),
        Routine::OleCreateFontIndirect => oleaut32::property::ole_create_font_indirect_effect(pre, post, stack_ptr, r),
        Routine::Sprintf => msvcr40d::format::sprintf_effect(pre, post, stack_ptr, r),
        Routine::Malloc => msvcr40d::malloc_impl_effect(pre, post, stack_ptr, r),
        Routine::Memcpy => msvcr40d::memcpy_impl_effect(pre, post, stack_ptr, r),
        Routine::CxxFrameHandler => msvcr40d::cxx_frame_handler_effect(pre, post, stack_ptr, r),
        Routine::TypeInfoDtor => msvcr40d::type_info_dtor_effect(pre, post, stack_ptr, r),
        Routine::OperatorDelete => msvcr40d::operator_delete_effect(pre, post, stack_ptr, r),
        Routine::AdjustFdiv => msvcr40d::adjust_fdiv_effect(pre, post, stack_ptr, r),
        Routine::MallocDbg => msvcr40d::malloc_dbg_effect(pre, post, stack_ptr, r),
        Routine::Initterm => msvcr40d::initterm_effect(pre, post, stack_ptr, r),
        Routine::FreeDbg => msvcr40d::free_dbg_effect(pre, post, stack_ptr, r),
        Routine::Onexit => msvcr40d::onexit_effect(pre, post, stack_ptr, r),
        Routine::Strcpy => msvcr40d::strcpy_impl_effect(pre, post, stack_ptr, r),
        Routine::Memset => msvcr40d::memset_impl_effect(pre, post, stack_ptr, r),
        Routine::Strcat => msvcr40d::strcat_impl_effect(pre, post, stack_ptr, r),
        Routine::DllOnexit => msvcr40d::dll_onexit_effect(pre, post, stack_ptr, r),
        Routine::TypeLibQueryInterface => oleaut32::typelib_api::typelib_query_interface_effect(pre, post, stack_ptr, r),
        Routine::TypeLibGetTypeInfoCount => oleaut32::typelib_api::typelib_get_typeinfo_count_effect(pre, post, stack_ptr, r),
        Routine::TypeLibGetTypeInfo => oleaut32::typelib_api::typelib_get_typeinfo_effect(pre, post, stack_ptr, r),
        Routine::TypeLibGetTypeInfoType => oleaut32::typelib_api::typelib_get_typeinfo_type_effect(pre, post, stack_ptr, r),
        Routine::TypeLibGetTypeInfoOfGuid => oleaut32::typelib_api::typelib_get_typeinfo_of_guid_effect(pre, post, stack_ptr, r),
        Routine::TypeInfoQueryInterface => oleaut32::typeinfo::typeinfo_query_interface_effect(pre, post, stack_ptr, r),
        Routine::TypeInfoGetTypeAttr => oleaut32::typeinfo::typeinfo_get_type_attr_effect(pre, post, stack_ptr, r),
        _ => false,
    }
}

/// Runs the routine with the tag `routine` with the stack at `stack_ptr`:
/// `Host` (the machine untouched) for the routines that need the host, else
/// the routine's result.
pub fn run_routine(vm: &mut Vm, routine: Routine, stack_ptr: u32) -> (r: RoutineRun)
    requires
        decodable(old(vm)),
    ensures
        host_routine(routine) ==> r == RoutineRun::Host && *final(vm) == *old(vm),
        !host_routine(routine) ==> (r matches RoutineRun::Done(x) && routine_effect(routine, old(vm), final(vm), stack_ptr, x)),
{
    match routine {
        Routine::Stub(v) => RoutineRun::Done(v),
        Routine::UnRegisterTypeLib => RoutineRun::Done(S_OK),
        Routine::RtlInitializeSListHead => RoutineRun::Done(ntdll::slist::rtl_initialize_slist_head(vm, stack_ptr)),
        Routine::ClsidFromString => RoutineRun::Done(ole32::clsid_from_string(vm, stack_ptr)),
        Routine::ClsidFromProgId => RoutineRun::Done(ole32::clsid_from_progid(vm, stack_ptr)),
        Routine::StringFromGuid2 => RoutineRun::Done(ole32::string_from_guid2(vm, stack_ptr)),
        Routine::CoCreateInstance => RoutineRun::Done(ole32::co_create_instance(vm, stack_ptr)),
        Routine::CoGetClassObject => RoutineRun::Done(ole32::co_get_class_object(vm, stack_ptr)),
        Routine::CoTaskMemAlloc => RoutineRun::Done(ole32::co_task_mem_alloc(vm, stack_ptr)),
        Routine::CoTaskMemRealloc => RoutineRun::Done(ole32::co_task_mem_realloc(vm, stack_ptr)),
        Routine::CoTaskMemFree => RoutineRun::Done(ole32::co_task_mem_free(vm, stack_ptr)),
        Routine::CreateDataAdviseHolder => RoutineRun::Done(ole32::create_data_advise_holder(vm, stack_ptr)),
        Routine::ReadClassStm => RoutineRun::Done(ole32::read_class_stm(vm, stack_ptr)),
        Routine::WriteClassStm => RoutineRun::Done(ole32::write_class_stm(vm, stack_ptr)),
        Routine::OleInitialize => RoutineRun::Done(ole32::ole_initialize(vm, stack_ptr)),
        Routine::OleUninitialize => RoutineRun::Done(ole32::ole_uninitialize(vm, stack_ptr)),
        Routine::OleSaveToStream => RoutineRun::Done(ole32::ole_save_to_stream(vm, stack_ptr)),
        Routine::OleLockRunning => RoutineRun::Done(ole32::ole_lock_running(vm, stack_ptr)),
        Routine::CreateOleAdviseHolder => RoutineRun::Done(ole32::create_ole_advise_holder(vm, stack_ptr)),
        Routine::OleRegGetUserType => RoutineRun::Done(ole32::ole_reg_get_user_type(vm, stack_ptr)),
        Routine::OleRegGetMiscStatus => RoutineRun::Done(ole32::ole_reg_get_misc_status(vm, stack_ptr)),
        Routine::OleRegEnumVerbs => RoutineRun::Done(ole32::ole_reg_enum_verbs(vm, stack_ptr)),
        Routine::CreateStreamOnHGlobal => RoutineRun::Done(ole32::create_stream_on_hglobal(vm, stack_ptr)),
        Routine::SysAllocString => RoutineRun::Done(oleaut32::bstr::sys_alloc_string(vm, stack_ptr)),
        Routine::SysAllocStringLen => RoutineRun::Done(oleaut32::bstr::sys_alloc_string_len(vm, stack_ptr)),
        Routine::SysFreeString => RoutineRun::Done(oleaut32::bstr::sys_free_string(vm, stack_ptr)),
        Routine::SysStringLen => RoutineRun::Done(oleaut32::bstr::sys_string_len(vm, stack_ptr)),
        Routine::SysStringByteLen => RoutineRun::Done(oleaut32::bstr::sys_string_byte_len(vm, stack_ptr)),
        Routine::SysAllocStringByteLen => RoutineRun::Done(oleaut32::bstr::sys_alloc_string_byte_len(vm, stack_ptr)),
        Routine::VariantInit => RoutineRun::Done(oleaut32::variant::variant_init(vm, stack_ptr)),
        Routine::VariantClear => RoutineRun::Done(oleaut32::variant::variant_clear(vm, stack_ptr)),
        Routine::VariantChangeType => RoutineRun::Done(oleaut32::variant::variant_change_type(vm, stack_ptr)),
        Routine::SafeArrayCreate => RoutineRun::Done(oleaut32::safearray::safe_array_create(vm, stack_ptr)),
        Routine::SafeArrayAccessData => RoutineRun::Done(oleaut32::safearray::safe_array_access_data(vm, stack_ptr)),
        Routine::SafeArrayUnaccessData => RoutineRun::Done(oleaut32::safearray::safe_array_unaccess_data(vm, stack_ptr)),
        Routine::RegisterTypeLib => RoutineRun::Done(oleaut32::typelib_load::register_type_lib(vm, stack_ptr)),
        Routine::VarUi4FromStr => RoutineRun::Done(oleaut32::convert::var_ui4_from_str(vm, stack_ptr)),
        Routine::VarBstrCat => RoutineRun::Done(oleaut32::convert::var_bstr_cat(vm, stack_ptr)),
        Routine::OleCreatePropertyFrame => RoutineRun::Done(oleaut32::property::ole_create_property_frame(vm, stack_ptr)),
        Routine::OleCreateFontIndirect => RoutineRun::Done(oleaut32::property::ole_create_font_indirect(vm, stack_ptr)),
        Routine::Sprintf => RoutineRun::Done(msvcr40d::format::sprintf(vm, stack_ptr)),
        Routine::Malloc => RoutineRun::Done(msvcr40d::malloc_impl(vm, stack_ptr)),
        Routine::Memcpy => RoutineRun::Done(msvcr40d::memcpy_impl(vm, stack_ptr)),
        Routine::CxxFrameHandler => RoutineRun::Done(msvcr40d::cxx_frame_handler(vm, stack_ptr)),
        Routine::TypeInfoDtor => RoutineRun::Done(msvcr40d::type_info_dtor(vm, stack_ptr)),
        Routine::OperatorDelete => RoutineRun::Done(msvcr40d::operator_delete(vm, stack_ptr)),
        Routine::AdjustFdiv => RoutineRun::Done(msvcr40d::adjust_fdiv(vm, stack_ptr)),
        Routine::MallocDbg => RoutineRun::Done(msvcr40d::malloc_dbg(vm, stack_ptr)),
        Routine::Initterm => RoutineRun::Done(msvcr40d::initterm(vm, stack_ptr)),
        Routine::FreeDbg => RoutineRun::Done(msvcr40d::free_dbg(vm, stack_ptr)),
        Routine::Onexit => RoutineRun::Done(msvcr40d::onexit(vm, stack_ptr)),
        Routine::Strcpy => RoutineRun::Done(msvcr40d::strcpy_impl(vm, stack_ptr)),
        Routine::Memset => RoutineRun::Done(msvcr40d::memset_impl(vm, stack_ptr)),
        Routine::Strcat => RoutineRun::Done(msvcr40d::strcat_impl(vm, stack_ptr)),
        Routine::DllOnexit => RoutineRun::Done(msvcr40d::dll_onexit(vm, stack_ptr)),
        Routine::TypeLibQueryInterface => RoutineRun::Done(oleaut32::typelib_api::typelib_query_interface(vm, stack_ptr)),
        Routine::TypeLibGetTypeInfoCount => RoutineRun::Done(oleaut32::typelib_api::typelib_get_typeinfo_count(vm, stack_ptr)),
        Routine::TypeLibGetTypeInfo => RoutineRun::Done(oleaut32::typelib_api::typelib_get_typeinfo(vm, stack_ptr)),
        Routine::TypeLibGetTypeInfoType => RoutineRun::Done(oleaut32::typelib_api::typelib_get_typeinfo_type(vm, stack_ptr)),
        Routine::TypeLibGetTypeInfoOfGuid => RoutineRun::Done(oleaut32::typelib_api::typelib_get_typeinfo_of_guid(vm, stack_ptr)),
        Routine::TypeInfoQueryInterface => RoutineRun::Done(oleaut32::typeinfo::typeinfo_query_interface(vm, stack_ptr)),
        Routine::TypeInfoGetTypeAttr => RoutineRun::Done(oleaut32::typeinfo::typeinfo_get_type_attr(vm, stack_ptr)),
        Routine::LoadTypeLib | Routine::LoadRegTypeLib | Routine::SystemTimeToVariantTime
        | Routine::VariantTimeToSystemTime | Routine::Fopen | Routine::Fclose | Routine::Fgetc
        | Routine::Fputc | Routine::TypeInfoInvoke => RoutineRun::Host,
    }
}

} // verus!
