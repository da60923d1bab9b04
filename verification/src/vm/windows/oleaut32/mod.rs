//! OLEAUT32: BSTRs, VARIANTs, type libraries and OLE automation helpers.

pub mod bstr;
pub mod constants;
pub mod convert;
pub mod property;
pub mod safearray;
pub mod guid;
pub mod invoke;
pub mod laws;
pub mod variant;
pub mod time;
pub mod typeinfo;
pub mod typelib_api;
pub mod typelib_load;

use vstd::prelude::*;

use crate::vm::imports::{arg_bytes, by_ordinal, imports_model, named, same_but_imports, stdcall_args, CallConv, ImportModel, Routine};
use crate::vm::Vm;

verus! {

pub const DLL_NAME: &'static str = "OLEAUT32.dll";

/// What `register` adds, in order: each routine by ordinal and by name,
/// with the bytes of arguments it pops.
pub open spec fn imports() -> Seq<ImportModel> {
    seq![
        by_ordinal(DLL_NAME@, 2, CallConv::Stdcall(4), Routine::SysAllocString),
        by_ordinal(DLL_NAME@, 4, CallConv::Stdcall(8), Routine::SysAllocStringLen),
        by_ordinal(DLL_NAME@, 6, CallConv::Stdcall(4), Routine::SysFreeString),
        by_ordinal(DLL_NAME@, 7, CallConv::Stdcall(4), Routine::SysStringLen),
        by_ordinal(DLL_NAME@, 149, CallConv::Stdcall(4), Routine::SysStringByteLen),
        by_ordinal(DLL_NAME@, 150, CallConv::Stdcall(8), Routine::SysAllocStringByteLen),
        named(DLL_NAME@, "SysAllocString"@, CallConv::Stdcall(arg_bytes(1) as u32), Routine::SysAllocString),
        named(DLL_NAME@, "SysAllocStringLen"@, CallConv::Stdcall(arg_bytes(2) as u32), Routine::SysAllocStringLen),
        named(DLL_NAME@, "SysFreeString"@, CallConv::Stdcall(arg_bytes(1) as u32), Routine::SysFreeString),
        named(DLL_NAME@, "SysStringLen"@, CallConv::Stdcall(arg_bytes(1) as u32), Routine::SysStringLen),
        named(DLL_NAME@, "SysStringByteLen"@, CallConv::Stdcall(arg_bytes(1) as u32), Routine::SysStringByteLen),
        named(DLL_NAME@, "SysAllocStringByteLen"@, CallConv::Stdcall(arg_bytes(2) as u32), Routine::SysAllocStringByteLen),
        by_ordinal(DLL_NAME@, 8, CallConv::Stdcall(4), Routine::VariantInit),
        by_ordinal(DLL_NAME@, 9, CallConv::Stdcall(4), Routine::VariantClear),
        by_ordinal(DLL_NAME@, 12, CallConv::Stdcall(16), Routine::VariantChangeType),
        named(DLL_NAME@, "VariantInit"@, CallConv::Stdcall(arg_bytes(1) as u32), Routine::VariantInit),
        named(DLL_NAME@, "VariantClear"@, CallConv::Stdcall(arg_bytes(1) as u32), Routine::VariantClear),
        named(DLL_NAME@, "VariantChangeType"@, CallConv::Stdcall(arg_bytes(4) as u32), Routine::VariantChangeType),
        by_ordinal(DLL_NAME@, 15, CallConv::Stdcall(12), Routine::SafeArrayCreate),
        by_ordinal(DLL_NAME@, 23, CallConv::Stdcall(8), Routine::SafeArrayAccessData),
        by_ordinal(DLL_NAME@, 24, CallConv::Stdcall(4), Routine::SafeArrayUnaccessData),
        named(DLL_NAME@, "SafeArrayCreate"@, CallConv::Stdcall(arg_bytes(3) as u32), Routine::SafeArrayCreate),
        named(DLL_NAME@, "SafeArrayAccessData"@, CallConv::Stdcall(arg_bytes(2) as u32), Routine::SafeArrayAccessData),
        named(DLL_NAME@, "SafeArrayUnaccessData"@, CallConv::Stdcall(arg_bytes(1) as u32), Routine::SafeArrayUnaccessData),
        by_ordinal(DLL_NAME@, 161, CallConv::Stdcall(8), Routine::LoadTypeLib),
        by_ordinal(DLL_NAME@, 162, CallConv::Stdcall(20), Routine::LoadRegTypeLib),
        by_ordinal(DLL_NAME@, 163, CallConv::Stdcall(12), Routine::RegisterTypeLib),
        by_ordinal(DLL_NAME@, 186, CallConv::Stdcall(20), Routine::UnRegisterTypeLib),
        named(DLL_NAME@, "LoadTypeLib"@, CallConv::Stdcall(arg_bytes(2) as u32), Routine::LoadTypeLib),
        named(DLL_NAME@, "LoadRegTypeLib"@, CallConv::Stdcall(arg_bytes(5) as u32), Routine::LoadRegTypeLib),
        named(DLL_NAME@, "RegisterTypeLib"@, CallConv::Stdcall(arg_bytes(3) as u32), Routine::RegisterTypeLib),
        named(DLL_NAME@, "UnRegisterTypeLib"@, CallConv::Stdcall(arg_bytes(5) as u32), Routine::UnRegisterTypeLib),
        by_ordinal(DLL_NAME@, 184, CallConv::Stdcall(8), Routine::SystemTimeToVariantTime),
        by_ordinal(DLL_NAME@, 185, CallConv::Stdcall(12), Routine::VariantTimeToSystemTime),
        by_ordinal(DLL_NAME@, 277, CallConv::Stdcall(16), Routine::VarUi4FromStr),
        by_ordinal(DLL_NAME@, 313, CallConv::Stdcall(12), Routine::VarBstrCat),
        named(DLL_NAME@, "SystemTimeToVariantTime"@, CallConv::Stdcall(arg_bytes(2) as u32), Routine::SystemTimeToVariantTime),
        named(DLL_NAME@, "VariantTimeToSystemTime"@, CallConv::Stdcall(arg_bytes(3) as u32), Routine::VariantTimeToSystemTime),
        named(DLL_NAME@, "VarUI4FromStr"@, CallConv::Stdcall(arg_bytes(4) as u32), Routine::VarUi4FromStr),
        named(DLL_NAME@, "VarBstrCat"@, CallConv::Stdcall(arg_bytes(3) as u32), Routine::VarBstrCat),
        by_ordinal(DLL_NAME@, 417, CallConv::Stdcall(44), Routine::OleCreatePropertyFrame),
        by_ordinal(DLL_NAME@, 420, CallConv::Stdcall(12), Routine::OleCreateFontIndirect),
        named(DLL_NAME@, "OleCreatePropertyFrame"@, CallConv::Stdcall(arg_bytes(11) as u32), Routine::OleCreatePropertyFrame),
        named(DLL_NAME@, "OleCreateFontIndirect"@, CallConv::Stdcall(arg_bytes(3) as u32), Routine::OleCreateFontIndirect),
    ]
}

pub fn register(vm: &mut Vm)
    ensures
        same_but_imports(old(vm), final(vm)),
        imports_model(final(vm).imports@) == imports_model(old(vm).imports@) + imports(),
{
    let ghost start = imports_model(vm.imports@);
    vm.register_import_ordinal_stdcall(DLL_NAME, 2, 4, Routine::SysAllocString);
    vm.register_import_ordinal_stdcall(DLL_NAME, 4, 8, Routine::SysAllocStringLen);
    vm.register_import_ordinal_stdcall(DLL_NAME, 6, 4, Routine::SysFreeString);
    vm.register_import_ordinal_stdcall(DLL_NAME, 7, 4, Routine::SysStringLen);
    vm.register_import_ordinal_stdcall(DLL_NAME, 149, 4, Routine::SysStringByteLen);
    vm.register_import_ordinal_stdcall(DLL_NAME, 150, 8, Routine::SysAllocStringByteLen);
    vm.register_import_stdcall(DLL_NAME, "SysAllocString", stdcall_args(1), Routine::SysAllocString);
    vm.register_import_stdcall(DLL_NAME, "SysAllocStringLen", stdcall_args(2), Routine::SysAllocStringLen);
    vm.register_import_stdcall(DLL_NAME, "SysFreeString", stdcall_args(1), Routine::SysFreeString);
    vm.register_import_stdcall(DLL_NAME, "SysStringLen", stdcall_args(1), Routine::SysStringLen);
    vm.register_import_stdcall(DLL_NAME, "SysStringByteLen", stdcall_args(1), Routine::SysStringByteLen);
    vm.register_import_stdcall(DLL_NAME, "SysAllocStringByteLen", stdcall_args(2), Routine::SysAllocStringByteLen);
    vm.register_import_ordinal_stdcall(DLL_NAME, 8, 4, Routine::VariantInit);
    vm.register_import_ordinal_stdcall(DLL_NAME, 9, 4, Routine::VariantClear);
    vm.register_import_ordinal_stdcall(DLL_NAME, 12, 16, Routine::VariantChangeType);
    vm.register_import_stdcall(DLL_NAME, "VariantInit", stdcall_args(1), Routine::VariantInit);
    vm.register_import_stdcall(DLL_NAME, "VariantClear", stdcall_args(1), Routine::VariantClear);
    vm.register_import_stdcall(DLL_NAME, "VariantChangeType", stdcall_args(4), Routine::VariantChangeType);
    vm.register_import_ordinal_stdcall(DLL_NAME, 15, 12, Routine::SafeArrayCreate);
    vm.register_import_ordinal_stdcall(DLL_NAME, 23, 8, Routine::SafeArrayAccessData);
    vm.register_import_ordinal_stdcall(DLL_NAME, 24, 4, Routine::SafeArrayUnaccessData);
    vm.register_import_stdcall(DLL_NAME, "SafeArrayCreate", stdcall_args(3), Routine::SafeArrayCreate);
    vm.register_import_stdcall(DLL_NAME, "SafeArrayAccessData", stdcall_args(2), Routine::SafeArrayAccessData);
    vm.register_import_stdcall(DLL_NAME, "SafeArrayUnaccessData", stdcall_args(1), Routine::SafeArrayUnaccessData);
    vm.register_import_ordinal_stdcall(DLL_NAME, 161, 8, Routine::LoadTypeLib);
    vm.register_import_ordinal_stdcall(DLL_NAME, 162, 20, Routine::LoadRegTypeLib);
    vm.register_import_ordinal_stdcall(DLL_NAME, 163, 12, Routine::RegisterTypeLib);
    vm.register_import_ordinal_stdcall(DLL_NAME, 186, 20, Routine::UnRegisterTypeLib);
    vm.register_import_stdcall(DLL_NAME, "LoadTypeLib", stdcall_args(2), Routine::LoadTypeLib);
    vm.register_import_stdcall(DLL_NAME, "LoadRegTypeLib", stdcall_args(5), Routine::LoadRegTypeLib);
    vm.register_import_stdcall(DLL_NAME, "RegisterTypeLib", stdcall_args(3), Routine::RegisterTypeLib);
    vm.register_import_stdcall(DLL_NAME, "UnRegisterTypeLib", stdcall_args(5), Routine::UnRegisterTypeLib);
    vm.register_import_ordinal_stdcall(DLL_NAME, 184, 8, Routine::SystemTimeToVariantTime);
    vm.register_import_ordinal_stdcall(DLL_NAME, 185, 12, Routine::VariantTimeToSystemTime);
    vm.register_import_ordinal_stdcall(DLL_NAME, 277, 16, Routine::VarUi4FromStr);
    vm.register_import_ordinal_stdcall(DLL_NAME, 313, 12, Routine::VarBstrCat);
    vm.register_import_stdcall(DLL_NAME, "SystemTimeToVariantTime", stdcall_args(2), Routine::SystemTimeToVariantTime);
    vm.register_import_stdcall(DLL_NAME, "VariantTimeToSystemTime", stdcall_args(3), Routine::VariantTimeToSystemTime);
    vm.register_import_stdcall(DLL_NAME, "VarUI4FromStr", stdcall_args(4), Routine::VarUi4FromStr);
    vm.register_import_stdcall(DLL_NAME, "VarBstrCat", stdcall_args(3), Routine::VarBstrCat);
    vm.register_import_ordinal_stdcall(DLL_NAME, 417, 44, Routine::OleCreatePropertyFrame);
    vm.register_import_ordinal_stdcall(DLL_NAME, 420, 12, Routine::OleCreateFontIndirect);
    vm.register_import_stdcall(DLL_NAME, "OleCreatePropertyFrame", stdcall_args(11), Routine::OleCreatePropertyFrame);
    vm.register_import_stdcall(DLL_NAME, "OleCreateFontIndirect", stdcall_args(3), Routine::OleCreateFontIndirect);
    assert(imports_model(vm.imports@) =~= start + imports());
}

} // verus!
pub mod typelib;
