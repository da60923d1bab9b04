use pe_vm::vm::com::{ComState, TypeInfoHandle};
use pe_vm::vm::imports::THUNK_BASE;
use pe_vm::vm::windows::oleaut32::constants::{
    DISP_E_BADPARAMCOUNT, DISP_E_MEMBERNOTFOUND, DISP_E_TYPEMISMATCH, E_INVALIDARG, E_NOINTERFACE, E_NOTIMPL,
    PARAMFLAG_FIN, PARAMFLAG_FOUT, PARAMFLAG_FRETVAL, S_OK, VT_BSTR, VT_BYREF, VT_HRESULT, VT_I4, VT_VARIANT,
    VT_VOID,
};
use pe_vm::vm::windows::oleaut32::invoke::{
    build_invoke_values, detect_thiscall, expected_inputs, invoke_finish, invoke_prepare, read_variant_arg,
    select_invoke_args, select_invoke_func, write_variant_value, InvokeStep,
};
use pe_vm::vm::windows::oleaut32::typeinfo::{
    resolve_typeinfo_this, typeinfo_get_func_desc, typeinfo_get_type_attr, typeinfo_query_interface,
};
use pe_vm::vm::windows::oleaut32::typelib::{FuncDesc, ParamDesc, TypeInfoData, TypeLib};
use pe_vm::vm::windows::oleaut32::typelib_api::{
    alloc_typelib, typelib_get_typeinfo, typelib_get_typeinfo_count, typelib_get_typeinfo_of_guid,
    typelib_get_typeinfo_type, typelib_query_interface,
};
use pe_vm::vm::{Vm, VmError};

const IID_IUNKNOWN: [u8; 16] = [0, 0, 0, 0, 0, 0, 0, 0, 0xC0, 0, 0, 0, 0, 0, 0, 0x46];
const IID_ITYPELIB: [u8; 16] = [0x02, 0x04, 0x02, 0, 0, 0, 0, 0, 0xC0, 0, 0, 0, 0, 0, 0, 0x46];
const IID_ITYPEINFO: [u8; 16] = [0x01, 0x04, 0x02, 0, 0, 0, 0, 0, 0xC0, 0, 0, 0, 0, 0, 0, 0x46];

fn create_test_vm() -> Vm {
    Vm::new(0x10000, 0x1000, 0x2000, 0x8000)
}

fn param(vt: u16, flags: u32) -> ParamDesc {
    ParamDesc { vt, flags }
}

fn func(memid: u32, invkind: u16, vtable_offset: u16, ret_vt: u16, params: Vec<ParamDesc>) -> FuncDesc {
    FuncDesc { memid, invkind, callconv: 4, vtable_offset, ret_vt, params }
}

fn info(guid: u8, typekind: u32, funcs: Vec<FuncDesc>) -> TypeInfoData {
    TypeInfoData {
        guid: [guid; 16],
        typekind,
        c_funcs: funcs.len() as u16,
        c_vars: 0,
        c_impl_types: 1,
        cb_size_vft: 28,
        flags: 0x1040,
        funcs,
    }
}

fn sample_lib() -> TypeLib {
    TypeLib {
        guid: [0x11; 16],
        typeinfos: vec![
            info(
                0xA1,
                4,
                vec![
                    func(1, 1, 28, VT_HRESULT, vec![param(VT_I4, PARAMFLAG_FIN), param(VT_I4 | VT_BYREF, PARAMFLAG_FOUT | PARAMFLAG_FRETVAL)]),
                    func(2, 1, 32, VT_I4, vec![]),
                ],
            ),
            info(0xB2, 5, vec![]),
        ],
    }
}

/// Writes the arguments of a call at `sp` (the return address first).
fn frame(vm: &mut Vm, sp: u32, args: &[u32]) {
    vm.write_u32(sp, 0).unwrap();
    for (i, a) in args.iter().enumerate() {
        vm.write_u32(sp + 4 + 4 * i as u32, *a).unwrap();
    }
}

#[test]
fn com_state_gives_back_what_was_stored() {
    let mut com = ComState::new();
    let a = com.store_typelib(sample_lib());
    let b = com.store_typelib(TypeLib { guid: [0x22; 16], typeinfos: vec![] });
    assert_eq!((a, b), (1, 2));
    assert_eq!(com.get_typelib(a).unwrap().typeinfos.len(), 2);
    assert_eq!(com.get_typelib(b).unwrap().guid, [0x22; 16]);
    assert!(com.get_typelib(3).is_none());
    let t = com.store_typeinfo(a, 1).unwrap();
    assert_eq!(t, 3);
    assert_eq!(com.get_typeinfo(t).unwrap().typekind, 5);
    assert_eq!(com.typeinfos[&t], TypeInfoHandle { typelib_id: a, index: 1 });
    // no library 9; an index past the type infos gives no type info
    assert!(com.store_typeinfo(9, 0).is_none());
    let bad = com.store_typeinfo(b, 4).unwrap();
    assert!(com.get_typeinfo(bad).is_none());
}

#[test]
fn alloc_typelib_builds_the_object() {
    let mut vm = create_test_vm();
    let obj = alloc_typelib(&mut vm, sample_lib()).unwrap();
    // 13 + 37 routines registered for any DLL
    assert_eq!(vm.imports.len(), 50);
    let vtable = vm.read_u32(obj).unwrap();
    assert_eq!(vm.read_u32(vtable).unwrap(), THUNK_BASE);
    assert_eq!(vm.read_u32(vtable + 4 * 6).unwrap(), THUNK_BASE + 4 * 6);
    assert_eq!(vm.read_u32(obj + 4).unwrap(), 1);
    assert_eq!(vm.resolve_dynamic_import("pe_vm.typeinfo.Invoke"), Some(THUNK_BASE + 4 * (13 + 11)));
    assert_eq!(vm.resolve_dynamic_import("pe_vm.typeinfo.Nothing"), None);
}

#[test]
fn typelib_routines() {
    let mut vm = create_test_vm();
    let obj = alloc_typelib(&mut vm, sample_lib()).unwrap();
    let sp = vm.stack_top - 0x40;
    let out = 0x7000;
    frame(&mut vm, sp, &[obj]);
    assert_eq!(typelib_get_typeinfo_count(&mut vm, sp), 2);

    frame(&mut vm, sp, &[obj, 1, out]);
    assert_eq!(typelib_get_typeinfo_type(&mut vm, sp), S_OK);
    assert_eq!(vm.read_u32(out).unwrap(), 5);
    frame(&mut vm, sp, &[obj, 7, out]);
    assert_eq!(typelib_get_typeinfo_type(&mut vm, sp), S_OK);
    assert_eq!(vm.read_u32(out).unwrap(), 0);

    frame(&mut vm, sp, &[obj, 0, out]);
    assert_eq!(typelib_get_typeinfo(&mut vm, sp), S_OK);
    let ti = vm.read_u32(out).unwrap();
    let ti_vtable = vm.read_u32(ti).unwrap();
    assert_eq!(vm.read_u32(ti_vtable).unwrap(), THUNK_BASE + 4 * 13);
    assert_eq!(vm.read_u32(ti + 4).unwrap(), 2);

    frame(&mut vm, sp, &[obj, 2, out]);
    assert_eq!(typelib_get_typeinfo(&mut vm, sp), E_INVALIDARG);
    assert_eq!(vm.read_u32(out).unwrap(), 0);
    frame(&mut vm, sp, &[obj, 0, 0]);
    assert_eq!(typelib_get_typeinfo(&mut vm, sp), E_INVALIDARG);
    frame(&mut vm, sp, &[0x3000, 0, out]);
    assert_eq!(typelib_get_typeinfo(&mut vm, sp), E_NOTIMPL);

    let guid_ptr = 0x7100;
    vm.write_bytes(guid_ptr, &[0xB2; 16]).unwrap();
    frame(&mut vm, sp, &[obj, guid_ptr, out]);
    assert_eq!(typelib_get_typeinfo_of_guid(&mut vm, sp), S_OK);
    let ti2 = vm.read_u32(out).unwrap();
    assert_eq!(vm.read_u32(ti2 + 4).unwrap(), 3);
    assert_eq!(vm.com.get_typeinfo(3).unwrap().typekind, 5);
    vm.write_bytes(guid_ptr, &[0xC3; 16]).unwrap();
    assert_eq!(typelib_get_typeinfo_of_guid(&mut vm, sp), E_NOTIMPL);
    assert_eq!(vm.read_u32(out).unwrap(), 0);
    frame(&mut vm, sp, &[obj, 0xFFFF_FFF8, out]);
    assert_eq!(typelib_get_typeinfo_of_guid(&mut vm, sp), E_INVALIDARG);
}

#[test]
fn typelib_query_interface_answers_its_interfaces() {
    let mut vm = create_test_vm();
    let obj = alloc_typelib(&mut vm, sample_lib()).unwrap();
    let sp = vm.stack_top - 0x40;
    let iid = 0x7100;
    let out = 0x7000;
    for good in [IID_IUNKNOWN, IID_ITYPELIB] {
        vm.write_bytes(iid, &good).unwrap();
        frame(&mut vm, sp, &[obj, iid, out]);
        assert_eq!(typelib_query_interface(&mut vm, sp), S_OK);
        assert_eq!(vm.read_u32(out).unwrap(), obj);
    }
    vm.write_bytes(iid, &IID_ITYPEINFO).unwrap();
    assert_eq!(typelib_query_interface(&mut vm, sp), E_NOINTERFACE);
    assert_eq!(vm.read_u32(out).unwrap(), 0);
    frame(&mut vm, sp, &[obj, iid, 0]);
    assert_eq!(typelib_query_interface(&mut vm, sp), E_NOINTERFACE);
}

/// A machine with the sample library loaded and an ITypeInfo object for
/// its first type info.
fn typeinfo_setup() -> (Vm, u32) {
    let mut vm = create_test_vm();
    let obj = alloc_typelib(&mut vm, sample_lib()).unwrap();
    let sp = vm.stack_top - 0x40;
    frame(&mut vm, sp, &[obj, 0, 0x7000]);
    assert_eq!(typelib_get_typeinfo(&mut vm, sp), S_OK);
    let ti = vm.read_u32(0x7000).unwrap();
    (vm, ti)
}

#[test]
fn typeinfo_this_on_stack_or_in_ecx() {
    let (mut vm, ti) = typeinfo_setup();
    let sp = vm.stack_top - 0x40;
    frame(&mut vm, sp, &[ti]);
    assert_eq!(resolve_typeinfo_this(&vm, sp), Some((ti, false)));
    frame(&mut vm, sp, &[0x5000]);
    assert_eq!(resolve_typeinfo_this(&vm, sp), None);
    vm.ecx = ti;
    assert_eq!(resolve_typeinfo_this(&vm, sp), Some((ti, true)));
}

#[test]
fn typeinfo_query_interface_and_type_attr() {
    let (mut vm, ti) = typeinfo_setup();
    let sp = vm.stack_top - 0x40;
    let iid = 0x7100;
    let out = 0x7000;
    vm.write_bytes(iid, &IID_ITYPEINFO).unwrap();
    frame(&mut vm, sp, &[ti, iid, out]);
    assert_eq!(typeinfo_query_interface(&mut vm, sp), S_OK);
    assert_eq!(vm.read_u32(out).unwrap(), ti);
    vm.write_bytes(iid, &IID_ITYPELIB).unwrap();
    assert_eq!(typeinfo_query_interface(&mut vm, sp), E_NOINTERFACE);

    frame(&mut vm, sp, &[ti, out]);
    assert_eq!(typeinfo_get_type_attr(&mut vm, sp), S_OK);
    let attr = vm.read_u32(out).unwrap();
    let mut bytes = Vec::new();
    for i in 0..0x4C {
        bytes.push(vm.read_u8(attr + i).unwrap());
    }
    assert_eq!(&bytes[0..16], &[0xA1; 16]);
    assert_eq!(&bytes[24..32], &[0xFF; 8]);
    assert_eq!(u32::from_le_bytes(bytes[40..44].try_into().unwrap()), 4);
    assert_eq!(u16::from_le_bytes(bytes[44..46].try_into().unwrap()), 2);
    assert_eq!(u16::from_le_bytes(bytes[48..50].try_into().unwrap()), 1);
    assert_eq!(u16::from_le_bytes(bytes[50..52].try_into().unwrap()), 28);
    assert_eq!(u16::from_le_bytes(bytes[54..56].try_into().unwrap()), 0x1040);
    // thiscall form: `out` is the first stack argument
    vm.ecx = ti;
    frame(&mut vm, sp, &[0, 0]);
    frame(&mut vm, sp, &[out]);
    assert_eq!(typeinfo_get_type_attr(&mut vm, sp), S_OK);
    // no ITypeInfo object at all
    vm.ecx = 0;
    frame(&mut vm, sp, &[0x5000, out]);
    assert_eq!(typeinfo_get_type_attr(&mut vm, sp), E_NOTIMPL);
}

#[test]
fn typeinfo_func_desc() {
    let (mut vm, ti) = typeinfo_setup();
    let sp = vm.stack_top - 0x40;
    let out = 0x7000;
    frame(&mut vm, sp, &[ti, 0, out]);
    assert_eq!(typeinfo_get_func_desc(&mut vm, sp), S_OK);
    let fd = vm.read_u32(out).unwrap();
    assert_eq!(vm.read_u32(fd).unwrap(), 1);
    let params = vm.read_u32(fd + 8).unwrap();
    assert_ne!(params, 0);
    assert_eq!(vm.read_u16(fd + 24).unwrap(), 2);
    assert_eq!(vm.read_u16(fd + 28).unwrap(), 28);
    assert_eq!(vm.read_u16(fd + 36).unwrap(), VT_HRESULT);
    assert_eq!(vm.read_u16(params + 4).unwrap(), VT_I4);
    assert_eq!(vm.read_u16(params + 12).unwrap(), PARAMFLAG_FIN as u16);
    assert_eq!(vm.read_u16(params + 16 + 4).unwrap(), VT_I4 | VT_BYREF);
    frame(&mut vm, sp, &[ti, 1, out]);
    assert_eq!(typeinfo_get_func_desc(&mut vm, sp), S_OK);
    let fd2 = vm.read_u32(out).unwrap();
    assert_eq!(vm.read_u32(fd2 + 8).unwrap(), 0);
    frame(&mut vm, sp, &[ti, 2, out]);
    assert_eq!(typeinfo_get_func_desc(&mut vm, sp), E_INVALIDARG);
    assert_eq!(vm.read_u32(out).unwrap(), 0);
}

#[test]
fn invoke_layouts_and_function_choice() {
    let data = info(
        1,
        4,
        vec![
            func(5, 1, 0, VT_HRESULT, vec![param(VT_I4, PARAMFLAG_FIN)]),
            func(5, 2, 4, VT_HRESULT, vec![param(VT_I4, PARAMFLAG_FIN), param(VT_I4, PARAMFLAG_FIN)]),
            func(6, 4, 8, VT_VOID, vec![param(VT_I4, PARAMFLAG_FIN)]),
        ],
    );
    // this, memid, flags, disp, result, excep, argerr
    let slots = [0, 0xAA, 0x10, 5, 1, 0x20, 0x30, 0, 0x40];
    let a = select_invoke_args(&data, &slots, false);
    assert_eq!((a.instance, a.memid, a.flags, a.disp_params, a.result_ptr, a.arg_err), (0x10, 5, 1, 0x20, 0x30, 0x40));
    // thiscall: the arguments start one slot earlier
    let slots = [0, 0x10, 6, 4, 0x20, 0x30, 0, 0x40, 0];
    let a = select_invoke_args(&data, &slots, true);
    assert_eq!((a.instance, a.memid, a.flags, a.disp_params), (0x10, 6, 4, 0x20));
    // memid and instance swapped, no flags
    let slots = [0, 0, 5, 0x10, 0x20, 0x30, 0, 0x50, 0];
    let a = select_invoke_args(&data, &slots, false);
    assert_eq!((a.instance, a.memid, a.flags, a.disp_params, a.arg_err), (0x10, 5, 0, 0x20, 0x50));

    assert_eq!(select_invoke_func(&data, 5, 1, 1), Some(0));
    assert_eq!(select_invoke_func(&data, 5, 2, 1), Some(1));
    // no kind given: the fewest inputs to spare, then the most parameters
    assert_eq!(select_invoke_func(&data, 5, 0, 2), Some(1));
    assert_eq!(select_invoke_func(&data, 5, 0, 0), Some(0));
    // a kind that no function has falls back to all of them
    assert_eq!(select_invoke_func(&data, 5, 8, 1), Some(0));
    assert_eq!(select_invoke_func(&data, 7, 0, 0), None);
    assert_eq!(select_invoke_func(&data, 6, 0, 3), None);
}

#[test]
fn expected_inputs_counts() {
    let f = func(1, 1, 0, VT_HRESULT, vec![param(VT_I4, PARAMFLAG_FIN), param(VT_I4 | VT_BYREF, PARAMFLAG_FRETVAL)]);
    assert_eq!(expected_inputs(&f), 1);
    // a single retval parameter on a function with its own return type is
    // taken for an input
    let g = func(1, 1, 0, VT_I4, vec![param(VT_I4, PARAMFLAG_FRETVAL)]);
    assert_eq!(expected_inputs(&g), 1);
    // an HRESULT is no return type of its own: the parameter is the
    // return value
    let h = func(1, 1, 0, VT_HRESULT, vec![param(VT_I4 | VT_BYREF, PARAMFLAG_FOUT | PARAMFLAG_FRETVAL)]);
    assert_eq!(expected_inputs(&h), 0);
    let k = func(1, 1, 0, VT_VOID, vec![param(VT_I4, PARAMFLAG_FRETVAL)]);
    assert_eq!(expected_inputs(&k), 0);
}

#[test]
fn thiscall_detection() {
    let mut vm = create_test_vm();
    let code = 0x6000;
    // mov eax, [ecx+8]; ret
    vm.write_bytes(code, &[0x8B, 0x41, 0x08, 0xC3]).unwrap();
    assert!(detect_thiscall(&vm, code));
    // mov eax, [esp+4] first: takes `this` from the stack
    vm.write_bytes(code, &[0x8B, 0x44, 0x24, 0x04, 0x8B, 0x41, 0x08, 0xC3]).unwrap();
    assert!(!detect_thiscall(&vm, code));
    // push ebp; mov ebp, esp; mov eax, [ebp+8]
    vm.write_bytes(code, &[0x55, 0x8B, 0xEC, 0x8B, 0x45, 0x08, 0x8B, 0x41, 0x08]).unwrap();
    assert!(!detect_thiscall(&vm, code));
    // mov eax, ecx (register operand): not a memory use of ECX
    vm.write_bytes(code, &[0x90, 0x90, 0x90, 0x90, 0x90, 0x90, 0x8B, 0xC1, 0xC3]).unwrap();
    assert!(!detect_thiscall(&vm, code));
}

fn variant(vm: &mut Vm, at: u32, vt: u16, value: u32) {
    vm.write_u16(at, vt).unwrap();
    vm.write_u16(at + 2, 0).unwrap();
    vm.write_u32(at + 4, 0).unwrap();
    vm.write_u32(at + 8, value).unwrap();
    vm.write_u32(at + 12, 0).unwrap();
}

#[test]
fn variant_arguments() {
    let mut vm = create_test_vm();
    let v = 0x6000;
    variant(&mut vm, v, VT_I4, 7);
    assert_eq!(read_variant_arg(&vm, v, VT_I4), Ok(7));
    assert_eq!(read_variant_arg(&vm, v, VT_BSTR), Err(VmError::InvalidConfig("variant type mismatch")));
    assert_eq!(read_variant_arg(&vm, 0, VT_I4), Err(VmError::InvalidConfig("variant pointer is null")));
    // a reference given for a value is followed
    vm.write_u32(0x6100, 99).unwrap();
    variant(&mut vm, v, VT_I4 | VT_BYREF, 0x6100);
    assert_eq!(read_variant_arg(&vm, v, VT_I4), Ok(99));
    assert_eq!(read_variant_arg(&vm, v, VT_I4 | VT_BYREF), Ok(0x6100));
    variant(&mut vm, v, VT_I4, 0x6100);
    assert_eq!(read_variant_arg(&vm, v, VT_I4 | VT_BYREF), Err(VmError::InvalidConfig("expected byref variant")));
    variant(&mut vm, v, VT_VARIANT | VT_BYREF, 0x6100);
    assert_eq!(read_variant_arg(&vm, v, VT_I4), Err(VmError::InvalidConfig("unsupported byref variant")));

    let dest = 0x6200;
    assert!(write_variant_value(&mut vm, dest, VT_I4 | VT_BYREF, 5).is_ok());
    assert_eq!(vm.read_u16(dest).unwrap(), VT_I4);
    assert_eq!(vm.read_u32(dest + 8).unwrap(), 5);
    assert_eq!(write_variant_value(&mut vm, dest, VT_VARIANT, 5), Err(VmError::InvalidConfig("unsupported variant type")));
}

#[test]
fn invoke_values_from_dispparams() {
    let mut vm = create_test_vm();
    let f = func(1, 1, 0, VT_HRESULT, vec![param(VT_I4, PARAMFLAG_FIN), param(VT_I4, PARAMFLAG_FIN), param(VT_I4 | VT_BYREF, PARAMFLAG_FOUT | PARAMFLAG_FRETVAL)]);
    let args = 0x6000;
    let disp = 0x6100;
    // the arguments come last first
    variant(&mut vm, args, VT_I4, 20);
    variant(&mut vm, args + 16, VT_I4, 10);
    vm.write_u32(disp, args).unwrap();
    vm.write_u32(disp + 8, 2).unwrap();
    let arg_err = 0x6200;
    let v = build_invoke_values(&mut vm, &f, disp, arg_err).ok().unwrap();
    assert_eq!(v.values[0], 10);
    assert_eq!(v.values[1], 20);
    assert_ne!(v.values[2], 0);
    assert_eq!(vm.read_u32(v.values[2]).unwrap(), 0);
    assert_eq!(v.retval_param, Some((2, VT_I4 | VT_BYREF)));
    assert_eq!(v.out_params.len(), 1);
    assert_eq!(v.out_params[0].index, 2);
    assert_eq!(v.out_params[0].ptr, v.values[2]);

    // one argument: the second input gets its default, 0
    vm.write_u32(disp + 8, 1).unwrap();
    let v = build_invoke_values(&mut vm, &f, disp, arg_err).ok().unwrap();
    assert_eq!((v.values[0], v.values[1]), (20, 0));

    // more arguments than parameters
    vm.write_u32(disp + 8, 4).unwrap();
    assert_eq!(build_invoke_values(&mut vm, &f, disp, arg_err).err(), Some(DISP_E_BADPARAMCOUNT));
    assert_eq!(vm.read_u32(arg_err).unwrap(), 4);

    // an argument of the wrong type: its index is noted
    vm.write_u32(disp + 8, 2).unwrap();
    variant(&mut vm, args, VT_BSTR, 0);
    assert_eq!(build_invoke_values(&mut vm, &f, disp, arg_err).err(), Some(DISP_E_TYPEMISMATCH));
    assert_eq!(vm.read_u32(arg_err).unwrap(), 0);
}

#[test]
fn invoke_prepares_the_call_and_stores_the_result() {
    let (mut vm, ti) = typeinfo_setup();
    // an object whose vtable entry at 28 is a routine taking `this` from the stack
    let code = 0x6800;
    vm.write_bytes(code, &[0x8B, 0x44, 0x24, 0x04, 0xC3]).unwrap();
    let vtable = 0x6900;
    vm.write_u32(vtable + 28, code).unwrap();
    let instance = 0x6A00;
    vm.write_u32(instance, vtable).unwrap();
    let args = 0x6B00;
    variant(&mut vm, args, VT_I4, 42);
    let disp = 0x6C00;
    vm.write_u32(disp, args).unwrap();
    vm.write_u32(disp + 8, 1).unwrap();
    let result = 0x6D00;
    let arg_err = 0x6E00;
    vm.write_u32(arg_err, 0x1234).unwrap();
    let sp = vm.stack_top - 0x40;
    frame(&mut vm, sp, &[ti, instance, 1, 1, disp, result, 0, arg_err]);
    let call = match invoke_prepare(&mut vm, sp) {
        InvokeStep::Call(c) => c,
        InvokeStep::Done(code) => panic!("no call: {code:#x}"),
    };
    assert_eq!(call.entry, code);
    assert_eq!(call.instance, instance);
    assert!(!call.thiscall);
    assert_eq!(call.args.len(), 2);
    assert_eq!(call.args[0], 42);
    let retval_ptr = call.args[1];
    // the routine stores its result in the retval buffer and returns S_OK
    vm.write_u32(retval_ptr, 77).unwrap();
    assert_eq!(invoke_finish(&mut vm, call, Some(S_OK)), S_OK);
    assert_eq!(vm.read_u16(result).unwrap(), VT_I4);
    assert_eq!(vm.read_u32(result + 8).unwrap(), 77);
    assert_eq!(vm.read_u32(arg_err).unwrap(), 0);
    assert_eq!(vm.com.last_out_params.len(), 1);

    // an unknown member
    frame(&mut vm, sp, &[ti, instance, 9, 1, disp, result, 0, arg_err]);
    assert!(matches!(invoke_prepare(&mut vm, sp), InvokeStep::Done(DISP_E_MEMBERNOTFOUND)));
    assert_eq!(vm.com.last_out_params.len(), 0);
    // an object without a usable vtable
    frame(&mut vm, sp, &[ti, 0x5000, 1, 1, disp, result, 0, arg_err]);
    assert!(matches!(invoke_prepare(&mut vm, sp), InvokeStep::Done(E_NOTIMPL)));
    // no ITypeInfo object
    frame(&mut vm, sp, &[0x5000, instance, 1, 1, disp, result, 0, arg_err]);
    assert!(matches!(invoke_prepare(&mut vm, sp), InvokeStep::Done(DISP_E_MEMBERNOTFOUND)));
}

#[test]
fn invoke_finish_without_a_call() {
    let (mut vm, ti) = typeinfo_setup();
    let _ = ti;
    let call = pe_vm::vm::windows::oleaut32::invoke::InvokeCall {
        entry: 0x6800,
        instance: 0x6A00,
        thiscall: false,
        args: vec![],
        out_params: vec![],
        retval_param: None,
        ret_vt: VT_I4,
        result_ptr: 0x6D00,
        arg_err: 0,
    };
    assert_eq!(invoke_finish(&mut vm, call, None), E_NOTIMPL);
    let call = pe_vm::vm::windows::oleaut32::invoke::InvokeCall {
        entry: 0x6800,
        instance: 0x6A00,
        thiscall: false,
        args: vec![],
        out_params: vec![],
        retval_param: None,
        ret_vt: VT_I4,
        result_ptr: 0x6D00,
        arg_err: 0,
    };
    // a function returning a value: S_OK, the value stored as its type
    assert_eq!(invoke_finish(&mut vm, call, Some(5)), S_OK);
    assert_eq!(vm.read_u32(0x6D08).unwrap(), 5);
}
