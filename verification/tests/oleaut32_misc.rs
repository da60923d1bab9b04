use pe_vm::vm::windows::oleaut32::bstr::{alloc_bstr, read_bstr};
use pe_vm::vm::windows::oleaut32::constants::{
    DISP_E_BADPARAMCOUNT, DISP_E_MEMBERNOTFOUND, DISP_E_TYPEMISMATCH, E_INVALIDARG, E_NOINTERFACE, E_NOTIMPL,
    IID_ITYPEINFO, IID_ITYPEINFO2, IID_ITYPELIB, IID_IUNKNOWN, PARAMFLAG_FIN, PARAMFLAG_FOUT, PARAMFLAG_FRETVAL,
    S_OK, TYPE_E_LIBNOTREGISTERED, VARIANT_SIZE, VT_ARRAY, VT_BSTR, VT_BYREF, VT_EMPTY, VT_HRESULT, VT_I1, VT_I4,
    VT_INT, VT_NULL, VT_UI1, VT_UI4, VT_UINT, VT_USERDEFINED, VT_VARIANT, VT_VOID,
};
use pe_vm::vm::windows::oleaut32::convert::{var_bstr_cat, var_ui4_from_str};
use pe_vm::vm::windows::oleaut32::guid::{guid_matches, read_guid_bytes};
use pe_vm::vm::windows::oleaut32::safearray::{safe_array_access_data, safe_array_create, safe_array_unaccess_data};
use pe_vm::vm::windows::oleaut32::time::{system_time_from_parts, system_time_to_variant_parts, days_from_civil, civil_from_days};
use pe_vm::vm::windows::oleaut32::variant::{variant_change_type, variant_init};
use pe_vm::vm::Vm;

fn create_test_vm() -> Vm {
    Vm::new(0x10000, 0x1000, 0x2000, 0x8000)
}

#[test]
fn test_error_codes() {
    assert_eq!(S_OK, 0);
    assert_eq!(E_INVALIDARG, 0x8007_0057);
    assert_eq!(E_NOTIMPL, 0x8000_4001);
    assert_eq!(E_NOINTERFACE, 0x8000_4002);
    assert_eq!(DISP_E_MEMBERNOTFOUND, 0x8002_0003);
    assert_eq!(DISP_E_TYPEMISMATCH, 0x8002_0005);
    assert_eq!(DISP_E_BADPARAMCOUNT, 0x8002_000E);
    assert_eq!(TYPE_E_LIBNOTREGISTERED, 0x8002_801D);
}

#[test]
fn test_variant_types() {
    assert_eq!(VT_EMPTY, 0);
    assert_eq!(VT_NULL, 1);
    assert_eq!(VT_I4, 3);
    assert_eq!(VT_BSTR, 8);
    assert_eq!(VT_VARIANT, 12);
    assert_eq!(VT_I1, 16);
    assert_eq!(VT_UI1, 17);
    assert_eq!(VT_UI4, 19);
    assert_eq!(VT_INT, 22);
    assert_eq!(VT_UINT, 23);
    assert_eq!(VT_VOID, 24);
    assert_eq!(VT_HRESULT, 25);
    assert_eq!(VT_ARRAY, 0x2000);
    assert_eq!(VT_BYREF, 0x4000);
    assert_eq!(VT_USERDEFINED, 0x1D);
}

#[test]
fn test_variant_size() {
    assert_eq!(VARIANT_SIZE, 16);
}

#[test]
fn test_param_flags() {
    assert_eq!(PARAMFLAG_FIN, 0x1);
    assert_eq!(PARAMFLAG_FOUT, 0x2);
    assert_eq!(PARAMFLAG_FRETVAL, 0x8);
}

#[test]
fn test_interface_ids() {
    assert_eq!(IID_IUNKNOWN, "{00000000-0000-0000-C000-000000000046}");
    assert_eq!(IID_ITYPELIB, "{00020402-0000-0000-C000-000000000046}");
    assert_eq!(IID_ITYPEINFO, "{00020401-0000-0000-C000-000000000046}");
    assert_eq!(IID_ITYPEINFO2, "{00020412-0000-0000-C000-000000000046}");
}

#[test]
fn test_var_ui4_from_str_null_out() {
    let mut vm = create_test_vm();
    let stack = vm.stack_top - 20;
    vm.write_u32(stack + 16, 0).unwrap();
    let result = var_ui4_from_str(&mut vm, stack);
    assert_eq!(result, E_INVALIDARG);
}

#[test]
fn test_var_ui4_from_str_valid_number() {
    let mut vm = create_test_vm();
    let stack = vm.stack_top - 20;
    let out_ptr = vm.heap_start;
    let bstr = alloc_bstr(&mut vm, "42").unwrap();
    vm.write_u32(stack + 4, bstr).unwrap();
    vm.write_u32(stack + 16, out_ptr).unwrap();
    let result = var_ui4_from_str(&mut vm, stack);
    assert_eq!(result, S_OK);
    assert_eq!(vm.read_u32(out_ptr).unwrap(), 42);
}

#[test]
fn test_var_ui4_from_str_invalid_number() {
    let mut vm = create_test_vm();
    let stack = vm.stack_top - 20;
    let out_ptr = vm.heap_start;
    let bstr = alloc_bstr(&mut vm, "abc").unwrap();
    vm.write_u32(stack + 4, bstr).unwrap();
    vm.write_u32(stack + 16, out_ptr).unwrap();
    let result = var_ui4_from_str(&mut vm, stack);
    assert_eq!(result, DISP_E_TYPEMISMATCH);
}

#[test]
fn test_var_bstr_cat_null_out() {
    let mut vm = create_test_vm();
    let stack = vm.stack_top - 16;
    vm.write_u32(stack + 12, 0).unwrap();
    let result = var_bstr_cat(&mut vm, stack);
    assert_eq!(result, E_INVALIDARG);
}

#[test]
fn test_var_bstr_cat_success() {
    let mut vm = create_test_vm();
    let stack = vm.stack_top - 16;
    let out_ptr = vm.heap_start;
    let left = alloc_bstr(&mut vm, "Hello").unwrap();
    let right = alloc_bstr(&mut vm, "World").unwrap();
    vm.write_u32(stack + 4, left).unwrap();
    vm.write_u32(stack + 8, right).unwrap();
    vm.write_u32(stack + 12, out_ptr).unwrap();
    let result = var_bstr_cat(&mut vm, stack);
    assert_eq!(result, S_OK);
    let result_ptr = vm.read_u32(out_ptr).unwrap();
    let result_str = read_bstr(&vm, result_ptr).unwrap();
    assert_eq!(result_str, "HelloWorld");
}

#[test]
fn test_var_bstr_cat_null_inputs() {
    let mut vm = create_test_vm();
    let stack = vm.stack_top - 16;
    let out_ptr = vm.heap_start;
    vm.write_u32(stack + 4, 0).unwrap();
    vm.write_u32(stack + 8, 0).unwrap();
    vm.write_u32(stack + 12, out_ptr).unwrap();
    let result = var_bstr_cat(&mut vm, stack);
    assert_eq!(result, S_OK);
    let result_ptr = vm.read_u32(out_ptr).unwrap();
    let result_str = read_bstr(&vm, result_ptr).unwrap();
    assert_eq!(result_str, "");
}

#[test]
fn test_read_guid_bytes() {
    let mut vm = create_test_vm();
    let ptr = vm.heap_start;
    let guid_bytes: [u8; 16] = [1, 2, 3, 4, 5, 6, 7, 8, 9, 10, 11, 12, 13, 14, 15, 16];
    vm.write_bytes(ptr, &guid_bytes).unwrap();
    let result = read_guid_bytes(&vm, ptr).unwrap();
    assert_eq!(result, guid_bytes.to_vec());
}

#[test]
fn test_guid_matches_valid() {
    let mut vm = create_test_vm();
    let ptr = vm.heap_start;
    let guid_bytes: [u8; 16] = [0x00, 0x00, 0x00, 0x00, 0x00, 0x00, 0x00, 0x00, 0xC0, 0x00, 0x00, 0x00, 0x00, 0x00, 0x00, 0x46];
    vm.write_bytes(ptr, &guid_bytes).unwrap();
    assert!(guid_matches(&vm, ptr, "{00000000-0000-0000-C000-000000000046}"));
}

#[test]
fn test_guid_matches_mismatch() {
    let mut vm = create_test_vm();
    let ptr = vm.heap_start;
    let guid_bytes: [u8; 16] = [0; 16];
    vm.write_bytes(ptr, &guid_bytes).unwrap();
    assert!(!guid_matches(&vm, ptr, "{00000001-0000-0000-0000-000000000000}"));
}

#[test]
fn test_guid_matches_invalid_string() {
    let vm = create_test_vm();
    assert!(!guid_matches(&vm, 0, "not-a-guid"));
}

#[test]
fn test_safe_array_create_returns_null() {
    let mut vm = create_test_vm();
    let result = safe_array_create(&mut vm, 0);
    assert_eq!(result, 0);
}

#[test]
fn test_safe_array_access_data_returns_s_ok() {
    let mut vm = create_test_vm();
    let result = safe_array_access_data(&mut vm, 0);
    assert_eq!(result, S_OK);
}

#[test]
fn test_safe_array_unaccess_data_returns_s_ok() {
    let mut vm = create_test_vm();
    let result = safe_array_unaccess_data(&mut vm, 0);
    assert_eq!(result, S_OK);
}

#[test]
fn test_system_time_to_variant_time_null_out() {
    let mut vm = create_test_vm();
    let stack = vm.stack_top - 12;
    vm.write_u32(stack + 8, 0).unwrap();
    let result = system_time_to_variant_parts(&vm, stack);
    assert!(result.is_none());
}

#[test]
fn test_system_time_to_variant_time_base() {
    let mut vm = create_test_vm();
    let stack = vm.stack_top - 12;
    let out_ptr = vm.heap_start;
    vm.write_u32(stack + 8, out_ptr).unwrap();
    let time_ptr = vm.heap_start + 0x40;
    vm.write_u32(stack + 4, time_ptr).unwrap();
    vm.write_u16(time_ptr, 1899).unwrap();
    vm.write_u16(time_ptr + 2, 12).unwrap();
    vm.write_u16(time_ptr + 6, 30).unwrap();
    let parts = system_time_to_variant_parts(&vm, stack).unwrap();
    assert_eq!(parts.out, out_ptr);
    let value = parts.days as f64 + (parts.seconds as f64 + parts.millis as f64 / 1000.0) / 86_400.0;
    assert!((value - 0.0).abs() < 1e-9);
}

#[test]
fn system_time_parts_of_a_later_date() {
    let mut vm = create_test_vm();
    let stack = vm.stack_top - 12;
    let time_ptr = vm.heap_start + 0x40;
    vm.write_u32(stack + 4, time_ptr).unwrap();
    vm.write_u32(stack + 8, vm.heap_start).unwrap();
    vm.write_u16(time_ptr, 2000).unwrap();
    vm.write_u16(time_ptr + 2, 1).unwrap();
    vm.write_u16(time_ptr + 6, 1).unwrap();
    vm.write_u16(time_ptr + 8, 12).unwrap();
    vm.write_u16(time_ptr + 14, 500).unwrap();
    let parts = system_time_to_variant_parts(&vm, stack).unwrap();
    assert_eq!(parts.days, 36526);
    assert_eq!(parts.seconds, 12 * 3600);
    assert_eq!(parts.millis, 500);
    vm.write_u16(time_ptr + 6, 32).unwrap();
    assert!(system_time_to_variant_parts(&vm, stack).is_none());
}

#[test]
fn calendar_round_trip() {
    let days = days_from_civil(2024, 2, 29);
    assert_eq!(civil_from_days(days), (2024, 2, 29));
    assert_eq!(days_from_civil(1970, 1, 1), 0);
    assert_eq!(days_from_civil(1899, 12, 30), -25569);
}

#[test]
fn system_time_round_trip() {
    let mut vm = create_test_vm();
    let stack = vm.stack_top - 12;
    let time_ptr = vm.heap_start + 0x40;
    vm.write_u32(stack + 4, time_ptr).unwrap();
    vm.write_u32(stack + 8, vm.heap_start).unwrap();
    let fields: [u16; 8] = [1987, 6, 0, 15, 23, 59, 58, 999];
    for (i, f) in fields.iter().enumerate() {
        vm.write_u16(time_ptr + 2 * i as u32, *f).unwrap();
    }
    let parts = system_time_to_variant_parts(&vm, stack).unwrap();
    let back = system_time_from_parts(parts.days, parts.seconds * 1000 + parts.millis);
    assert_eq!(back[0], 1987);
    assert_eq!(back[1], 6);
    assert_eq!(back[3], 15);
    assert_eq!(&back[4..], &[23, 59, 58, 999]);
    let days = days_from_civil(1600, 3, 1);
    assert_eq!(civil_from_days(days), (1600, 3, 1));
    assert_eq!(civil_from_days(days - 1), (1600, 2, 29));
}

#[test]
fn the_next_day_is_one_day_later() {
    assert_eq!(civil_from_days(days_from_civil(2023, 12, 31) + 1), (2024, 1, 1));
    assert_eq!(civil_from_days(days_from_civil(2024, 2, 28) + 1), (2024, 2, 29));
    assert_eq!(civil_from_days(days_from_civil(2024, 2, 29) + 1), (2024, 3, 1));
    assert_eq!(civil_from_days(days_from_civil(2100, 2, 28) + 1), (2100, 3, 1));
    assert_eq!(civil_from_days(-719_469), (0, 2, 29));
    assert_eq!(civil_from_days(-719_468 - 366), (-1, 3, 1));
    assert_eq!(civil_from_days(-719_468 - 367), (-1, 2, 28));
}

#[test]
fn system_time_from_parts_of_the_base_date() {
    let fields = system_time_from_parts(0, 0);
    assert_eq!(fields, vec![1899, 12, 6, 30, 0, 0, 0, 0]);
    let fields = system_time_from_parts(36526, 3_723_004);
    assert_eq!(fields, vec![2000, 1, 6, 1, 1, 2, 3, 4]);
}

#[test]
fn variant_init_zeroes_sixteen_bytes() {
    let mut vm = create_test_vm();
    let stack = vm.stack_top - 8;
    let v = vm.heap_start;
    vm.write_bytes(v, &[0xAA; 20]).unwrap();
    vm.write_u32(stack + 4, v).unwrap();
    assert_eq!(variant_init(&mut vm, stack), S_OK);
    assert_eq!(vm.read_u32(v + 12).unwrap(), 0);
    assert_eq!(vm.read_u32(v + 16).unwrap(), 0xAAAA_AAAA);
}

#[test]
fn variant_change_type_parses_bstr() {
    let mut vm = create_test_vm();
    let bstr = alloc_bstr(&mut vm, " 17 ").unwrap();
    let src = vm.heap_start + 0x100;
    let dest = vm.heap_start + 0x200;
    vm.write_u16(src, VT_BSTR).unwrap();
    vm.write_u32(src + 8, bstr).unwrap();
    let stack = vm.stack_top - 20;
    vm.write_u32(stack + 4, dest).unwrap();
    vm.write_u32(stack + 8, src).unwrap();
    vm.write_u32(stack + 16, VT_I4 as u32).unwrap();
    assert_eq!(variant_change_type(&mut vm, stack), S_OK);
    assert_eq!(vm.read_u16(dest).unwrap(), VT_I4);
    assert_eq!(vm.read_u32(dest + 8).unwrap(), 17);
    vm.write_u16(src, VT_EMPTY).unwrap();
    assert_eq!(variant_change_type(&mut vm, stack), DISP_E_TYPEMISMATCH);
}
