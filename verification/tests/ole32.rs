use pe_vm::vm::windows::ole32::{
    clsid_from_progid, clsid_from_string, co_create_instance, co_get_class_object, co_task_mem_alloc,
    co_task_mem_free, ole_initialize, ole_reg_get_user_type, ole_uninitialize, read_guid, string_from_guid2,
    CLASS_E_CLASSNOTAVAILABLE, CO_E_CLASSSTRING, E_INVALIDARG, S_OK,
};
use pe_vm::vm::windows::oleaut32::bstr::read_utf16_z;
use pe_vm::registry::store::Registry;
use pe_vm::registry::value::RegistryValue;
use pe_vm::vm::Vm;

fn create_test_vm() -> Vm {
    Vm::new(0x10000, 0x1000, 0x2000, 0x8000)
}

fn write_wide(vm: &mut Vm, ptr: u32, text: &str) {
    let mut addr = ptr;
    for unit in text.encode_utf16() {
        vm.write_u16(addr, unit).unwrap();
        addr += 2;
    }
    vm.write_u16(addr, 0).unwrap();
}

#[test]
fn test_co_create_instance_returns_class_not_available() {
    let mut vm = create_test_vm();
    let result = co_create_instance(&mut vm, 0);
    assert_eq!(result, CLASS_E_CLASSNOTAVAILABLE);
}

#[test]
fn test_co_get_class_object_returns_class_not_available() {
    let mut vm = create_test_vm();
    let result = co_get_class_object(&mut vm, 0);
    assert_eq!(result, CLASS_E_CLASSNOTAVAILABLE);
}

#[test]
fn test_co_task_mem_alloc_returns_pointer() {
    let mut vm = create_test_vm();
    let stack = vm.stack_top - 8;
    vm.write_u32(stack + 4, 100).unwrap();
    let result = co_task_mem_alloc(&mut vm, stack);
    assert_ne!(result, 0);
}

#[test]
fn test_co_task_mem_free_returns_zero() {
    let mut vm = create_test_vm();
    let result = co_task_mem_free(&mut vm, 0);
    assert_eq!(result, 0);
}

#[test]
fn test_ole_initialize_returns_s_ok() {
    let mut vm = create_test_vm();
    let result = ole_initialize(&mut vm, 0);
    assert_eq!(result, S_OK);
}

#[test]
fn test_ole_uninitialize_returns_zero() {
    let mut vm = create_test_vm();
    let result = ole_uninitialize(&mut vm, 0);
    assert_eq!(result, 0);
}

#[test]
fn test_clsid_from_string_null_ptr_returns_invalid_arg() {
    let mut vm = create_test_vm();
    let stack = vm.stack_top - 12;
    vm.write_u32(stack + 4, 0).unwrap();
    vm.write_u32(stack + 8, 0).unwrap();
    let result = clsid_from_string(&mut vm, stack);
    assert_eq!(result, E_INVALIDARG);
}

#[test]
fn test_string_from_guid2_null_ptr_returns_zero() {
    let mut vm = create_test_vm();
    let stack = vm.stack_top - 16;
    vm.write_u32(stack + 4, 0).unwrap();
    vm.write_u32(stack + 8, 0).unwrap();
    vm.write_u32(stack + 12, 0).unwrap();
    let result = string_from_guid2(&mut vm, stack);
    assert_eq!(result, 0);
}

#[test]
fn mod_test_read_utf16_z_empty() {
    let mut vm = create_test_vm();
    let ptr = vm.heap_start;
    let _ = vm.write_u16(ptr, 0);
    let result = read_utf16_z(&vm, ptr).unwrap();
    assert!(result.is_empty());
}

#[test]
fn test_read_guid() {
    let mut vm = create_test_vm();
    let ptr = vm.heap_start;
    let guid_bytes: [u8; 16] = [1, 2, 3, 4, 5, 6, 7, 8, 9, 10, 11, 12, 13, 14, 15, 16];
    vm.write_bytes(ptr, &guid_bytes).unwrap();
    let result = read_guid(&vm, ptr).unwrap();
    assert_eq!(result, guid_bytes.to_vec());
}

#[test]
fn clsid_from_string_stores_guid_bytes() {
    let mut vm = create_test_vm();
    let stack = vm.stack_top - 12;
    let text = vm.heap_start + 0x100;
    let out = vm.heap_start + 0x200;
    write_wide(&mut vm, text, "{00020400-0000-0000-C000-000000000046}");
    vm.write_u32(stack + 4, text).unwrap();
    vm.write_u32(stack + 8, out).unwrap();
    assert_eq!(clsid_from_string(&mut vm, stack), S_OK);
    let bytes = read_guid(&vm, out).unwrap();
    assert_eq!(bytes, vec![0x00, 0x04, 0x02, 0x00, 0, 0, 0, 0, 0xC0, 0, 0, 0, 0, 0, 0, 0x46]);
}

#[test]
fn clsid_from_string_rejects_text() {
    let mut vm = create_test_vm();
    let stack = vm.stack_top - 12;
    let text = vm.heap_start + 0x100;
    let out = vm.heap_start + 0x200;
    write_wide(&mut vm, text, "not a guid");
    vm.write_u32(stack + 4, text).unwrap();
    vm.write_u32(stack + 8, out).unwrap();
    assert_eq!(clsid_from_string(&mut vm, stack), CO_E_CLASSSTRING);
}

#[test]
fn string_from_guid2_writes_registry_form() {
    let mut vm = create_test_vm();
    let stack = vm.stack_top - 16;
    let guid = vm.heap_start + 0x100;
    let out = vm.heap_start + 0x200;
    vm.write_bytes(guid, &[0x00, 0x04, 0x02, 0x00, 0, 0, 0, 0, 0xC0, 0, 0, 0, 0, 0, 0, 0x46]).unwrap();
    vm.write_u32(stack + 4, guid).unwrap();
    vm.write_u32(stack + 8, out).unwrap();
    vm.write_u32(stack + 12, 39).unwrap();
    assert_eq!(string_from_guid2(&mut vm, stack), 39);
    let units = read_utf16_z(&vm, out).unwrap();
    assert_eq!(String::from_utf16(&units).unwrap(), "{00020400-0000-0000-C000-000000000046}");
}

#[test]
fn string_from_guid2_needs_room_for_nul() {
    let mut vm = create_test_vm();
    let stack = vm.stack_top - 16;
    let guid = vm.heap_start + 0x100;
    let out = vm.heap_start + 0x200;
    vm.write_u32(stack + 4, guid).unwrap();
    vm.write_u32(stack + 8, out).unwrap();
    vm.write_u32(stack + 12, 38).unwrap();
    assert_eq!(string_from_guid2(&mut vm, stack), 0);
}

#[test]
fn clsid_from_progid_reads_registry() {
    let mut vm = create_test_vm();
    let mut registry = Registry::with_defaults();
    registry
        .set("HKCR\\My.Object\\CLSID", RegistryValue::String("{00020400-0000-0000-C000-000000000046}".to_string()))
        .unwrap();
    vm.registry = Some(registry);
    let stack = vm.stack_top - 12;
    let text = vm.heap_start + 0x100;
    let out = vm.heap_start + 0x200;
    write_wide(&mut vm, text, "My.Object");
    vm.write_u32(stack + 4, text).unwrap();
    vm.write_u32(stack + 8, out).unwrap();
    assert_eq!(clsid_from_progid(&mut vm, stack), S_OK);
    assert_eq!(read_guid(&vm, out).unwrap()[0], 0x00);
    assert_eq!(read_guid(&vm, out).unwrap()[1], 0x04);

    write_wide(&mut vm, text, "Other.Object");
    assert_eq!(clsid_from_progid(&mut vm, stack), CLASS_E_CLASSNOTAVAILABLE);
}

#[test]
fn ole_reg_get_user_type_clears_out() {
    let mut vm = create_test_vm();
    let stack = vm.stack_top - 16;
    let out = vm.heap_start;
    vm.write_u32(out, 7).unwrap();
    vm.write_u32(stack + 12, out).unwrap();
    assert_eq!(ole_reg_get_user_type(&mut vm, stack), S_OK);
    assert_eq!(vm.read_u32(out).unwrap(), 0);
}
