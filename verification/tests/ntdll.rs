use pe_vm::vm::windows::ntdll::slist::rtl_initialize_slist_head;
use pe_vm::vm::Vm;

fn create_test_vm() -> Vm {
    Vm::new(0x10000, 0x1000, 0x2000, 0x8000)
}

#[test]
fn test_rtl_initialize_slist_head_null_header() {
    let mut vm = create_test_vm();
    let stack = vm.stack_top - 8;
    vm.write_u32(stack + 4, 0).unwrap();
    let result = rtl_initialize_slist_head(&mut vm, stack);
    assert_eq!(result, 0);
}

#[test]
fn test_rtl_initialize_slist_head_clears_header() {
    let mut vm = create_test_vm();
    let stack = vm.stack_top - 8;
    let header = vm.heap_start;
    vm.write_u32(header, 0xDEADBEEF).unwrap();
    vm.write_u32(header + 4, 0xCAFEBABE).unwrap();
    vm.write_u32(stack + 4, header).unwrap();
    let result = rtl_initialize_slist_head(&mut vm, stack);
    assert_eq!(result, 0);
    assert_eq!(vm.read_u32(header).unwrap(), 0);
    assert_eq!(vm.read_u32(header + 4).unwrap(), 0);
}
