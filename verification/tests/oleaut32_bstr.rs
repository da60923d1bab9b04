use pe_vm::vm::windows::oleaut32::bstr::{
    alloc_bstr, alloc_bstr_from_utf16, read_bstr, read_utf16_z, sys_alloc_string, sys_alloc_string_byte_len,
    sys_alloc_string_len, sys_free_string, sys_string_byte_len, sys_string_len,
};
use pe_vm::vm::{Os, Vm};

fn create_test_vm() -> Vm {
    Vm::new(0x10000, 0x1000, 0x2000, 0x8000)
}

#[test]
fn test_alloc_bstr() {
    let mut vm = create_test_vm();
    let ptr = alloc_bstr(&mut vm, "Hello").unwrap();
    assert_ne!(ptr, 0);
    let text = read_bstr(&vm, ptr).unwrap();
    assert_eq!(text, "Hello");
}

#[test]
fn test_alloc_bstr_empty() {
    let mut vm = create_test_vm();
    let ptr = alloc_bstr(&mut vm, "").unwrap();
    assert_ne!(ptr, 0);
    let text = read_bstr(&vm, ptr).unwrap();
    assert_eq!(text, "");
}

#[test]
fn test_read_bstr_null() {
    let vm = create_test_vm();
    let text = read_bstr(&vm, 0).unwrap();
    assert_eq!(text, "");
}

#[test]
fn test_read_bstr_invalid_ptr() {
    let vm = create_test_vm();
    let result = read_bstr(&vm, 2);
    assert!(result.is_err());
}

#[test]
fn test_alloc_bstr_from_utf16() {
    let mut vm = create_test_vm();
    let utf16: Vec<u16> = "Test".encode_utf16().collect();
    let ptr = alloc_bstr_from_utf16(&mut vm, &utf16).unwrap();
    assert_ne!(ptr, 0);
    let text = read_bstr(&vm, ptr).unwrap();
    assert_eq!(text, "Test");
}

#[test]
fn test_read_utf16_z() {
    let mut vm = create_test_vm();
    let ptr = vm.heap_start;
    vm.write_u16(ptr, 0x0041).unwrap();
    vm.write_u16(ptr + 2, 0x0042).unwrap();
    vm.write_u16(ptr + 4, 0).unwrap();
    let result = read_utf16_z(&vm, ptr).unwrap();
    assert_eq!(result, vec![0x0041, 0x0042]);
}

#[test]
fn bstr_test_read_utf16_z_empty() {
    let mut vm = create_test_vm();
    let ptr = vm.heap_start;
    vm.write_u16(ptr, 0).unwrap();
    let result = read_utf16_z(&vm, ptr).unwrap();
    assert!(result.is_empty());
}

#[test]
fn test_sys_alloc_string_null() {
    let mut vm = create_test_vm();
    let stack = vm.stack_top - 8;
    vm.write_u32(stack + 4, 0).unwrap();
    let result = sys_alloc_string(&mut vm, stack);
    assert_eq!(result, 0);
}

#[test]
fn test_sys_free_string() {
    let mut vm = create_test_vm();
    let result = sys_free_string(&mut vm, 0);
    assert_eq!(result, 0);
}

#[test]
fn test_sys_string_len_null() {
    let mut vm = create_test_vm();
    let stack = vm.stack_top - 8;
    vm.write_u32(stack + 4, 0).unwrap();
    let result = sys_string_len(&mut vm, stack);
    assert_eq!(result, 0);
}

#[test]
fn test_sys_string_len() {
    let mut vm = create_test_vm();
    let bstr = alloc_bstr(&mut vm, "Hello").unwrap();
    let stack = vm.stack_top - 8;
    vm.write_u32(stack + 4, bstr).unwrap();
    let result = sys_string_len(&mut vm, stack);
    assert_eq!(result, 5);
}

#[test]
fn test_sys_string_byte_len_null() {
    let mut vm = create_test_vm();
    let stack = vm.stack_top - 8;
    vm.write_u32(stack + 4, 0).unwrap();
    let result = sys_string_byte_len(&mut vm, stack);
    assert_eq!(result, 0);
}

#[test]
fn test_sys_string_byte_len() {
    let mut vm = create_test_vm();
    let bstr = alloc_bstr(&mut vm, "Hello").unwrap();
    let stack = vm.stack_top - 8;
    vm.write_u32(stack + 4, bstr).unwrap();
    let result = sys_string_byte_len(&mut vm, stack);
    assert_eq!(result, 10);
}

#[test]
fn bstr_layout_is_prefix_payload_nul() {
    let mut vm = create_test_vm();
    let ptr = alloc_bstr(&mut vm, "Hi").unwrap();
    // heap block header at 0x2000, BSTR length at 0x2004, text at 0x2008
    assert_eq!(ptr, 0x2008);
    assert_eq!(vm.heap_size(ptr - 4).unwrap(), 4 + 4 + 2);
    assert_eq!(vm.read_u32(ptr - 4).unwrap(), 4);
    assert_eq!(vm.read_u16(ptr).unwrap(), 'H' as u16);
    assert_eq!(vm.read_u16(ptr + 2).unwrap(), 'i' as u16);
    assert_eq!(vm.read_u16(ptr + 4).unwrap(), 0);
    assert_eq!(vm.heap_cursor, 0x2000 + 4 + 4 + 4 + 2);
}

#[test]
fn sys_alloc_string_copies_wide_text() {
    let mut vm = create_test_vm();
    let src = vm.heap_start + 0x400;
    vm.write_u16(src, 'O' as u16).unwrap();
    vm.write_u16(src + 2, 'K' as u16).unwrap();
    vm.write_u16(src + 4, 0).unwrap();
    vm.heap_cursor = vm.heap_start + 0x800;
    let stack = vm.stack_top - 8;
    vm.write_u32(stack + 4, src).unwrap();
    let bstr = sys_alloc_string(&mut vm, stack);
    assert_eq!(read_bstr(&vm, bstr).unwrap(), "OK");
}

#[test]
fn sys_alloc_string_len_null_source_gives_zeros() {
    let mut vm = create_test_vm();
    let stack = vm.stack_top - 12;
    vm.write_u32(stack + 4, 0).unwrap();
    vm.write_u32(stack + 8, 3).unwrap();
    let bstr = sys_alloc_string_len(&mut vm, stack);
    assert_eq!(vm.read_u32(bstr - 4).unwrap(), 6);
    assert_eq!(vm.read_u16(bstr + 2).unwrap(), 0);
}

#[test]
fn sys_alloc_string_byte_len_copies_bytes() {
    let mut vm = create_test_vm();
    let src = vm.heap_start + 0x400;
    vm.write_bytes(src, b"abc").unwrap();
    vm.heap_cursor = vm.heap_start + 0x800;
    let stack = vm.stack_top - 12;
    vm.write_u32(stack + 4, src).unwrap();
    vm.write_u32(stack + 8, 3).unwrap();
    let bstr = sys_alloc_string_byte_len(&mut vm, stack);
    assert_eq!(vm.read_u32(bstr - 4).unwrap(), 3);
    vm.os = Os::Unix;
    assert_eq!(read_bstr(&vm, bstr).unwrap(), "abc");
}

#[test]
fn alloc_fails_when_heap_is_full() {
    let mut vm = Vm::new(0x10000, 0x1000, 0x2000, 0x2008);
    assert!(alloc_bstr(&mut vm, "too long for the heap").is_err());
    assert_eq!(vm.heap_cursor, 0x2000);
}
