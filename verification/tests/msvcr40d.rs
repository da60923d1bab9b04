use pe_vm::vm::windows::msvcr40d::format::sprintf;
use pe_vm::vm::windows::msvcr40d::{
    looks_like_ipv4, malloc_impl, memcpy_impl, memset_impl, parse_mode, read_c_string, strcat_impl, strcpy_impl,
    bytes_to_ascii, OpenMode,
};
use pe_vm::vm::Vm;

fn create_test_vm() -> Vm {
    Vm::new(0x10000, 0x1000, 0x2000, 0x8000)
}

fn put_cstr(vm: &mut Vm, ptr: u32, text: &str) {
    let mut bytes = text.as_bytes().to_vec();
    bytes.push(0);
    vm.write_bytes(ptr, &bytes).unwrap();
}

fn call_sprintf(vm: &mut Vm, format: &str, args: &[u32]) -> (u32, String) {
    let dst = vm.heap_start + 0x1000;
    let fmt = vm.heap_start + 0x2000;
    put_cstr(vm, fmt, format);
    let stack = vm.stack_top - 64;
    vm.write_u32(stack + 4, dst).unwrap();
    vm.write_u32(stack + 8, fmt).unwrap();
    for (i, a) in args.iter().enumerate() {
        vm.write_u32(stack + 12 + 4 * i as u32, *a).unwrap();
    }
    let n = sprintf(vm, stack);
    (n, read_c_string(vm, dst))
}

#[test]
fn sprintf_formats_numbers() {
    let mut vm = create_test_vm();
    let (n, text) = call_sprintf(&mut vm, "%d|%u|%x|%X|%c|%%", &[0xFFFF_FFFE, 42, 255, 255, 'A' as u32]);
    assert_eq!(text, "-2|42|ff|FF|A|%");
    assert_eq!(n, 15);
}

#[test]
fn sprintf_skips_flags_width_and_length() {
    let mut vm = create_test_vm();
    let (_, text) = call_sprintf(&mut vm, "[%-08.3ld] [%*d] [%I64u]", &[7, 5, 9, 11]);
    assert_eq!(text, "[7] [9] [11]");
}

#[test]
fn sprintf_pointer_and_string() {
    let mut vm = create_test_vm();
    let s = vm.heap_start + 0x3000;
    put_cstr(&mut vm, s, "abc");
    let (_, text) = call_sprintf(&mut vm, "%s=%p", &[s, 0xBEEF]);
    assert_eq!(text, "abc=0x0000BEEF");
}

#[test]
fn sprintf_unknown_conversion_is_kept() {
    let mut vm = create_test_vm();
    let (_, text) = call_sprintf(&mut vm, "%q and %", &[]);
    assert_eq!(text, "%q and %%");
}

#[test]
fn sprintf_empty_format_writes_nul() {
    let mut vm = create_test_vm();
    let dst = vm.heap_start + 0x1000;
    vm.write_u8(dst, 0x55).unwrap();
    let (n, text) = call_sprintf(&mut vm, "", &[]);
    assert_eq!(n, 0);
    assert_eq!(text, "");
    assert_eq!(vm.read_u8(dst).unwrap(), 0);
}

#[test]
fn strcpy_and_strcat() {
    let mut vm = create_test_vm();
    let a = vm.heap_start;
    let b = vm.heap_start + 0x100;
    put_cstr(&mut vm, b, "world");
    put_cstr(&mut vm, a, "hello ");
    let stack = vm.stack_top - 16;
    vm.write_u32(stack + 4, a).unwrap();
    vm.write_u32(stack + 8, b).unwrap();
    assert_eq!(strcat_impl(&mut vm, stack), a);
    assert_eq!(read_c_string(&vm, a), "hello world");
    assert_eq!(strcpy_impl(&mut vm, stack), a);
    assert_eq!(read_c_string(&vm, a), "world");
}

#[test]
fn memcpy_and_memset() {
    let mut vm = create_test_vm();
    let a = vm.heap_start;
    let b = vm.heap_start + 0x100;
    vm.write_bytes(b, &[1, 2, 3, 4]).unwrap();
    let stack = vm.stack_top - 16;
    vm.write_u32(stack + 4, a).unwrap();
    vm.write_u32(stack + 8, b).unwrap();
    vm.write_u32(stack + 12, 4).unwrap();
    assert_eq!(memcpy_impl(&mut vm, stack), a);
    assert_eq!(vm.read_u32(a).unwrap(), 0x0403_0201);
    vm.write_u32(stack + 8, 0x1FF).unwrap();
    vm.write_u32(stack + 12, 3).unwrap();
    assert_eq!(memset_impl(&mut vm, stack), a);
    assert_eq!(vm.read_u32(a).unwrap(), 0x04FF_FFFF);
}

#[test]
fn malloc_returns_aligned_zeroed_memory() {
    let mut vm = create_test_vm();
    vm.heap_cursor = 0x2003;
    vm.write_u8(0x2008, 9).unwrap();
    let stack = vm.stack_top - 8;
    vm.write_u32(stack + 4, 4).unwrap();
    assert_eq!(malloc_impl(&mut vm, stack), 0x2008);
    assert_eq!(vm.read_u8(0x2008).unwrap(), 0);
    assert_eq!(vm.heap_cursor, 0x200C);
}

#[test]
fn fopen_modes() {
    assert_eq!(parse_mode("rb"), OpenMode { readable: true, writable: false, create: false, truncate: false, append: false });
    assert_eq!(parse_mode("w"), OpenMode { readable: false, writable: true, create: true, truncate: true, append: false });
    assert_eq!(parse_mode("a+"), OpenMode { readable: true, writable: true, create: true, truncate: false, append: true });
}

#[test]
fn ipv4_detection() {
    assert!(looks_like_ipv4("10.0.0.1"));
    assert!(!looks_like_ipv4("10.0.0"));
    assert!(!looks_like_ipv4("10.0.0.x"));
    assert!(!looks_like_ipv4("..."));
    let long = format!("x{}", ".".repeat(300));
    assert!(!looks_like_ipv4(&long));
    assert_eq!(bytes_to_ascii(b"ab"), Some("ab".to_string()));
    assert_eq!(bytes_to_ascii(b""), None);
    assert_eq!(bytes_to_ascii(&[0x7F]), None);
}
