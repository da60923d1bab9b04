use pe_vm::registry::error::RegistryError;
use pe_vm::registry::store::Registry;
use pe_vm::registry::value::RegistryValue;
use pe_vm::vm::windows::msvcr40d::{
    fclose_finish, fclose_request, fgetc_finish, fgetc_request, fopen_finish, fopen_request, fputc_finish,
    fputc_request, parse_mode, FILE_FLAG_OFFSET, FILE_HANDLE_OFFSET, IOEOF, IOERR, IOREAD, IOWRT,
};
use pe_vm::vm::windows::oleaut32::constants::{E_INVALIDARG, E_NOTIMPL, S_OK, TYPE_E_LIBNOTREGISTERED};
use pe_vm::vm::windows::oleaut32::typelib_load::{
    finish_typelib_load, load_reg_type_lib_request, load_type_lib_path, load_typelib_bytes, reg_typelib_path,
    register_type_lib, resolve_typelib_path,
};
use pe_vm::vm::{Vm, VmError};

fn create_test_vm() -> Vm {
    Vm::new(0x10000, 0x1000, 0x2000, 0x8000)
}

fn frame(vm: &mut Vm, sp: u32, args: &[u32]) {
    vm.write_u32(sp, 0).unwrap();
    for (i, a) in args.iter().enumerate() {
        vm.write_u32(sp + 4 + 4 * i as u32, *a).unwrap();
    }
}

fn wide(vm: &mut Vm, at: u32, text: &str) {
    let mut p = at;
    for u in text.encode_utf16() {
        vm.write_u16(p, u).unwrap();
        p += 2;
    }
    vm.write_u16(p, 0).unwrap();
}

#[test]
fn fopen_allocates_a_file() {
    let mut vm = create_test_vm();
    let sp = vm.stack_top - 0x40;
    vm.write_bytes(0x6000, b"data.bin\0").unwrap();
    vm.write_bytes(0x6100, b"rb+\0").unwrap();
    frame(&mut vm, sp, &[0x6000, 0x6100]);
    let (path, mode) = fopen_request(&vm, sp).unwrap();
    assert_eq!(path, "data.bin");
    assert!(mode.readable && mode.writable && mode.create && !mode.truncate && !mode.append);
    let file = fopen_finish(&mut vm, 7, mode);
    assert_ne!(file, 0);
    assert_eq!(vm.read_u32(file + FILE_FLAG_OFFSET).unwrap(), IOREAD | IOWRT);
    assert_eq!(vm.read_u32(file + FILE_HANDLE_OFFSET).unwrap(), 7);
    assert_eq!(vm.read_u32(file).unwrap(), 0);
    // a failed open gives null
    assert_eq!(fopen_finish(&mut vm, 0, mode), 0);
    // an empty path is not opened
    vm.write_bytes(0x6000, b"\0").unwrap();
    assert!(fopen_request(&vm, sp).is_none());
}

#[test]
fn open_modes() {
    let w = parse_mode("w");
    assert!(!w.readable && w.writable && w.create && w.truncate && !w.append);
    let a = parse_mode("a");
    assert!(!a.readable && a.writable && a.append && !a.truncate);
    let r = parse_mode("r");
    assert!(r.readable && !r.writable && !r.create);
}

#[test]
fn fgetc_fputc_fclose_steps() {
    let mut vm = create_test_vm();
    let file = fopen_finish(&mut vm, 9, parse_mode("r+"));
    let sp = vm.stack_top - 0x40;
    frame(&mut vm, sp, &[file]);
    assert_eq!(fgetc_request(&vm, sp), Some((file, 9)));
    assert_eq!(fgetc_finish(&mut vm, file, Some(Some(0x41))), 0x41);
    assert_eq!(fgetc_finish(&mut vm, file, Some(None)), 0xFFFF_FFFF);
    assert_eq!(vm.read_u32(file + FILE_FLAG_OFFSET).unwrap() & IOEOF, IOEOF);
    assert_eq!(fgetc_finish(&mut vm, file, Some(Some(0x42))), 0x42);
    assert_eq!(vm.read_u32(file + FILE_FLAG_OFFSET).unwrap() & IOEOF, 0);
    assert_eq!(fgetc_finish(&mut vm, file, None), 0xFFFF_FFFF);
    assert_eq!(vm.read_u32(file + FILE_FLAG_OFFSET).unwrap() & IOERR, IOERR);

    frame(&mut vm, sp, &[0x1FF, file]);
    assert_eq!(fputc_request(&vm, sp), Some((file, 9, 0xFF)));
    assert_eq!(fputc_finish(&mut vm, file, 0x1FF, Some(1)), 0xFF);
    assert_eq!(vm.read_u32(file + FILE_FLAG_OFFSET).unwrap() & IOERR, 0);
    assert_eq!(fputc_finish(&mut vm, file, 0x1FF, Some(0)), 0xFFFF_FFFF);
    assert_eq!(vm.read_u32(file + FILE_FLAG_OFFSET).unwrap() & IOERR, IOERR);

    frame(&mut vm, sp, &[file]);
    assert_eq!(fclose_request(&vm, sp), Ok((file, Some(9))));
    assert_eq!(fclose_finish(&mut vm, file), 0);
    assert_eq!(vm.read_u32(file + FILE_HANDLE_OFFSET).unwrap(), 0);
    assert_eq!(vm.read_u32(file + FILE_FLAG_OFFSET).unwrap(), 0);
    frame(&mut vm, sp, &[0]);
    assert_eq!(fclose_request(&vm, sp), Err(0xFFFF_FFFF));
    // a handle that is no address in memory stands for itself
    frame(&mut vm, sp, &[0x9000_0000]);
    assert_eq!(fgetc_request(&vm, sp), Some((0x9000_0000, 0x9000_0000)));
    frame(&mut vm, sp, &[0]);
    assert_eq!(fgetc_request(&vm, sp), None);
}

#[test]
fn register_type_lib_clears_its_output() {
    let mut vm = create_test_vm();
    let sp = vm.stack_top - 0x40;
    vm.write_u32(0x6000, 0x55).unwrap();
    frame(&mut vm, sp, &[1, 2, 0x6000]);
    assert_eq!(register_type_lib(&mut vm, sp), S_OK);
    assert_eq!(vm.read_u32(0x6000).unwrap(), 0);
    frame(&mut vm, sp, &[1, 2, 0]);
    assert_eq!(register_type_lib(&mut vm, sp), S_OK);
}

#[test]
fn load_type_lib_path_strips_quotes() {
    let mut vm = create_test_vm();
    let sp = vm.stack_top - 0x40;
    wide(&mut vm, 0x6000, "  \"C:\\lib\\x.tlb\"  ");
    frame(&mut vm, sp, &[0x6000, 0x6100]);
    assert_eq!(load_type_lib_path(&vm, sp), Ok("C:\\lib\\x.tlb".to_string()));
    wide(&mut vm, 0x6000, " \"\" ");
    assert_eq!(load_type_lib_path(&vm, sp), Err(E_INVALIDARG));
    frame(&mut vm, sp, &[0x6000, 0]);
    assert_eq!(load_type_lib_path(&vm, sp), Err(E_INVALIDARG));
}

#[test]
fn type_library_bytes_are_checked() {
    let mut vm = create_test_vm();
    assert_eq!(load_typelib_bytes(&mut vm, b"nothing", None), Err(VmError::InvalidConfig("TYPELIB resource not found")));
    assert_eq!(finish_typelib_load(&mut vm, 0x6000, None, None), E_NOTIMPL);
    assert_eq!(finish_typelib_load(&mut vm, 0x6000, Some(b"nothing"), None), E_NOTIMPL);
    assert!(vm.com.typelibs.is_empty());
}

#[test]
fn registered_type_library_paths() {
    let mut vm = create_test_vm();
    let guid = "{00000000-0000-0000-0000-000000000001}";
    assert_eq!(resolve_typelib_path(&vm, guid, 1, 0), Err(VmError::InvalidConfig("windows registry unavailable")));
    let mut reg = Registry::new();
    reg.set(
        "HKLM\\Software\\Classes\\TypeLib\\{00000000-0000-0000-0000-000000000001}\\1.0\\0\\win32",
        RegistryValue::String("C:\\x.tlb".to_string()),
    )
    .unwrap();
    vm.registry = Some(reg);
    assert_eq!(resolve_typelib_path(&vm, guid, 1, 0), Ok(Some("C:\\x.tlb".to_string())));
    assert_eq!(resolve_typelib_path(&vm, guid, 2, 10), Ok(None));

    let bytes: Vec<u8> = vec![0, 0, 0, 0, 0, 0, 0, 0, 0, 0, 0, 0, 0, 0, 0, 1];
    assert_eq!(reg_typelib_path(&vm, &bytes, 1, 0, None), Ok("C:\\x.tlb".to_string()));
    assert_eq!(reg_typelib_path(&vm, &bytes, 3, 0, Some("C:\\app.dll")), Ok("C:\\app.dll".to_string()));
    assert_eq!(reg_typelib_path(&vm, &bytes, 3, 0, None), Err(TYPE_E_LIBNOTREGISTERED));

    let sp = vm.stack_top - 0x40;
    vm.write_bytes(0x6000, &bytes).unwrap();
    frame(&mut vm, sp, &[0x6000, 0x10001, 2, 0, 0x6100]);
    let (g, major, minor, out) = load_reg_type_lib_request(&vm, sp).unwrap();
    assert_eq!((g, major, minor, out), (bytes.clone(), 1, 2, 0x6100));
    frame(&mut vm, sp, &[0x6000, 1, 0, 0, 0]);
    assert_eq!(load_reg_type_lib_request(&vm, sp).err(), Some(E_INVALIDARG));
}

#[test]
fn registry_error_messages() {
    assert_eq!(RegistryError::InvalidKey("x".to_string()).message(), "invalid key: x");
    assert_eq!(RegistryError::InvalidHive("HKXX".to_string()).message(), "invalid hive: HKXX");
    assert_eq!(RegistryError::InvalidValue("v".to_string()).message(), "invalid value: v");
    assert_eq!(RegistryError::Yaml("bad".to_string()).message(), "yaml error: bad");
    let io = RegistryError::Io(std::io::Error::new(std::io::ErrorKind::NotFound, "gone"));
    assert_eq!(io.message(), "io error: gone");
}
