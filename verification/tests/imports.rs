use pe_vm::vm::imports::{CallConv, ImportName, Routine};
use pe_vm::vm::windows::{msvcr100, msvcr40d, ntdll, ole, ole32, oleaut32};
use pe_vm::vm::Vm;

fn find<'a>(vm: &'a Vm, dll: &str, name: &str) -> Option<&'a pe_vm::vm::imports::Import> {
    vm.imports.iter().find(|i| i.dll == dll && i.name == ImportName::Named(name.to_string()))
}

#[test]
fn registers_every_dll() {
    let mut vm = Vm::new(0x100, 0x1000, 0x1000, 0x1100);
    ntdll::register(&mut vm);
    ole::register(&mut vm);
    ole32::register(&mut vm);
    oleaut32::register(&mut vm);
    msvcr40d::register(&mut vm);
    msvcr100::register(&mut vm);
    assert_eq!(vm.imports.len(), 2 + 6 + 20 + 44 + 19 + 1108);
    let slist = find(&vm, "ntdll.dll", "RtlInitializeSListHead").unwrap();
    assert_eq!(slist.conv, CallConv::Stdcall(4));
    assert_eq!(slist.routine, Routine::RtlInitializeSListHead);
    let peb = find(&vm, "ntdll.dll", "RtlGetCurrentPeb").unwrap();
    assert_eq!(peb.routine, Routine::Stub(0));
    let by_ordinal = vm.imports.iter().find(|i| i.dll == "OLEAUT32.dll" && i.name == ImportName::Ordinal(277)).unwrap();
    assert_eq!(by_ordinal.routine, Routine::VarUi4FromStr);
    assert_eq!(by_ordinal.conv, CallConv::Stdcall(16));
    assert_eq!(find(&vm, "MSVCR40D.dll", "sprintf").unwrap().conv, CallConv::Cdecl);
    assert_eq!(find(&vm, "MSVCR100.dll", "signal").unwrap().routine, Routine::Stub(0));
    assert_eq!(find(&vm, "OLE.dll", "boot_Win32__OLE").unwrap().routine, Routine::Stub(0));
}
