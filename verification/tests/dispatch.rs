use pe_vm::vm::imports::Routine;
use pe_vm::vm::windows::dispatch::{run_routine, RoutineRun};
use pe_vm::vm::Vm;

fn create_test_vm() -> Vm {
    Vm::new(0x10000, 0x1000, 0x2000, 0x8000)
}

#[test]
fn dispatch_runs_the_slist_routine() {
    let mut vm = create_test_vm();
    let stack = vm.stack_top - 8;
    let header = vm.heap_start;
    vm.write_u32(header, 0xDEADBEEF).unwrap();
    vm.write_u32(header + 4, 0xCAFEBABE).unwrap();
    vm.write_u32(stack + 4, header).unwrap();
    assert_eq!(run_routine(&mut vm, Routine::RtlInitializeSListHead, stack), RoutineRun::Done(0));
    assert_eq!(vm.read_u32(header).unwrap(), 0);
    assert_eq!(vm.read_u32(header + 4).unwrap(), 0);
}

#[test]
fn dispatch_stubs_and_host_routines() {
    let mut vm = create_test_vm();
    let stack = vm.stack_top - 8;
    assert_eq!(run_routine(&mut vm, Routine::Stub(7), stack), RoutineRun::Done(7));
    assert_eq!(run_routine(&mut vm, Routine::UnRegisterTypeLib, stack), RoutineRun::Done(0));
    assert_eq!(run_routine(&mut vm, Routine::OleInitialize, stack), RoutineRun::Done(0));
    assert_eq!(run_routine(&mut vm, Routine::Fopen, stack), RoutineRun::Host);
    assert_eq!(run_routine(&mut vm, Routine::TypeInfoInvoke, stack), RoutineRun::Host);
}
