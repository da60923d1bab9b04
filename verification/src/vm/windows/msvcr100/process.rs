//! Process/thread function: routines with nothing to do, which return 0.

use vstd::prelude::*;

use super::DLL_NAME;
use crate::vm::imports::{imports_model, same_but_imports, stub_models, ImportModel};
use crate::vm::Vm;

verus! {

/// Process functions.
pub const PROCESS: [&'static str; 42] = [
    "_getpid",
    "_execl",
    "_execle",
    "_execlp",
    "_execlpe",
    "_execv",
    "_execve",
    "_execvp",
    "_execvpe",
    "_wexecl",
    "_wexecle",
    "_wexeclp",
    "_wexeclpe",
    "_wexecv",
    "_wexecve",
    "_wexecvp",
    "_wexecvpe",
    "_spawnl",
    "_spawnle",
    "_spawnlp",
    "_spawnlpe",
    "_spawnv",
    "_spawnve",
    "_spawnvp",
    "_spawnvpe",
    "_wspawnl",
    "_wspawnle",
    "_wspawnlp",
    "_wspawnlpe",
    "_wspawnv",
    "_wspawnve",
    "_wspawnvp",
    "_wspawnvpe",
    "_cwait",
    "_popen",
    "_wpopen",
    "_pclose",
    "_loaddll",
    "_unloaddll",
    "_getdllprocaddr",
    "_beep",
    "_sleep",
];

/// Thread functions and global variables.
pub const THREAD_AND_GLOBALS: [&'static str; 54] = [
    "_beginthread",
    "_beginthreadex",
    "_endthread",
    "_endthreadex",
    "__threadhandle",
    "__threadid",
    "__argc",
    "__argv",
    "__wargv",
    "_environ",
    "_wenviron",
    "_pgmptr",
    "_wpgmptr",
    "_acmdln",
    "_wcmdln",
    "__initenv",
    "__winitenv",
    "_commode",
    "_fmode",
    "__p___argc",
    "__p___argv",
    "__p___wargv",
    "__p__environ",
    "__p__wenviron",
    "__p__pgmptr",
    "__p__wpgmptr",
    "__p__acmdln",
    "__p__wcmdln",
    "__p___initenv",
    "__p___winitenv",
    "__p__commode",
    "__p__fmode",
    "__p___mb_cur_max",
    "___fls_getvalue@4",
    "___fls_setvalue@8",
    "__set_app_type",
    "__set_flsgetvalue",
    "__get_flsindex",
    "__get_tlsindex",
    "__getmainargs",
    "__wgetmainargs",
    "_configure_narrow_argv",
    "_configure_wide_argv",
    "_CRT_RTC_INIT",
    "_CRT_RTC_INITW",
    "__report_gsfailure",
    "_get_osplatform",
    "_get_osver",
    "_get_winver",
    "_get_winmajor",
    "_get_winminor",
    "__unDName",
    "__unDNameEx",
    "__unDNameHelper",
];

/// What `register` adds: the groups above, in order.
pub open spec fn imports() -> Seq<ImportModel> {
    stub_models(DLL_NAME@, PROCESS@)
        + stub_models(DLL_NAME@, THREAD_AND_GLOBALS@)
}

pub fn register(vm: &mut Vm)
    ensures
        same_but_imports(old(vm), final(vm)),
        imports_model(final(vm).imports@) == imports_model(old(vm).imports@) + imports(),
{
    let ghost start = imports_model(vm.imports@);
    vm.register_stubs(DLL_NAME, &PROCESS);
    vm.register_stubs(DLL_NAME, &THREAD_AND_GLOBALS);
    assert(imports_model(vm.imports@) =~= start + imports());
}

} // verus!
