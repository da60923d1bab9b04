//! Low-level I/O function: routines with nothing to do, which return 0.

use vstd::prelude::*;

use super::DLL_NAME;
use crate::vm::imports::{imports_model, same_but_imports, stub_models, ImportModel};
use crate::vm::Vm;

verus! {

/// Low-level file I/O.
pub const LOW_LEVEL: [&'static str; 55] = [
    "_open",
    "_wopen",
    "_sopen",
    "_sopen_s",
    "_wsopen",
    "_wsopen_s",
    "_creat",
    "_wcreat",
    "_close",
    "_read",
    "_write",
    "_lseek",
    "_lseeki64",
    "_tell",
    "_telli64",
    "_dup",
    "_dup2",
    "_eof",
    "_commit",
    "_chsize",
    "_chsize_s",
    "_filelength",
    "_filelengthi64",
    "_locking",
    "_isatty",
    "_setmode",
    "_umask",
    "_umask_s",
    "_unlink",
    "_wunlink",
    "_access",
    "_access_s",
    "_waccess",
    "_waccess_s",
    "_chmod",
    "_wchmod",
    "_mktemp",
    "_mktemp_s",
    "_wmktemp",
    "_wmktemp_s",
    "_pipe",
    "_getcwd",
    "_wgetcwd",
    "_getdcwd",
    "_wgetdcwd",
    "_getdcwd_nolock",
    "_wgetdcwd_nolock",
    "_chdir",
    "_wchdir",
    "_mkdir",
    "_wmkdir",
    "_rmdir",
    "_wrmdir",
    "_getdrive",
    "_chdrive",
];

/// Finding files, file status and I/O internals.
pub const FIND_STAT: [&'static str; 31] = [
    "_findfirst32",
    "_findfirst32i64",
    "_findfirst64",
    "_findfirst64i32",
    "_findnext32",
    "_findnext32i64",
    "_findnext64",
    "_findnext64i32",
    "_findclose",
    "_wfindfirst32",
    "_wfindfirst32i64",
    "_wfindfirst64",
    "_wfindfirst64i32",
    "_wfindnext32",
    "_wfindnext32i64",
    "_wfindnext64",
    "_wfindnext64i32",
    "_stat32",
    "_stat32i64",
    "_stat64",
    "_stat64i32",
    "_wstat32",
    "_wstat32i64",
    "_wstat64",
    "_wstat64i32",
    "_fstat32",
    "_fstat32i64",
    "_fstat64",
    "_fstat64i32",
    "__pioinfo",
    "__badioinfo",
];

/// What `register` adds: the groups above, in order.
pub open spec fn imports() -> Seq<ImportModel> {
    stub_models(DLL_NAME@, LOW_LEVEL@)
        + stub_models(DLL_NAME@, FIND_STAT@)
}

pub fn register(vm: &mut Vm)
    ensures
        same_but_imports(old(vm), final(vm)),
        imports_model(final(vm).imports@) == imports_model(old(vm).imports@) + imports(),
{
    let ghost start = imports_model(vm.imports@);
    vm.register_stubs(DLL_NAME, &LOW_LEVEL);
    vm.register_stubs(DLL_NAME, &FIND_STAT);
    assert(imports_model(vm.imports@) =~= start + imports());
}

} // verus!
