//! String function: routines with nothing to do, which return 0.

use vstd::prelude::*;

use super::DLL_NAME;
use crate::vm::imports::{imports_model, same_but_imports, stub_models, ImportModel};
use crate::vm::Vm;

verus! {

/// Standard C string functions.
pub const NARROW: [&'static str; 49] = [
    "strcpy",
    "strcpy_s",
    "strncpy",
    "strncpy_s",
    "strcat",
    "strcat_s",
    "strncat",
    "strncat_s",
    "strcmp",
    "strncmp",
    "_stricmp",
    "_stricmp_l",
    "_strnicmp",
    "_strnicmp_l",
    "strcoll",
    "_strcoll_l",
    "_stricoll",
    "_stricoll_l",
    "_strncoll",
    "_strncoll_l",
    "_strnicoll",
    "_strnicoll_l",
    "strlen",
    "strnlen",
    "strchr",
    "strrchr",
    "strstr",
    "strpbrk",
    "strspn",
    "strcspn",
    "strtok",
    "strtok_s",
    "_strdup",
    "_strlwr",
    "_strlwr_s",
    "_strlwr_s_l",
    "_strupr",
    "_strupr_s",
    "_strupr_s_l",
    "_strrev",
    "_strset",
    "_strset_s",
    "_strnset",
    "_strnset_s",
    "strxfrm",
    "_strxfrm_l",
    "strerror",
    "strerror_s",
    "__strncnt",
];

/// Wide string functions.
pub const WIDE: [&'static str; 53] = [
    "wcscpy",
    "wcscpy_s",
    "wcsncpy",
    "wcsncpy_s",
    "wcscat",
    "wcscat_s",
    "wcsncat",
    "wcsncat_s",
    "wcscmp",
    "wcsncmp",
    "_wcsicmp",
    "_wcsicmp_l",
    "_wcsnicmp",
    "_wcsnicmp_l",
    "wcscoll",
    "_wcscoll_l",
    "_wcsicoll",
    "_wcsicoll_l",
    "_wcsncoll",
    "_wcsncoll_l",
    "_wcsnicoll",
    "_wcsnicoll_l",
    "wcslen",
    "wcsnlen",
    "wcschr",
    "wcsrchr",
    "wcsstr",
    "wcspbrk",
    "wcsspn",
    "wcscspn",
    "wcstok",
    "wcstok_s",
    "_wcsdup",
    "_wcslwr",
    "_wcslwr_s",
    "_wcslwr_s_l",
    "_wcslwr_l",
    "_wcsupr",
    "_wcsupr_s",
    "_wcsupr_s_l",
    "_wcsupr_l",
    "_wcsrev",
    "_wcsset",
    "_wcsset_s",
    "_wcsnset",
    "_wcsnset_s",
    "wcsxfrm",
    "_wcsxfrm_l",
    "__wcserror",
    "__wcserror_s",
    "_wcserror",
    "_wcserror_s",
    "__wcsncnt",
];

/// Memory functions.
pub const MEMORY: [&'static str; 12] = [
    "memcpy",
    "memcpy_s",
    "memmove",
    "memmove_s",
    "memset",
    "memcmp",
    "memchr",
    "_memccpy",
    "_memicmp",
    "_memicmp_l",
    "wmemcpy_s",
    "wmemmove_s",
];

/// What `register` adds: the groups above, in order.
pub open spec fn imports() -> Seq<ImportModel> {
    stub_models(DLL_NAME@, NARROW@)
        + stub_models(DLL_NAME@, WIDE@)
        + stub_models(DLL_NAME@, MEMORY@)
}

pub fn register(vm: &mut Vm)
    ensures
        same_but_imports(old(vm), final(vm)),
        imports_model(final(vm).imports@) == imports_model(old(vm).imports@) + imports(),
{
    let ghost start = imports_model(vm.imports@);
    vm.register_stubs(DLL_NAME, &NARROW);
    vm.register_stubs(DLL_NAME, &WIDE);
    vm.register_stubs(DLL_NAME, &MEMORY);
    assert(imports_model(vm.imports@) =~= start + imports());
}

} // verus!
