//! Standard library function: routines with nothing to do, which return 0.

use vstd::prelude::*;

use super::DLL_NAME;
use crate::vm::imports::{imports_model, same_but_imports, stub_models, ImportModel};
use crate::vm::Vm;

verus! {

/// Integer conversion, narrow and wide.
pub const PARSE: [&'static str; 36] = [
    "atoi",
    "_atoi_l",
    "atol",
    "_atol_l",
    "atof",
    "_atof_l",
    "_atoi64",
    "_atoi64_l",
    "strtol",
    "_strtol_l",
    "strtoul",
    "_strtoul_l",
    "strtod",
    "_strtod_l",
    "_strtoi64",
    "_strtoi64_l",
    "_strtoui64",
    "_strtoui64_l",
    "_wtoi",
    "_wtoi_l",
    "_wtol",
    "_wtol_l",
    "_wtof",
    "_wtof_l",
    "_wtoi64",
    "_wtoi64_l",
    "wcstol",
    "_wcstol_l",
    "wcstoul",
    "_wcstoul_l",
    "wcstod",
    "_wcstod_l",
    "_wcstoi64",
    "_wcstoi64_l",
    "_wcstoui64",
    "_wcstoui64_l",
];

/// Numbers to strings.
pub const FORMAT: [&'static str; 35] = [
    "_itoa",
    "_itoa_s",
    "_ltoa",
    "_ltoa_s",
    "_ultoa",
    "_ultoa_s",
    "_i64toa",
    "_i64toa_s",
    "_ui64toa",
    "_ui64toa_s",
    "_itow",
    "_itow_s",
    "_ltow",
    "_ltow_s",
    "_ultow",
    "_ultow_s",
    "_i64tow",
    "_i64tow_s",
    "_ui64tow",
    "_ui64tow_s",
    "_gcvt",
    "_gcvt_s",
    "_ecvt",
    "_ecvt_s",
    "_fcvt",
    "_fcvt_s",
    "_atodbl",
    "_atodbl_l",
    "_atoflt",
    "_atoflt_l",
    "_atoldbl",
    "_atoldbl_l",
    "$I10_OUTPUT",
    "__STRINGTOLD",
    "__STRINGTOLD_L",
];

/// Search and sort, random numbers and the environment.
pub const SEARCH_ENV: [&'static str; 35] = [
    "bsearch",
    "bsearch_s",
    "qsort",
    "qsort_s",
    "_lfind",
    "_lfind_s",
    "_lsearch",
    "_lsearch_s",
    "rand",
    "rand_s",
    "srand",
    "getenv",
    "getenv_s",
    "_wgetenv",
    "_wgetenv_s",
    "_putenv",
    "_putenv_s",
    "_wputenv",
    "_wputenv_s",
    "_dupenv_s",
    "_wdupenv_s",
    "_searchenv",
    "_searchenv_s",
    "_wsearchenv",
    "_wsearchenv_s",
    "_makepath",
    "_makepath_s",
    "_wmakepath",
    "_wmakepath_s",
    "_splitpath",
    "_splitpath_s",
    "_wsplitpath",
    "_wsplitpath_s",
    "_fullpath",
    "_wfullpath",
];

/// Process control, byte swapping and the rest.
pub const CONTROL_MISC: [&'static str; 36] = [
    "abort",
    "exit",
    "_exit",
    "_Exit",
    "quick_exit",
    "at_quick_exit",
    "_cexit",
    "_c_exit",
    "atexit",
    "system",
    "_wsystem",
    "_byteswap_ushort",
    "_byteswap_ulong",
    "_byteswap_uint64",
    "_rotl",
    "_rotr",
    "_rotl64",
    "_rotr64",
    "_lrotl",
    "_lrotr",
    "_swab",
    "_assert",
    "_wassert",
    "_amsg_exit",
    "_invalid_parameter",
    "_invalid_parameter_noinfo",
    "_invalid_parameter_noinfo_noreturn",
    "_invoke_watson",
    "_errno",
    "__doserrno",
    "_set_errno",
    "_get_errno",
    "_set_doserrno",
    "_get_doserrno",
    "__sys_errlist",
    "__sys_nerr",
];

/// What `register` adds: the groups above, in order.
pub open spec fn imports() -> Seq<ImportModel> {
    stub_models(DLL_NAME@, PARSE@)
        + stub_models(DLL_NAME@, FORMAT@)
        + stub_models(DLL_NAME@, SEARCH_ENV@)
        + stub_models(DLL_NAME@, CONTROL_MISC@)
}

pub fn register(vm: &mut Vm)
    ensures
        same_but_imports(old(vm), final(vm)),
        imports_model(final(vm).imports@) == imports_model(old(vm).imports@) + imports(),
{
    let ghost start = imports_model(vm.imports@);
    vm.register_stubs(DLL_NAME, &PARSE);
    vm.register_stubs(DLL_NAME, &FORMAT);
    vm.register_stubs(DLL_NAME, &SEARCH_ENV);
    vm.register_stubs(DLL_NAME, &CONTROL_MISC);
    assert(imports_model(vm.imports@) =~= start + imports());
}

} // verus!
