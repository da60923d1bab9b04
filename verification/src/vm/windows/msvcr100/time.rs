//! Time function: routines with nothing to do, which return 0.

use vstd::prelude::*;

use super::DLL_NAME;
use crate::vm::imports::{imports_model, same_but_imports, stub_models, ImportModel};
use crate::vm::Vm;

verus! {

/// The exports, in the order they are registered.
pub const EXPORTS: [&'static str; 58] = [
    "_time32",
    "_time64",
    "clock",
    "_difftime32",
    "_difftime64",
    "_mktime32",
    "_mktime64",
    "_gmtime32",
    "_gmtime32_s",
    "_gmtime64",
    "_gmtime64_s",
    "_localtime32",
    "_localtime32_s",
    "_localtime64",
    "_localtime64_s",
    "asctime",
    "asctime_s",
    "_wasctime",
    "_wasctime_s",
    "_ctime32",
    "_ctime32_s",
    "_ctime64",
    "_ctime64_s",
    "_wctime32",
    "_wctime32_s",
    "_wctime64",
    "_wctime64_s",
    "_strdate",
    "_strdate_s",
    "_wstrdate",
    "_wstrdate_s",
    "_strtime",
    "_strtime_s",
    "_wstrtime",
    "_wstrtime_s",
    "_tzset",
    "__daylight",
    "__dstbias",
    "__timezone",
    "__tzname",
    "__p__daylight",
    "__p__dstbias",
    "__p__timezone",
    "__p__tzname",
    "_utime32",
    "_utime64",
    "_wutime32",
    "_wutime64",
    "_futime32",
    "_futime64",
    "_ftime32",
    "_ftime32_s",
    "_ftime64",
    "_ftime64_s",
    "_get_daylight",
    "_get_dstbias",
    "_get_timezone",
    "_get_tzname",
];

/// What `register` adds.
pub open spec fn imports() -> Seq<ImportModel> {
    stub_models(DLL_NAME@, EXPORTS@)
}

pub fn register(vm: &mut Vm)
    ensures
        same_but_imports(old(vm), final(vm)),
        imports_model(final(vm).imports@) == imports_model(old(vm).imports@) + imports(),
{
    vm.register_stubs(DLL_NAME, &EXPORTS);
}

} // verus!
