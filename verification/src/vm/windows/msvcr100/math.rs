//! Math function: routines with nothing to do, which return 0.

use vstd::prelude::*;

use super::DLL_NAME;
use crate::vm::imports::{imports_model, same_but_imports, stub_models, ImportModel};
use crate::vm::Vm;

verus! {

/// Compiler intrinsics and the standard C math functions.
pub const STANDARD: [&'static str; 38] = [
    "_CIacos",
    "_CIasin",
    "_CIatan",
    "_CIatan2",
    "_CIcos",
    "_CIcosh",
    "_CIexp",
    "_CIfmod",
    "_CIlog",
    "_CIlog10",
    "_CIpow",
    "_CIsin",
    "_CIsinh",
    "_CIsqrt",
    "_CItan",
    "_CItanh",
    "acos",
    "asin",
    "atan",
    "atan2",
    "ceil",
    "cos",
    "cosh",
    "exp",
    "fabs",
    "floor",
    "fmod",
    "frexp",
    "ldexp",
    "log",
    "log10",
    "modf",
    "pow",
    "sin",
    "sinh",
    "sqrt",
    "tan",
    "tanh",
];

/// Integer and extended math, floating-point constants and control.
pub const EXTENDED: [&'static str; 37] = [
    "abs",
    "labs",
    "llabs",
    "div",
    "ldiv",
    "lldiv",
    "_abs64",
    "_hypot",
    "_cabs",
    "_chgsign",
    "_copysign",
    "_finite",
    "_fpclass",
    "_isnan",
    "_j0",
    "_j1",
    "_jn",
    "_y0",
    "_y1",
    "_yn",
    "_scalb",
    "_logb",
    "_nextafter",
    "_HUGE",
    "_fpreset",
    "_control87",
    "__control87_2",
    "_controlfp",
    "_controlfp_s",
    "_statusfp",
    "_statusfp2",
    "_clearfp",
    "__fpecode",
    "__sw_matherr",
    "_matherr",
    "__setusermatherr",
    "_set_SSE2_enable",
];

/// SSE2 math intrinsics.
pub const SSE2: [&'static str; 21] = [
    "__libm_sse2_acos",
    "__libm_sse2_acosf",
    "__libm_sse2_asin",
    "__libm_sse2_asinf",
    "__libm_sse2_atan",
    "__libm_sse2_atan2",
    "__libm_sse2_atanf",
    "__libm_sse2_cos",
    "__libm_sse2_cosf",
    "__libm_sse2_exp",
    "__libm_sse2_expf",
    "__libm_sse2_log",
    "__libm_sse2_log10",
    "__libm_sse2_log10f",
    "__libm_sse2_logf",
    "__libm_sse2_pow",
    "__libm_sse2_powf",
    "__libm_sse2_sin",
    "__libm_sse2_sinf",
    "__libm_sse2_tan",
    "__libm_sse2_tanf",
];

/// What `register` adds: the groups above, in order.
pub open spec fn imports() -> Seq<ImportModel> {
    stub_models(DLL_NAME@, STANDARD@)
        + stub_models(DLL_NAME@, EXTENDED@)
        + stub_models(DLL_NAME@, SSE2@)
}

pub fn register(vm: &mut Vm)
    ensures
        same_but_imports(old(vm), final(vm)),
        imports_model(final(vm).imports@) == imports_model(old(vm).imports@) + imports(),
{
    let ghost start = imports_model(vm.imports@);
    vm.register_stubs(DLL_NAME, &STANDARD);
    vm.register_stubs(DLL_NAME, &EXTENDED);
    vm.register_stubs(DLL_NAME, &SSE2);
    assert(imports_model(vm.imports@) =~= start + imports());
}

} // verus!
