//! Locale function: routines with nothing to do, which return 0.

use vstd::prelude::*;

use super::DLL_NAME;
use crate::vm::imports::{imports_model, same_but_imports, stub_models, ImportModel};
use crate::vm::Vm;

verus! {

/// Locale setup and queries.
pub const LOCALE: [&'static str; 12] = [
    "setlocale",
    "_wsetlocale",
    "localeconv",
    "__create_locale",
    "_create_locale",
    "__free_locale",
    "_free_locale",
    "__get_current_locale",
    "_get_current_locale",
    "_configthreadlocale",
    "__lconv_init",
    "__lconv",
];

/// Character classification.
pub const CTYPE: [&'static str; 29] = [
    "isalpha",
    "_isalpha_l",
    "isalnum",
    "_isalnum_l",
    "isblank",
    "_isblank_l",
    "iscntrl",
    "_iscntrl_l",
    "isdigit",
    "_isdigit_l",
    "isgraph",
    "_isgraph_l",
    "islower",
    "_islower_l",
    "isprint",
    "_isprint_l",
    "ispunct",
    "_ispunct_l",
    "isspace",
    "_isspace_l",
    "isupper",
    "_isupper_l",
    "isxdigit",
    "_isxdigit_l",
    "__isascii",
    "__iscsym",
    "__iscsymf",
    "isleadbyte",
    "_isleadbyte_l",
];

/// Wide character classification.
pub const WCTYPE: [&'static str; 30] = [
    "iswalpha",
    "_iswalpha_l",
    "iswalnum",
    "_iswalnum_l",
    "iswblank",
    "_iswblank_l",
    "iswcntrl",
    "_iswcntrl_l",
    "iswdigit",
    "_iswdigit_l",
    "iswgraph",
    "_iswgraph_l",
    "iswlower",
    "_iswlower_l",
    "iswprint",
    "_iswprint_l",
    "iswpunct",
    "_iswpunct_l",
    "iswspace",
    "_iswspace_l",
    "iswupper",
    "_iswupper_l",
    "iswxdigit",
    "_iswxdigit_l",
    "iswascii",
    "iswctype",
    "__iswcsym",
    "__iswcsymf",
    "is_wctype",
    "_wctype",
];

/// Character conversion.
pub const CASE: [&'static str; 11] = [
    "tolower",
    "_tolower",
    "_tolower_l",
    "toupper",
    "_toupper",
    "_toupper_l",
    "towlower",
    "_towlower_l",
    "towupper",
    "_towupper_l",
    "__toascii",
];

/// Multibyte and wide conversion.
pub const MB_WIDE: [&'static str; 25] = [
    "mblen",
    "mbrlen",
    "mbrtowc",
    "mbsrtowcs",
    "mbsrtowcs_s",
    "mbstowcs",
    "mbstowcs_s",
    "_mbstowcs_l",
    "_mbstowcs_s_l",
    "mbtowc",
    "_mbtowc_l",
    "wcrtomb",
    "wcrtomb_s",
    "wcsrtombs",
    "wcsrtombs_s",
    "wcstombs",
    "wcstombs_s",
    "_wcstombs_l",
    "_wcstombs_s_l",
    "wctomb",
    "wctomb_s",
    "_wctomb_l",
    "_wctomb_s_l",
    "wctob",
    "btowc",
];

/// Multibyte character set routines.
pub const MBCS: [&'static str; 40] = [
    "_mbbtombc",
    "_mbbtombc_l",
    "_mbbtype",
    "_mbbtype_l",
    "_mbcjistojms",
    "_mbcjistojms_l",
    "_mbcjmstojis",
    "_mbcjmstojis_l",
    "_mbclen",
    "_mbclen_l",
    "_mbctombb",
    "_mbctombb_l",
    "_mbsbtype",
    "_mbsbtype_l",
    "_mbsnbcat",
    "_mbsnbcat_s",
    "_mbsnbcat_s_l",
    "_mbsnbcat_l",
    "_mbsnbcmp",
    "_mbsnbcmp_l",
    "_mbsnbcoll",
    "_mbsnbcoll_l",
    "_mbsnbcnt",
    "_mbsnbcnt_l",
    "_mbsnbcpy",
    "_mbsnbcpy_s",
    "_mbsnbcpy_s_l",
    "_mbsnbcpy_l",
    "_mbsnbicmp",
    "_mbsnbicmp_l",
    "_mbsnbicoll",
    "_mbsnbicoll_l",
    "_mbsnbset",
    "_mbsnbset_s",
    "_mbsnbset_s_l",
    "_mbsnbset_l",
    "_mbsnccnt",
    "_mbsnccnt_l",
    "_mbsnextc",
    "_mbsnextc_l",
];

/// Locale internals.
pub const INTERNAL: [&'static str; 16] = [
    "__pctype_func",
    "__pwctype_func",
    "__mb_cur_max",
    "___mb_cur_max_func",
    "___mb_cur_max_l_func",
    "___lc_codepage_func",
    "___lc_collate_cp_func",
    "___lc_handle_func",
    "___setlc_active_func",
    "___unguarded_readlc_active_add_func",
    "__setlc_active",
    "__unguarded_readlc_active",
    "__p__pctype",
    "__p__pwctype",
    "__p__mbctype",
    "__p__mbcasemap",
];

/// String comparison helpers.
pub const COMPARE: [&'static str; 4] = [
    "__crtCompareStringA",
    "__crtCompareStringW",
    "__crtLCMapStringA",
    "__crtLCMapStringW",
];

/// Time and date names.
pub const TIME_NAMES: [&'static str; 8] = [
    "_Getdays",
    "_Getmonths",
    "_Gettnames",
    "strftime",
    "_strftime_l",
    "_Strftime",
    "wcsftime",
    "_wcsftime_l",
];

/// What `register` adds: the groups above, in order.
pub open spec fn imports() -> Seq<ImportModel> {
    stub_models(DLL_NAME@, LOCALE@)
        + stub_models(DLL_NAME@, CTYPE@)
        + stub_models(DLL_NAME@, WCTYPE@)
        + stub_models(DLL_NAME@, CASE@)
        + stub_models(DLL_NAME@, MB_WIDE@)
        + stub_models(DLL_NAME@, MBCS@)
        + stub_models(DLL_NAME@, INTERNAL@)
        + stub_models(DLL_NAME@, COMPARE@)
        + stub_models(DLL_NAME@, TIME_NAMES@)
}

pub fn register(vm: &mut Vm)
    ensures
        same_but_imports(old(vm), final(vm)),
        imports_model(final(vm).imports@) == imports_model(old(vm).imports@) + imports(),
{
    let ghost start = imports_model(vm.imports@);
    vm.register_stubs(DLL_NAME, &LOCALE);
    vm.register_stubs(DLL_NAME, &CTYPE);
    vm.register_stubs(DLL_NAME, &WCTYPE);
    vm.register_stubs(DLL_NAME, &CASE);
    vm.register_stubs(DLL_NAME, &MB_WIDE);
    vm.register_stubs(DLL_NAME, &MBCS);
    vm.register_stubs(DLL_NAME, &INTERNAL);
    vm.register_stubs(DLL_NAME, &COMPARE);
    vm.register_stubs(DLL_NAME, &TIME_NAMES);
    assert(imports_model(vm.imports@) =~= start + imports());
}

} // verus!
