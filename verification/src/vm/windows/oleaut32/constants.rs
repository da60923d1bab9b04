//! Result codes, variant types, parameter flags and interface ids of OLE
//! automation.

use vstd::prelude::*;

verus! {

pub const S_OK: u32 = 0;
pub const E_FAIL: u32 = 0x8000_4005;
pub const E_INVALIDARG: u32 = 0x8007_0057;
pub const E_NOTIMPL: u32 = 0x8000_4001;
pub const E_NOINTERFACE: u32 = 0x8000_4002;
pub const DISP_E_MEMBERNOTFOUND: u32 = 0x8002_0003;
pub const DISP_E_TYPEMISMATCH: u32 = 0x8002_0005;
pub const DISP_E_BADPARAMCOUNT: u32 = 0x8002_000E;
pub const TYPE_E_LIBNOTREGISTERED: u32 = 0x8002_801D;

pub const VARIANT_SIZE: usize = 16;
pub const VT_EMPTY: u16 = 0;
pub const VT_NULL: u16 = 1;
pub const VT_I4: u16 = 3;
pub const VT_BSTR: u16 = 8;
pub const VT_VARIANT: u16 = 12;
pub const VT_I1: u16 = 16;
pub const VT_UI1: u16 = 17;
pub const VT_UI4: u16 = 19;
pub const VT_INT: u16 = 22;
pub const VT_UINT: u16 = 23;
pub const VT_VOID: u16 = 24;
pub const VT_HRESULT: u16 = 25;
pub const VT_ARRAY: u16 = 0x2000;
pub const VT_BYREF: u16 = 0x4000;
pub const VT_USERDEFINED: u16 = 0x1D;

pub const PARAMFLAG_FIN: u32 = 0x1;
pub const PARAMFLAG_FOUT: u32 = 0x2;
pub const PARAMFLAG_FRETVAL: u32 = 0x8;

pub const IID_IUNKNOWN: &'static str = "{00000000-0000-0000-C000-000000000046}";
pub const IID_ITYPELIB: &'static str = "{00020402-0000-0000-C000-000000000046}";
pub const IID_ITYPEINFO: &'static str = "{00020401-0000-0000-C000-000000000046}";
pub const IID_ITYPEINFO2: &'static str = "{00020412-0000-0000-C000-000000000046}";

} // verus!
