//! MSFT type libraries: the image format and what the machine keeps of it.

pub mod heuristics;
pub mod parse;

pub mod reader;
pub mod resources;

use vstd::prelude::*;

use self::parse::{msft, try_parse_msft, ParseStop};
use self::resources::{find_typelib_resource, typelib_resource, ResourceDirectory};
use crate::vm::{le32, VmError};

verus! {

pub const MSFT_SIGNATURE: u32 = 0x5446_534D;
pub const SLTG_SIGNATURE: u32 = 0x4754_4C53;

/// A parameter: its variant type and `PARAMFLAG_*` flags.
#[derive(Debug, Clone, Copy, PartialEq, Eq)]
pub struct ParamDesc {
    pub vt: u16,
    pub flags: u32,
}

/// A function of a type info.
#[derive(Debug, Clone)]
pub struct FuncDesc {
    pub memid: u32,
    pub invkind: u16,
    pub callconv: u16,
    pub vtable_offset: u16,
    pub ret_vt: u16,
    pub params: Vec<ParamDesc>,
}

/// A function with its parameters as a sequence.
pub struct FuncModel {
    pub memid: u32,
    pub invkind: u16,
    pub callconv: u16,
    pub vtable_offset: u16,
    pub ret_vt: u16,
    pub params: Seq<ParamDesc>,
}

impl FuncDesc {
    pub open spec fn model(&self) -> FuncModel {
        FuncModel {
            memid: self.memid,
            invkind: self.invkind,
            callconv: self.callconv,
            vtable_offset: self.vtable_offset,
            ret_vt: self.ret_vt,
            params: self.params@,
        }
    }
}

/// A type info: its GUID, kind, counts, flags and functions.
#[derive(Debug, Clone)]
pub struct TypeInfoData {
    pub guid: [u8; 16],
    pub typekind: u32,
    pub c_funcs: u16,
    pub c_vars: u16,
    pub c_impl_types: u16,
    pub cb_size_vft: u16,
    pub flags: u32,
    pub funcs: Vec<FuncDesc>,
}

pub struct TypeInfoModel {
    pub guid: Seq<u8>,
    pub typekind: u32,
    pub c_funcs: u16,
    pub c_vars: u16,
    pub c_impl_types: u16,
    pub cb_size_vft: u16,
    pub flags: u32,
    pub funcs: Seq<FuncModel>,
}

pub open spec fn func_models(fs: Seq<FuncDesc>) -> Seq<FuncModel> {
    fs.map_values(|f: FuncDesc| f.model())
}

impl TypeInfoData {
    pub open spec fn model(&self) -> TypeInfoModel {
        TypeInfoModel {
            guid: self.guid@,
            typekind: self.typekind,
            c_funcs: self.c_funcs,
            c_vars: self.c_vars,
            c_impl_types: self.c_impl_types,
            cb_size_vft: self.cb_size_vft,
            flags: self.flags,
            funcs: func_models(self.funcs@),
        }
    }
}

/// A type library: its GUID and type infos.
#[derive(Debug, Clone)]
pub struct TypeLib {
    pub guid: [u8; 16],
    pub typeinfos: Vec<TypeInfoData>,
}

pub struct TypeLibModel {
    pub guid: Seq<u8>,
    pub typeinfos: Seq<TypeInfoModel>,
}

pub open spec fn info_models(ts: Seq<TypeInfoData>) -> Seq<TypeInfoModel> {
    ts.map_values(|t: TypeInfoData| t.model())
}

impl TypeLib {
    pub open spec fn model(&self) -> TypeLibModel {
        TypeLibModel { guid: self.guid@, typeinfos: info_models(self.typeinfos@) }
    }
}

/// How parsing ends: with a value, with an error, or where reading the
/// type descriptions would go round a cycle of pointer types without end.
pub enum Parsed<T> {
    Done(T),
    Failed(crate::vm::VmError),
    Cycle,
}

/// A type library file: an MSFT image itself, or a PE image whose
/// `TYPELIB` resource holds one (given by the image's resource directory,
/// where it has one). SLTG libraries are refused.
pub open spec fn load_spec(bytes: Seq<u8>, resources: Option<ResourceDirectory>) -> Parsed<TypeLibModel> {
    if bytes.len() >= 4 && le32(bytes, 0) == MSFT_SIGNATURE {
        msft(bytes)
    } else if bytes.len() >= 4 && le32(bytes, 0) == SLTG_SIGNATURE {
        Parsed::Failed(VmError::InvalidConfig("SLTG typelibs not supported"))
    } else {
        match resources {
            Some(dir) => match typelib_resource(dir) {
                Some(data) => msft(data),
                None => Parsed::Failed(VmError::InvalidConfig("TYPELIB resource not found")),
            },
            None => Parsed::Failed(VmError::InvalidConfig("TYPELIB resource not found")),
        }
    }
}

/// Loads a type library from a file's bytes; `Err(ParseStop::Cycle)` where
/// its type descriptions go round a cycle.
pub fn load_from_bytes(bytes: &[u8], resources: Option<&ResourceDirectory>) -> (r: Result<TypeLib, ParseStop>)
    ensures
        match r {
            Ok(lib) => load_spec(bytes@, match resources { Some(d) => Some(*d), None => None }) == Parsed::Done(lib.model()),
            Err(s) => parse::stopped_as(s, load_spec(bytes@, match resources { Some(d) => Some(*d), None => None })),
        },
{
    if bytes.len() >= 4 {
        let magic = bytes[0] as u32 + 256 * (bytes[1] as u32) + 65536 * (bytes[2] as u32) + 16777216 * (bytes[3] as u32);
        if magic == MSFT_SIGNATURE {
            return try_parse_msft(bytes);
        }
        if magic == SLTG_SIGNATURE {
            return Err(ParseStop::Error(VmError::InvalidConfig("SLTG typelibs not supported")));
        }
    }
    match resources {
        Some(dir) => match find_typelib_resource(dir) {
            Some(data) => try_parse_msft(data.as_slice()),
            None => Err(ParseStop::Error(VmError::InvalidConfig("TYPELIB resource not found"))),
        },
        None => Err(ParseStop::Error(VmError::InvalidConfig("TYPELIB resource not found"))),
    }
}

} // verus!
