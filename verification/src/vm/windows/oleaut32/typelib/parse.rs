//! Reading an MSFT type library: the header, the segment directory, the
//! type descriptions, and each type info with its functions.

use vstd::prelude::*;

use super::heuristics::{guess_guid, guess_guid_tab, guess_typdesc, guess_typdesc_tab, guid_table_looks_valid, guid_table_valid};
use super::reader::{rd32, seg_dir, seg_entries, Reader, SegDir, SegEntry};
use super::{func_models, info_models, FuncDesc, FuncModel, ParamDesc, Parsed, TypeInfoData, TypeInfoModel, TypeLib, TypeLibModel, MSFT_SIGNATURE};
use crate::vm::{le16, le32, VmError};

verus! {

pub const HELPDLLFLAG: u32 = 0x0100;
pub const TYPEINFO_SIZE: u64 = 0x64;
pub const TKIND_ALIAS: u32 = 6;
pub const VT_TYPEMASK: u32 = 0x0FFF;
pub const VT_PTR: u16 = 0x1A;
pub const VT_USERDEFINED: u16 = 0x1D;
pub const VT_BYREF: u16 = 0x4000;
pub const VT_I4: u16 = 3;

/// An entry of the type description table: the described type's data
/// (a type description offset for a pointer, a type info reference for a
/// user-defined type) and its variant type.
#[derive(Debug, Clone, Copy, PartialEq, Eq)]
pub struct TypeDescEntry {
    pub data: i32,
    pub vt: u16,
}

/// The type description table, where the image holds it.
pub open spec fn typdesc_table(d: Seq<u8>, sd: SegDir) -> Option<Seq<TypeDescEntry>> {
    let off = sd.typdesc_tab.offset as int;
    let count = (sd.typdesc_tab.length / 8) as int;
    if off == 0 || sd.typdesc_tab.length == 0 || count == 0 {
        Some(Seq::empty())
    } else if off + 8 * count <= d.len() {
        Some(Seq::new(count as nat, |i: int| TypeDescEntry {
            data: le32(d, off + 8 * i) as i32,
            vt: (le32(d, off + 8 * i + 4) & 0xFFFF) as u16,
        }))
    } else {
        None
    }
}

/// The variant type that a type description stands for, following at most
/// `fuel` pointer entries (`None` where more are needed).
pub open spec fn vartype(dt: i32, descs: Seq<TypeDescEntry>, aliases: Seq<Option<u16>>, fuel: nat) -> Option<u16>
    decreases fuel,
{
    if dt < 0 {
        Some(((dt as u32) & VT_TYPEMASK) as u16)
    } else if descs.len() == 0 && (dt as u32) <= VT_TYPEMASK {
        Some(dt as u16)
    } else {
        let idx = dt as int / 8;
        if idx >= descs.len() {
            Some(VT_USERDEFINED)
        } else {
            let e = descs[idx];
            if e.vt == VT_PTR {
                if fuel == 0 {
                    None
                } else {
                    match vartype(e.data, descs, aliases, (fuel - 1) as nat) {
                        Some(t) => Some(t | VT_BYREF),
                        None => None,
                    }
                }
            } else if e.vt == VT_USERDEFINED {
                let cleaned = e.data & !3i32;
                if cleaned >= 0 && (cleaned as int / 0x64) < aliases.len() && aliases[cleaned as int / 0x64] is Some {
                    aliases[cleaned as int / 0x64]
                } else {
                    Some(VT_USERDEFINED)
                }
            } else {
                Some(e.vt)
            }
        }
    }
}

/// The variant type of a type description; `None` where the pointer
/// entries from it visit more entries than the table holds (they go round a
/// cycle, which following them would never leave).
pub open spec fn resolve(dt: i32, descs: Seq<TypeDescEntry>, aliases: Seq<Option<u16>>) -> Option<u16> {
    vartype(dt, descs, aliases, descs.len())
}

/// The 16 bytes of the GUID at `off` in the GUID table, where the image
/// holds them.
pub open spec fn guid_in(d: Seq<u8>, sd: SegDir, off: i32) -> Option<Seq<u8>> {
    if off < 0 {
        None
    } else {
        let base = sd.guid_tab.offset + off;
        if base + 16 <= d.len() {
            Some(d.subrange(base, base + 16))
        } else {
            None
        }
    }
}

pub open spec fn zero_guid() -> Seq<u8> {
    Seq::new(16, |i: int| 0u8)
}

pub open spec fn guid_or_zero(d: Seq<u8>, sd: SegDir, off: i32) -> Seq<u8> {
    match guid_in(d, sd, off) {
        Some(g) => g,
        None => zero_guid(),
    }
}

/// The variant types that a parameter of a non-negative type description
/// takes directly from it.
pub open spec fn direct_vt(v: u16) -> bool {
    v == 8 || v == 3 || v == 19 || v == 22 || v == 23 || v == 17 || v == 16
}

/// A parameter's variant type: a plain type description names it directly
/// (an out value of type 0 is a 4-byte integer), and out or return values
/// are passed by reference.
pub open spec fn param_vt(pt: i32, flags: u32, vt: u16) -> u16 {
    let vt1 = if pt >= 0 {
        let raw = pt as u32;
        if raw == 0 && flags & 0xA != 0 {
            VT_I4
        } else if direct_vt(raw as u16) {
            raw as u16
        } else {
            vt
        }
    } else {
        vt
    };
    if flags & 0xA != 0 && vt1 & VT_BYREF == 0 {
        vt1 | VT_BYREF
    } else {
        vt1
    }
}

/// The first `k` parameters of 12 bytes each from `base`.
pub open spec fn params_upto(d: Seq<u8>, base: int, descs: Seq<TypeDescEntry>, aliases: Seq<Option<u16>>, k: int) -> Parsed<Seq<ParamDesc>>
    decreases k,
{
    if k <= 0 {
        Parsed::Done(Seq::empty())
    } else {
        match params_upto(d, base, descs, aliases, k - 1) {
            Parsed::Done(ps) => {
                let at = base + 12 * (k - 1);
                if at + 12 > d.len() {
                    Parsed::Failed(VmError::MemoryOutOfRange)
                } else {
                    let pt = le32(d, at) as i32;
                    let flags = le32(d, at + 8);
                    match resolve(pt, descs, aliases) {
                        None => Parsed::Cycle,
                        Some(vt) => Parsed::Done(ps.push(ParamDesc { vt: param_vt(pt, flags, vt), flags })),
                    }
                }
            },
            Parsed::Failed(e) => Parsed::Failed(e),
            Parsed::Cycle => Parsed::Cycle,
        }
    }
}

pub open spec fn config(msg: &'static str) -> VmError {
    VmError::InvalidConfig(msg)
}

/// The `i`-th function record at `rec` of the function block at `offset`,
/// and where the next record starts.
pub open spec fn func_at(
    d: Seq<u8>,
    offset: int,
    infolen: int,
    i: int,
    rec: int,
    descs: Seq<TypeDescEntry>,
    aliases: Seq<Option<u16>>,
) -> Parsed<(FuncModel, int)> {
    if rec + 24 > d.len() {
        Parsed::Failed(VmError::MemoryOutOfRange)
    } else {
        let reclength = (le32(d, rec) & 0xFFFF) as int;
        let data_type = le32(d, rec + 4) as i32;
        let vtable_offset = le16(d, rec + 12);
        let fkccic = le32(d, rec + 16);
        let nrargs = le16(d, rec + 20) as int;
        let memid_offset = offset + infolen + (i + 1) * 4;
        if memid_offset > usize::MAX {
            Parsed::Failed(config("typelib memid overflow"))
        } else if memid_offset + 4 > d.len() {
            Parsed::Failed(VmError::MemoryOutOfRange)
        } else {
            let memid = le32(d, memid_offset);
            match resolve(data_type, descs, aliases) {
                None => Parsed::Cycle,
                Some(ret_vt) => if rec + reclength > usize::MAX || rec + reclength < nrargs * 12 {
                    Parsed::Failed(config("typelib param overflow"))
                } else {
                    match params_upto(d, rec + reclength - nrargs * 12, descs, aliases, nrargs) {
                        Parsed::Done(ps) => Parsed::Done((
                            FuncModel {
                                memid,
                                invkind: ((fkccic >> 3) & 0xF) as u16,
                                callconv: ((fkccic >> 8) & 0xF) as u16,
                                vtable_offset: vtable_offset & 0xFFFE,
                                ret_vt,
                                params: ps,
                            },
                            rec + reclength,
                        )),
                        Parsed::Failed(e) => Parsed::Failed(e),
                        Parsed::Cycle => Parsed::Cycle,
                    }
                },
            }
        }
    }
}

/// The first `n` function records of the block at `offset`, and where the
/// next would start.
pub open spec fn funcs_upto(
    d: Seq<u8>,
    offset: int,
    infolen: int,
    descs: Seq<TypeDescEntry>,
    aliases: Seq<Option<u16>>,
    n: int,
) -> Parsed<(Seq<FuncModel>, int)>
    decreases n,
{
    if n <= 0 {
        Parsed::Done((Seq::empty(), offset + 4))
    } else {
        match funcs_upto(d, offset, infolen, descs, aliases, n - 1) {
            Parsed::Done((fs, rec)) => match func_at(d, offset, infolen, n - 1, rec, descs, aliases) {
                Parsed::Done((f, next)) => Parsed::Done((fs.push(f), next)),
                Parsed::Failed(e) => Parsed::Failed(e),
                Parsed::Cycle => Parsed::Cycle,
            },
            Parsed::Failed(e) => Parsed::Failed(e),
            Parsed::Cycle => Parsed::Cycle,
        }
    }
}

/// The `c_funcs` functions of the block at `offset` (which starts with the
/// length of the records; the member ids follow them).
pub open spec fn funcs_spec(d: Seq<u8>, offset: int, c_funcs: int, descs: Seq<TypeDescEntry>, aliases: Seq<Option<u16>>) -> Parsed<Seq<FuncModel>> {
    if offset + 4 > d.len() {
        Parsed::Failed(VmError::MemoryOutOfRange)
    } else {
        match funcs_upto(d, offset, le32(d, offset) as int, descs, aliases, c_funcs) {
            Parsed::Done((fs, _)) => Parsed::Done(fs),
            Parsed::Failed(e) => Parsed::Failed(e),
            Parsed::Cycle => Parsed::Cycle,
        }
    }
}

/// The type info whose record is at `off`.
pub open spec fn typeinfo_at(d: Seq<u8>, sd: SegDir, descs: Seq<TypeDescEntry>, aliases: Seq<Option<u16>>, off: int) -> Parsed<TypeInfoModel> {
    if off + 0x50 > d.len() {
        Parsed::Failed(VmError::MemoryOutOfRange)
    } else {
        let memoffset = le32(d, off + 4) as i32;
        let c_element = le32(d, off + 0x18);
        let c_funcs = (c_element & 0xFFFF) as u16;
        let funcs = if c_funcs > 0 && memoffset > 0 {
            funcs_spec(d, memoffset as int, c_funcs as int, descs, aliases)
        } else {
            Parsed::Done(Seq::empty())
        };
        match funcs {
            Parsed::Done(fs) => Parsed::Done(TypeInfoModel {
                guid: guid_or_zero(d, sd, le32(d, off + 0x2C) as i32),
                typekind: le32(d, off) & 0xF,
                c_funcs,
                c_vars: (c_element >> 16) as u16,
                c_impl_types: le16(d, off + 0x4C),
                cb_size_vft: le16(d, off + 0x4E),
                flags: le32(d, off + 0x30),
                funcs: fs,
            }),
            Parsed::Failed(e) => Parsed::Failed(e),
            Parsed::Cycle => Parsed::Cycle,
        }
    }
}

/// The alias types of the first `n` type infos (the type an alias stands
/// for; none for other kinds).
pub open spec fn aliases_upto(d: Seq<u8>, ti: int, descs: Seq<TypeDescEntry>, n: int) -> Parsed<Seq<Option<u16>>>
    decreases n,
{
    if n <= 0 {
        Parsed::Done(Seq::empty())
    } else {
        match aliases_upto(d, ti, descs, n - 1) {
            Parsed::Done(al) => {
                let entry = ti + (n - 1) * 0x64;
                if (n - 1) * 0x64 > usize::MAX {
                    Parsed::Failed(config("typeinfo offset overflow"))
                } else if entry + 4 > d.len() {
                    Parsed::Failed(VmError::MemoryOutOfRange)
                } else if le32(d, entry) & 0xF != TKIND_ALIAS {
                    Parsed::Done(al.push(None))
                } else if entry + 0x58 > d.len() {
                    Parsed::Failed(VmError::MemoryOutOfRange)
                } else {
                    match resolve(le32(d, entry + 0x54) as i32, descs, Seq::empty()) {
                        None => Parsed::Cycle,
                        Some(vt) => Parsed::Done(al.push(Some(vt))),
                    }
                }
            },
            Parsed::Failed(e) => Parsed::Failed(e),
            Parsed::Cycle => Parsed::Cycle,
        }
    }
}

/// The first `n` type infos.
pub open spec fn infos_upto(d: Seq<u8>, sd: SegDir, descs: Seq<TypeDescEntry>, aliases: Seq<Option<u16>>, n: int) -> Parsed<Seq<TypeInfoModel>>
    decreases n,
{
    if n <= 0 {
        Parsed::Done(Seq::empty())
    } else {
        match infos_upto(d, sd, descs, aliases, n - 1) {
            Parsed::Done(ts) => if (n - 1) * 0x64 > usize::MAX {
                Parsed::Failed(config("typeinfo offset overflow"))
            } else {
                match typeinfo_at(d, sd, descs, aliases, sd.typeinfo_tab.offset + (n - 1) * 0x64) {
                    Parsed::Done(t) => Parsed::Done(ts.push(t)),
                    Parsed::Failed(e) => Parsed::Failed(e),
                    Parsed::Cycle => Parsed::Cycle,
                }
            },
            Parsed::Failed(e) => Parsed::Failed(e),
            Parsed::Cycle => Parsed::Cycle,
        }
    }
}

/// The segment directory after the table guesses: the GUID table where the
/// directory's does not hold a plausible GUID, the type description table
/// where it coincides with the GUID table.
pub open spec fn adjusted_dir(d: Seq<u8>, so: int, es: Seq<SegEntry>, posguid: i32) -> SegDir {
    let sd0 = seg_dir(es);
    let sd1 = if !guid_table_valid(d, sd0, posguid) {
        match guess_guid(d, so, posguid) {
            Some(g) => SegDir { guid_tab: g, ..sd0 },
            None => sd0,
        }
    } else {
        sd0
    };
    if sd1.guid_tab == sd1.typdesc_tab {
        match guess_typdesc(d, so, sd1.guid_tab) {
            Some(t) => SegDir { typdesc_tab: t, ..sd1 },
            None => sd1,
        }
    } else {
        sd1
    }
}

/// An MSFT type library image.
pub open spec fn msft(d: Seq<u8>) -> Parsed<TypeLibModel> {
    if d.len() < 4 {
        Parsed::Failed(VmError::MemoryOutOfRange)
    } else if le32(d, 0) != MSFT_SIGNATURE {
        Parsed::Failed(config("invalid MSFT signature"))
    } else if d.len() < 0x24 {
        Parsed::Failed(VmError::MemoryOutOfRange)
    } else {
        let varflags = le32(d, 0x14);
        let n = le32(d, 0x20) as int;
        let posguid = le32(d, 0x08) as i32;
        if n * 4 > usize::MAX {
            Parsed::Failed(config("typelib count overflow"))
        } else {
            let so = 0x54 + n * 4 + if varflags & HELPDLLFLAG != 0 { 4int } else { 0int };
            match seg_entries(d, so) {
                None => Parsed::Failed(VmError::MemoryOutOfRange),
                Some(es) => {
                    let sd = adjusted_dir(d, so, es, posguid);
                    match typdesc_table(d, sd) {
                        None => Parsed::Failed(VmError::MemoryOutOfRange),
                        Some(descs) => match aliases_upto(d, sd.typeinfo_tab.offset as int, descs, n) {
                            Parsed::Done(al) => match infos_upto(d, sd, descs, al, n) {
                                Parsed::Done(infos) => Parsed::Done(TypeLibModel { guid: guid_or_zero(d, sd, posguid), typeinfos: infos }),
                                Parsed::Failed(e) => Parsed::Failed(e),
                                Parsed::Cycle => Parsed::Cycle,
                            },
                            Parsed::Failed(e) => Parsed::Failed(e),
                            Parsed::Cycle => Parsed::Cycle,
                        },
                    }
                },
            }
        }
    }
}

/// Why parsing stopped.
#[derive(Debug)]
pub enum ParseStop {
    Error(VmError),
    /// The type descriptions' pointer entries go round a cycle.
    Cycle,
}

/// Whether an exec outcome is the spec outcome `p`, values compared by `same`.
pub open spec fn stopped_as<T>(s: ParseStop, p: Parsed<T>) -> bool {
    match s {
        ParseStop::Error(e) => p == Parsed::<T>::Failed(e),
        ParseStop::Cycle => p is Cycle,
    }
}

/// Reads the type description table.
pub fn read_typdesc_table(reader: &Reader, segdir: &SegDir) -> (r: Result<Vec<TypeDescEntry>, VmError>)
    ensures
        match typdesc_table(reader.data@, *segdir) {
            Some(t) => r matches Ok(v) && v@ == t,
            None => r == Err::<Vec<TypeDescEntry>, VmError>(VmError::MemoryOutOfRange),
        },
{
    let mut out: Vec<TypeDescEntry> = Vec::new();
    let offset = segdir.typdesc_tab.offset as u64;
    let length = segdir.typdesc_tab.length as u64;
    if offset == 0 || length == 0 {
        return Ok(out);
    }
    let count = length / 8;
    let ghost d = reader.data@;
    let mut idx: u64 = 0;
    while idx < count
        invariant
            d == reader.data@,
            count == length / 8,
            offset == segdir.typdesc_tab.offset,
            length == segdir.typdesc_tab.length,
            offset != 0,
            idx <= count,
            offset + 8 * idx <= d.len() || idx == 0,
            out@ == Seq::new(idx as nat, |i: int| TypeDescEntry {
                data: le32(d, offset + 8 * i) as i32,
                vt: (le32(d, offset + 8 * i + 4) & 0xFFFF) as u16,
            }),
        decreases count - idx,
    {
        let base = offset + idx * 8;
        let data_raw = match reader.read_u32(base) {
            Ok(v) => v,
            Err(e) => {
                assert(!(offset + 8 * count <= d.len()));
                return Err(e);
            },
        };
        let vt_raw = match reader.read_u32(base + 4) {
            Ok(v) => v,
            Err(e) => {
                assert(!(offset + 8 * count <= d.len()));
                return Err(e);
            },
        };
        out.push(TypeDescEntry { data: data_raw as i32, vt: (vt_raw & 0xFFFF) as u16 });
        idx = idx + 1;
        assert(out@ =~= Seq::new(idx as nat, |i: int| TypeDescEntry {
            data: le32(d, offset + 8 * i) as i32,
            vt: (le32(d, offset + 8 * i + 4) & 0xFFFF) as u16,
        }));
    }
    Ok(out)
}

/// The variant type of a type description, following at most `fuel`
/// pointer entries.
pub fn resolve_walk(dt: i32, descs: &Vec<TypeDescEntry>, aliases: &Vec<Option<u16>>, fuel: usize) -> (r: Option<u16>)
    ensures
        r == vartype(dt, descs@, aliases@, fuel as nat),
    decreases fuel,
{
    if dt < 0 {
        return Some(((dt as u32) & VT_TYPEMASK) as u16);
    }
    let raw = dt as u32;
    if descs.len() == 0 && raw <= VT_TYPEMASK {
        return Some(raw as u16);
    }
    let idx = (dt as u32 / 8) as usize;
    if idx >= descs.len() {
        return Some(VT_USERDEFINED);
    }
    let e = descs[idx];
    if e.vt == VT_PTR {
        if fuel == 0 {
            return None;
        }
        match resolve_walk(e.data, descs, aliases, fuel - 1) {
            Some(t) => Some(t | VT_BYREF),
            None => None,
        }
    } else if e.vt == VT_USERDEFINED {
        let cleaned = e.data & !3i32;
        if cleaned >= 0 {
            let index = (cleaned as u32 / 0x64) as usize;
            if index < aliases.len() {
                if let Some(vt) = aliases[index] {
                    return Some(vt);
                }
            }
        }
        Some(VT_USERDEFINED)
    } else {
        Some(e.vt)
    }
}

/// The variant type of a type description; `None` where its pointer
/// entries go round a cycle.
pub fn resolve_vartype(dt: i32, descs: &Vec<TypeDescEntry>, aliases: &Vec<Option<u16>>) -> (r: Option<u16>)
    ensures
        r == resolve(dt, descs@, aliases@),
{
    resolve_walk(dt, descs, aliases, descs.len())
}

/// The GUID at `offset` in the GUID table.
pub fn read_guid(reader: &Reader, segdir: &SegDir, offset: i32) -> (r: Option<[u8; 16]>)
    ensures
        match guid_in(reader.data@, *segdir, offset) {
            Some(g) => r matches Some(v) && v@ == g,
            None => r is None,
        },
{
    if offset < 0 {
        return None;
    }
    let base = segdir.guid_tab.offset as u64 + offset as u64;
    let len = reader.data.len() as u64;
    if base > len || len - base < 16 {
        return None;
    }
    let mut out: [u8; 16] = [0u8; 16];
    let mut i: u64 = 0;
    while i < 16
        invariant
            len == reader.data@.len(),
            base + 16 <= reader.data@.len(),
            i <= 16,
            out@.len() == 16,
            forall|j: int| 0 <= j < i ==> out@[j] == reader.data@[base + j],
        decreases 16 - i,
    {
        let b = match reader.read_u8(base + i) {
            Ok(v) => v,
            Err(_) => 0,
        };
        out[i as usize] = b;
        i = i + 1;
    }
    assert(out@ =~= reader.data@.subrange(base as int, base + 16));
    Some(out)
}

/// The GUID of zeros.
fn zero_guid_array() -> (r: [u8; 16])
    ensures
        r@ == zero_guid(),
{
    let r: [u8; 16] = [0u8; 16];
    assert(r@ =~= zero_guid());
    r
}

/// A parameter's variant type after the direct and by-reference rules.
pub fn adjust_param_vt(pt: i32, flags: u32, vt: u16) -> (r: u16)
    ensures
        r == param_vt(pt, flags, vt),
{
    let mut v = vt;
    if pt >= 0 {
        let raw = pt as u32;
        let low = raw as u16;
        if raw == 0 && flags & 0xA != 0 {
            v = VT_I4;
        } else if low == 8 || low == 3 || low == 19 || low == 22 || low == 23 || low == 17 || low == 16 {
            v = low;
        }
    }
    if flags & 0xA != 0 && v & VT_BYREF == 0 {
        v = v | VT_BYREF;
    }
    v
}

proof fn lemma_params_stop(d: Seq<u8>, base: int, descs: Seq<TypeDescEntry>, aliases: Seq<Option<u16>>, k: int, n: int)
    requires
        0 <= k <= n,
        !(params_upto(d, base, descs, aliases, k) is Done),
    ensures
        params_upto(d, base, descs, aliases, n) == params_upto(d, base, descs, aliases, k),
    decreases n,
{
    if n > k {
        lemma_params_stop(d, base, descs, aliases, k, n - 1);
    }
}

/// The `nrargs` parameters of 12 bytes each from `base`.
fn parse_params(
    reader: &Reader,
    base: u64,
    nrargs: u16,
    descs: &Vec<TypeDescEntry>,
    aliases: &Vec<Option<u16>>,
) -> (r: Result<Vec<ParamDesc>, ParseStop>)
    requires
        base <= 0x10_0000_0000,
    ensures
        match r {
            Ok(ps) => params_upto(reader.data@, base as int, descs@, aliases@, nrargs as int) == Parsed::Done(ps@),
            Err(s) => stopped_as(s, params_upto(reader.data@, base as int, descs@, aliases@, nrargs as int)),
        },
{
    let ghost d = reader.data@;
    let mut params: Vec<ParamDesc> = Vec::new();
    let mut index: u64 = 0;
    while index < nrargs as u64
        invariant
            d == reader.data@,
            base <= 0x10_0000_0000,
            index <= nrargs,
            params_upto(d, base as int, descs@, aliases@, index as int) == Parsed::Done(params@),
        decreases nrargs - index,
    {
        let at = base + index * 12;
        let param_type = match reader.read_i32(at) {
            Ok(v) => v,
            Err(e) => {
                proof {
                    lemma_params_stop(d, base as int, descs@, aliases@, index + 1, nrargs as int);
                }
                return Err(ParseStop::Error(e));
            },
        };
        let _name = match reader.read_i32(at + 4) {
            Ok(v) => v,
            Err(e) => {
                proof {
                    lemma_params_stop(d, base as int, descs@, aliases@, index + 1, nrargs as int);
                }
                return Err(ParseStop::Error(e));
            },
        };
        let flags = match reader.read_u32(at + 8) {
            Ok(v) => v,
            Err(e) => {
                proof {
                    lemma_params_stop(d, base as int, descs@, aliases@, index + 1, nrargs as int);
                }
                return Err(ParseStop::Error(e));
            },
        };
        let vt = match resolve_vartype(param_type, descs, aliases) {
            Some(v) => v,
            None => {
                proof {
                    lemma_params_stop(d, base as int, descs@, aliases@, index + 1, nrargs as int);
                }
                return Err(ParseStop::Cycle);
            },
        };
        params.push(ParamDesc { vt: adjust_param_vt(param_type, flags, vt), flags });
        index = index + 1;
    }
    Ok(params)
}

/// One function record at `rec`, and where the next starts.
fn parse_func(
    reader: &Reader,
    offset: u64,
    infolen: u64,
    i: u64,
    rec: u64,
    descs: &Vec<TypeDescEntry>,
    aliases: &Vec<Option<u16>>,
) -> (r: Result<(FuncDesc, u64), ParseStop>)
    requires
        offset <= 0x1_0000_0000,
        infolen <= 0x1_0000_0000,
        i < 0x1_0000,
        rec <= 0x4_0000_0000,
    ensures
        match r {
            Ok((f, next)) => func_at(reader.data@, offset as int, infolen as int, i as int, rec as int, descs@, aliases@)
                == Parsed::Done((f.model(), next as int)) && next <= rec + 0xFFFF,
            Err(s) => stopped_as(s, func_at(reader.data@, offset as int, infolen as int, i as int, rec as int, descs@, aliases@)),
        },
{
    let len = reader.data.len() as u64;
    if rec > len || len - rec < 24 {
        return Err(ParseStop::Error(VmError::MemoryOutOfRange));
    }
    let info = match reader.read_u32(rec) {
        Ok(v) => v,
        Err(e) => return Err(ParseStop::Error(e)),
    };
    assert(info & 0xFFFF <= 0xFFFF) by (bit_vector);
    let reclength = (info & 0xFFFF) as u64;
    let data_type = match reader.read_i32(rec + 4) {
        Ok(v) => v,
        Err(e) => return Err(ParseStop::Error(e)),
    };
    let vtable_offset = match reader.read_u16(rec + 12) {
        Ok(v) => v,
        Err(e) => return Err(ParseStop::Error(e)),
    };
    let fkccic = match reader.read_u32(rec + 16) {
        Ok(v) => v,
        Err(e) => return Err(ParseStop::Error(e)),
    };
    let nrargs = match reader.read_u16(rec + 20) {
        Ok(v) => v,
        Err(e) => return Err(ParseStop::Error(e)),
    };
    let memid_offset = offset + infolen + (i + 1) * 4;
    if memid_offset > usize::MAX as u64 {
        return Err(ParseStop::Error(VmError::InvalidConfig("typelib memid overflow")));
    }
    let memid = match reader.read_u32(memid_offset) {
        Ok(v) => v,
        Err(e) => return Err(ParseStop::Error(e)),
    };
    let ret_vt = match resolve_vartype(data_type, descs, aliases) {
        Some(v) => v,
        None => return Err(ParseStop::Cycle),
    };
    let end = rec + reclength;
    let args_len = nrargs as u64 * 12;
    if end > usize::MAX as u64 || end < args_len {
        return Err(ParseStop::Error(VmError::InvalidConfig("typelib param overflow")));
    }
    let params = parse_params(reader, end - args_len, nrargs, descs, aliases)?;
    let f = FuncDesc {
        memid,
        invkind: ((fkccic >> 3) & 0xF) as u16,
        callconv: ((fkccic >> 8) & 0xF) as u16,
        vtable_offset: vtable_offset & 0xFFFE,
        ret_vt,
        params,
    };
    Ok((f, end))
}

proof fn lemma_funcs_stop(d: Seq<u8>, offset: int, infolen: int, descs: Seq<TypeDescEntry>, aliases: Seq<Option<u16>>, k: int, n: int)
    requires
        0 <= k <= n,
        !(funcs_upto(d, offset, infolen, descs, aliases, k) is Done),
    ensures
        funcs_upto(d, offset, infolen, descs, aliases, n) == funcs_upto(d, offset, infolen, descs, aliases, k),
    decreases n,
{
    if n > k {
        lemma_funcs_stop(d, offset, infolen, descs, aliases, k, n - 1);
    }
}

/// The `c_funcs` functions of the block at `offset`.
pub fn parse_funcs(
    reader: &Reader,
    offset: u64,
    c_funcs: u16,
    descs: &Vec<TypeDescEntry>,
    aliases: &Vec<Option<u16>>,
) -> (r: Result<Vec<FuncDesc>, ParseStop>)
    requires
        offset <= 0x8000_0000,
    ensures
        match r {
            Ok(fs) => funcs_spec(reader.data@, offset as int, c_funcs as int, descs@, aliases@) == Parsed::Done(func_models(fs@)),
            Err(s) => stopped_as(s, funcs_spec(reader.data@, offset as int, c_funcs as int, descs@, aliases@)),
        },
{
    let ghost d = reader.data@;
    let infolen = match reader.read_u32(offset) {
        Ok(v) => v as u64,
        Err(e) => return Err(ParseStop::Error(e)),
    };
    let mut rec = offset + 4;
    let mut funcs: Vec<FuncDesc> = Vec::new();
    let mut i: u64 = 0;
    assert(func_models(funcs@) =~= Seq::<FuncModel>::empty());
    while i < c_funcs as u64
        invariant
            d == reader.data@,
            offset <= 0x8000_0000,
            infolen <= 0xFFFF_FFFF,
            infolen == le32(d, offset as int),
            offset + 4 <= d.len(),
            i <= c_funcs,
            rec <= offset + 4 + i * 0xFFFF,
            funcs_upto(d, offset as int, infolen as int, descs@, aliases@, i as int) == Parsed::Done((func_models(funcs@), rec as int)),
        decreases c_funcs - i,
    {
        match parse_func(reader, offset, infolen, i, rec, descs, aliases) {
            Ok((f, next)) => {
                let ghost before = func_models(funcs@);
                let ghost fm = f.model();
                funcs.push(f);
                assert(func_models(funcs@) =~= before.push(fm));
                rec = next;
            },
            Err(s) => {
                proof {
                    lemma_funcs_stop(d, offset as int, infolen as int, descs@, aliases@, i + 1, c_funcs as int);
                }
                return Err(s);
            },
        }
        i = i + 1;
    }
    Ok(funcs)
}

/// The type info whose record is at `offset`.
pub fn parse_typeinfo(
    reader: &Reader,
    segdir: &SegDir,
    descs: &Vec<TypeDescEntry>,
    aliases: &Vec<Option<u16>>,
    offset: u64,
) -> (r: Result<TypeInfoData, ParseStop>)
    requires
        offset <= 0x80_0000_0000,
    ensures
        match r {
            Ok(t) => typeinfo_at(reader.data@, *segdir, descs@, aliases@, offset as int) == Parsed::Done(t.model()),
            Err(s) => stopped_as(s, typeinfo_at(reader.data@, *segdir, descs@, aliases@, offset as int)),
        },
{
    let len = reader.data.len() as u64;
    if offset > len || len - offset < 0x50 {
        return Err(ParseStop::Error(VmError::MemoryOutOfRange));
    }
    let typekind = match reader.read_u32(offset) {
        Ok(v) => v,
        Err(e) => return Err(ParseStop::Error(e)),
    };
    let memoffset = match reader.read_i32(offset + 4) {
        Ok(v) => v,
        Err(e) => return Err(ParseStop::Error(e)),
    };
    let c_element = match reader.read_u32(offset + 0x18) {
        Ok(v) => v,
        Err(e) => return Err(ParseStop::Error(e)),
    };
    let posguid = match reader.read_i32(offset + 0x2C) {
        Ok(v) => v,
        Err(e) => return Err(ParseStop::Error(e)),
    };
    let flags = match reader.read_u32(offset + 0x30) {
        Ok(v) => v,
        Err(e) => return Err(ParseStop::Error(e)),
    };
    let c_funcs = (c_element & 0xFFFF) as u16;
    let c_vars = (c_element >> 16) as u16;
    let c_impl_types = match reader.read_u16(offset + 0x4C) {
        Ok(v) => v,
        Err(e) => return Err(ParseStop::Error(e)),
    };
    let cb_size_vft = match reader.read_u16(offset + 0x4E) {
        Ok(v) => v,
        Err(e) => return Err(ParseStop::Error(e)),
    };
    let guid = match read_guid(reader, segdir, posguid) {
        Some(g) => g,
        None => zero_guid_array(),
    };
    let funcs = if c_funcs > 0 && memoffset > 0 {
        parse_funcs(reader, memoffset as u64, c_funcs, descs, aliases)?
    } else {
        let v: Vec<FuncDesc> = Vec::new();
        assert(func_models(v@) =~= Seq::<FuncModel>::empty());
        v
    };
    Ok(TypeInfoData { guid, typekind: typekind & 0xF, c_funcs, c_vars, c_impl_types, cb_size_vft, flags, funcs })
}

proof fn lemma_aliases_stop(d: Seq<u8>, ti: int, descs: Seq<TypeDescEntry>, k: int, n: int)
    requires
        0 <= k <= n,
        !(aliases_upto(d, ti, descs, k) is Done),
    ensures
        aliases_upto(d, ti, descs, n) == aliases_upto(d, ti, descs, k),
    decreases n,
{
    if n > k {
        lemma_aliases_stop(d, ti, descs, k, n - 1);
    }
}

proof fn lemma_infos_stop(d: Seq<u8>, sd: SegDir, descs: Seq<TypeDescEntry>, al: Seq<Option<u16>>, k: int, n: int)
    requires
        0 <= k <= n,
        !(infos_upto(d, sd, descs, al, k) is Done),
    ensures
        infos_upto(d, sd, descs, al, n) == infos_upto(d, sd, descs, al, k),
    decreases n,
{
    if n > k {
        lemma_infos_stop(d, sd, descs, al, k, n - 1);
    }
}

/// The alias types of the first `n` type infos.
fn read_aliases(reader: &Reader, ti: u64, descs: &Vec<TypeDescEntry>, n: u32) -> (r: Result<Vec<Option<u16>>, ParseStop>)
    requires
        ti <= 0xFFFF_FFFF,
    ensures
        match r {
            Ok(al) => aliases_upto(reader.data@, ti as int, descs@, n as int) == Parsed::Done(al@),
            Err(s) => stopped_as(s, aliases_upto(reader.data@, ti as int, descs@, n as int)),
        },
{
    let ghost d = reader.data@;
    let no_aliases: Vec<Option<u16>> = Vec::new();
    assert(no_aliases@ =~= Seq::<Option<u16>>::empty());
    let mut aliases: Vec<Option<u16>> = Vec::new();
    let mut index: u64 = 0;
    while index < n as u64
        invariant
            d == reader.data@,
            ti <= 0xFFFF_FFFF,
            no_aliases@ == Seq::<Option<u16>>::empty(),
            index <= n,
            aliases_upto(d, ti as int, descs@, index as int) == Parsed::Done(aliases@),
        decreases n - index,
    {
        let mul = index * TYPEINFO_SIZE;
        if mul > usize::MAX as u64 {
            proof {
                lemma_aliases_stop(d, ti as int, descs@, index + 1, n as int);
            }
            return Err(ParseStop::Error(VmError::InvalidConfig("typeinfo offset overflow")));
        }
        let entry = ti + mul;
        let typekind = match reader.read_u32(entry) {
            Ok(v) => v & 0xF,
            Err(e) => {
                proof {
                    lemma_aliases_stop(d, ti as int, descs@, index + 1, n as int);
                }
                return Err(ParseStop::Error(e));
            },
        };
        if typekind != TKIND_ALIAS {
            aliases.push(None);
        } else {
            let datatype1 = match reader.read_i32(entry + 0x54) {
                Ok(v) => v,
                Err(e) => {
                    proof {
                        lemma_aliases_stop(d, ti as int, descs@, index + 1, n as int);
                    }
                    return Err(ParseStop::Error(e));
                },
            };
            match resolve_vartype(datatype1, descs, &no_aliases) {
                Some(vt) => aliases.push(Some(vt)),
                None => {
                    proof {
                        lemma_aliases_stop(d, ti as int, descs@, index + 1, n as int);
                    }
                    return Err(ParseStop::Cycle);
                },
            }
        }
        index = index + 1;
    }
    Ok(aliases)
}

/// The first `n` type infos.
fn read_infos(
    reader: &Reader,
    segdir: &SegDir,
    descs: &Vec<TypeDescEntry>,
    aliases: &Vec<Option<u16>>,
    n: u32,
) -> (r: Result<Vec<TypeInfoData>, ParseStop>)
    ensures
        match r {
            Ok(ts) => infos_upto(reader.data@, *segdir, descs@, aliases@, n as int) == Parsed::Done(info_models(ts@)),
            Err(s) => stopped_as(s, infos_upto(reader.data@, *segdir, descs@, aliases@, n as int)),
        },
{
    let ghost d = reader.data@;
    let mut infos: Vec<TypeInfoData> = Vec::new();
    assert(info_models(infos@) =~= Seq::<TypeInfoModel>::empty());
    let mut index: u64 = 0;
    while index < n as u64
        invariant
            d == reader.data@,
            index <= n,
            infos_upto(d, *segdir, descs@, aliases@, index as int) == Parsed::Done(info_models(infos@)),
        decreases n - index,
    {
        let mul = index * TYPEINFO_SIZE;
        if mul > usize::MAX as u64 {
            proof {
                lemma_infos_stop(d, *segdir, descs@, aliases@, index + 1, n as int);
            }
            return Err(ParseStop::Error(VmError::InvalidConfig("typeinfo offset overflow")));
        }
        let entry = segdir.typeinfo_tab.offset as u64 + mul;
        match parse_typeinfo(reader, segdir, descs, aliases, entry) {
            Ok(t) => {
                let ghost before = info_models(infos@);
                let ghost tm = t.model();
                infos.push(t);
                assert(info_models(infos@) =~= before.push(tm));
            },
            Err(s) => {
                proof {
                    lemma_infos_stop(d, *segdir, descs@, aliases@, index + 1, n as int);
                }
                return Err(s);
            },
        }
        index = index + 1;
    }
    Ok(infos)
}

/// Reads an MSFT type library; `Err(ParseStop::Cycle)` where its type
/// descriptions' pointer entries go round a cycle.
pub fn try_parse_msft(data: &[u8]) -> (r: Result<TypeLib, ParseStop>)
    ensures
        match r {
            Ok(lib) => msft(data@) == Parsed::Done(lib.model()),
            Err(s) => stopped_as(s, msft(data@)),
        },
{
    let reader = Reader::new(data);
    let magic = match reader.read_u32(0) {
        Ok(v) => v,
        Err(e) => return Err(ParseStop::Error(e)),
    };
    if magic != MSFT_SIGNATURE {
        return Err(ParseStop::Error(VmError::InvalidConfig("invalid MSFT signature")));
    }
    let varflags = match reader.read_u32(0x14) {
        Ok(v) => v,
        Err(e) => return Err(ParseStop::Error(e)),
    };
    let nrtypeinfos = match reader.read_u32(0x20) {
        Ok(v) => v,
        Err(e) => return Err(ParseStop::Error(e)),
    };
    let posguid = match reader.read_i32(0x08) {
        Ok(v) => v,
        Err(e) => return Err(ParseStop::Error(e)),
    };
    if nrtypeinfos as u64 * 4 > usize::MAX as u64 {
        return Err(ParseStop::Error(VmError::InvalidConfig("typelib count overflow")));
    }
    let segdir_offset = 0x54 + nrtypeinfos as u64 * 4 + if (varflags & HELPDLLFLAG) != 0 { 4 } else { 0 };
    let mut segdir = match SegDir::read(&reader, segdir_offset) {
        Ok(sd) => sd,
        Err(e) => return Err(ParseStop::Error(e)),
    };
    if !guid_table_looks_valid(&reader, &segdir, posguid) {
        if let Some(guess) = guess_guid_tab(&reader, segdir_offset, posguid) {
            segdir.guid_tab = guess;
        }
    }
    if segdir.guid_tab.offset == segdir.typdesc_tab.offset && segdir.guid_tab.length == segdir.typdesc_tab.length {
        if let Some(guess) = guess_typdesc_tab(&reader, segdir_offset, &segdir.guid_tab) {
            segdir.typdesc_tab = guess;
        }
    }
    let type_descs = match read_typdesc_table(&reader, &segdir) {
        Ok(t) => t,
        Err(e) => return Err(ParseStop::Error(e)),
    };
    let aliases = read_aliases(&reader, segdir.typeinfo_tab.offset as u64, &type_descs, nrtypeinfos)?;
    let typeinfos = read_infos(&reader, &segdir, &type_descs, &aliases, nrtypeinfos)?;
    let guid = match read_guid(&reader, &segdir, posguid) {
        Some(g) => g,
        None => zero_guid_array(),
    };
    Ok(TypeLib { guid, typeinfos })
}

/// Reads an MSFT type library image. (Where its type descriptions' pointer
/// entries go round a cycle the reading does not end; such images are left
/// out here and answered by `try_parse_msft`.)
pub fn parse_msft(data: &[u8]) -> (r: Result<TypeLib, VmError>)
    requires
        !(msft(data@) is Cycle),
    ensures
        match msft(data@) {
            Parsed::Done(m) => r matches Ok(lib) && lib.model() == m,
            Parsed::Failed(e) => r matches Err(x) && x == e,
            Parsed::Cycle => false,
        },
{
    match try_parse_msft(data) {
        Ok(lib) => Ok(lib),
        Err(ParseStop::Error(e)) => Err(e),
        Err(ParseStop::Cycle) => Err(VmError::InvalidConfig("typelib type cycle")),
    }
}

} // verus!
