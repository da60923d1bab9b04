//! Loading type libraries: `LoadTypeLib`, `LoadRegTypeLib` and
//! `RegisterTypeLib`. Reading the file is the caller's part: the routines
//! here say which path to read, and take in the bytes read.

use vstd::prelude::*;

use super::bstr::{read_utf16_z, utf16z};
use super::constants::{E_INVALIDARG, E_NOTIMPL, S_OK, TYPE_E_LIBNOTREGISTERED};
use super::guid::{guid_at, read_guid_bytes};
use super::typelib::parse::ParseStop;
use super::typelib::{load_from_bytes, load_spec, Parsed, TypeLib, TypeLibModel};
use super::typelib_api::{alloc_typelib, com_object_fits, object_at, stored_u32, typelib_methods, typelib_vtable, with_thunks, all_resolve, same_but_com};
use crate::num::{decode_utf16_lossy, utf16_lossy};
use crate::registry::key::parse_key;
use crate::registry::store::model_get;
use crate::registry::value::{RegistryValue, ValueModel};
use crate::text::{chars_of, string_from, trim, trimmed};
use crate::vm::imports::imports_model;
use crate::vm::windows::guid::{format_guid, format_guid_spec};
use crate::vm::windows::msvcr40d::format::{dec_digits, push_dec};
use crate::vm::{add32, arg, bytes32, heap_grown, store, Vm, VmError};

verus! {

/// What `register_type_lib` returns (`r`) and leaves (`post`) on the machine `pre`.
pub open spec fn register_type_lib_effect(pre: &Vm, post: &Vm, stack_ptr: u32, r: u32) -> bool {
    &&& r == S_OK
    &&& ({
        let out = arg(pre, stack_ptr, 2);
        if out != 0 {
            stored_u32(pre, post, out, 0)
        } else {
            *post == *pre
        }
    })
}

/// `RegisterTypeLib(lib, path, helpdir)`: stores 0 at the third argument
/// where it is not null; `S_OK`.
pub fn register_type_lib(vm: &mut Vm, stack_ptr: u32) -> (r: u32)
    ensures
        register_type_lib_effect(old(vm), final(vm), stack_ptr, r),
{
    let out = vm.arg(stack_ptr, 2);
    if out != 0 {
        let _ = vm.write_u32(out, 0);
    }
    S_OK
}

/// `s` without the quotes at its start.
pub open spec fn unquote_start(s: Seq<char>) -> Seq<char>
    decreases s.len(),
{
    if s.len() > 0 && s[0] == '"' {
        unquote_start(s.drop_first())
    } else {
        s
    }
}

/// `s` without the quotes at its end.
pub open spec fn unquote_end(s: Seq<char>) -> Seq<char>
    decreases s.len(),
{
    if s.len() > 0 && s.last() == '"' {
        unquote_end(s.drop_last())
    } else {
        s
    }
}

/// `s` without the quotes at either end.
pub open spec fn unquote(s: Seq<char>) -> Seq<char> {
    unquote_end(unquote_start(s))
}

fn strip_quotes(cs: &Vec<char>) -> (r: Vec<char>)
    ensures
        r@ == unquote(cs@),
{
    let mut a: usize = 0;
    assert(cs@.skip(0) =~= cs@);
    while a < cs.len() && cs[a] == '"'
        invariant
            a <= cs@.len(),
            unquote_start(cs@) == unquote_start(cs@.skip(a as int)),
        decreases cs.len() - a,
    {
        assert(cs@.skip(a as int).drop_first() =~= cs@.skip(a + 1));
        a = a + 1;
    }
    let ghost s = cs@.skip(a as int);
    assert(unquote_start(s) == s);
    let mut b: usize = cs.len();
    assert(s.take(s.len() as int) =~= s);
    while b > a && cs[b - 1] == '"'
        invariant
            a <= b <= cs@.len(),
            s == cs@.skip(a as int),
            unquote_end(s) == unquote_end(cs@.subrange(a as int, b as int)),
        decreases b,
    {
        assert(cs@.subrange(a as int, b as int).drop_last() =~= cs@.subrange(a as int, b - 1));
        b = b - 1;
    }
    assert(unquote_end(cs@.subrange(a as int, b as int)) == cs@.subrange(a as int, b as int));
    let mut out: Vec<char> = Vec::new();
    let mut i = a;
    while i < b
        invariant
            a <= i <= b <= cs@.len(),
            out@ == cs@.subrange(a as int, i as int),
        decreases b - i,
    {
        out.push(cs[i]);
        i = i + 1;
        assert(out@ =~= cs@.subrange(a as int, i as int));
    }
    out
}

/// The path that `LoadTypeLib(path, out)` loads: the NUL-terminated UTF-16
/// text at `path` (unpaired surrogates replaced), without the whitespace
/// and then the quotes round it. `E_INVALIDARG` for a null `out`, an
/// unreadable text or an empty path.
pub open spec fn type_lib_path(vm: &Vm, sp: u32) -> Result<Seq<char>, u32> {
    if arg(vm, sp, 1) == 0 {
        Err(E_INVALIDARG)
    } else {
        match utf16z(vm, arg(vm, sp, 0)) {
            Err(_) => Err(E_INVALIDARG),
            Ok(u) => {
                let p = unquote(trim(utf16_lossy(u)));
                if p.len() == 0 {
                    Err(E_INVALIDARG)
                } else {
                    Ok(p)
                }
            },
        }
    }
}

pub fn load_type_lib_path(vm: &Vm, stack_ptr: u32) -> (r: Result<String, u32>)
    ensures
        match type_lib_path(vm, stack_ptr) {
            Ok(p) => r matches Ok(s) && s@ == p,
            Err(c) => r == Err::<String, u32>(c),
        },
{
    let path_ptr = vm.arg(stack_ptr, 0);
    let out = vm.arg(stack_ptr, 1);
    if out == 0 {
        return Err(E_INVALIDARG);
    }
    let units = match read_utf16_z(vm, path_ptr) {
        Ok(u) => u,
        Err(_) => return Err(E_INVALIDARG),
    };
    let text = decode_utf16_lossy(units.as_slice());
    let cs = chars_of(text.as_str());
    let t = trimmed(cs.as_slice());
    let p = strip_quotes(&t);
    if p.len() == 0 {
        return Err(E_INVALIDARG);
    }
    Ok(string_from(p.as_slice()))
}

/// Why a type library file is refused where its type descriptions go
/// round a cycle.
pub const TYPEDESC_CYCLE: &'static str = "typelib type descriptions form a cycle";

/// Takes in the bytes of a type library file: parses it, checks its GUID
/// against `expected` where one is given, and allocates an ITypeLib object
/// for it. The parse error; `InvalidConfig` for a cycle of type
/// descriptions or another GUID; else as `alloc_typelib`.
pub fn load_typelib_bytes(vm: &mut Vm, bytes: &[u8], expected: Option<&[u8]>) -> (r: Result<u32, VmError>)
    ensures
        match load_spec(bytes@, None) {
            Parsed::Failed(e) => r == Err::<u32, VmError>(e) && *final(vm) == *old(vm),
            Parsed::Cycle => r == Err::<u32, VmError>(VmError::InvalidConfig(TYPEDESC_CYCLE)) && *final(vm) == *old(vm),
            Parsed::Done(m) => if expected matches Some(g) && m.guid != g@ {
                r == Err::<u32, VmError>(VmError::InvalidConfig("typelib guid mismatch")) && *final(vm) == *old(vm)
            } else {
                let s = with_thunks(imports_model(old(vm).imports@));
                let id = old(vm).com.next_id;
                &&& same_but_com(old(vm), final(vm))
                &&& imports_model(final(vm).imports@) == s
                &&& final(vm).com.typelibs@ == old(vm).com.typelibs@.insert(id, final(vm).com.typelibs@[id])
                &&& final(vm).com.typelibs@[id].model() == m
                &&& final(vm).com.next_id == add32(id, 1)
                &&& final(vm).com.typeinfos@ == old(vm).com.typeinfos@
                &&& r matches Ok(obj) ==> object_at(final(vm), obj as int, typelib_vtable(s), id)
                &&& r is Ok <==> (all_resolve(s, typelib_methods()) && com_object_fits(old(vm), 52))
            },
        },
{
    let lib = match load_from_bytes(bytes, None) {
        Ok(lib) => lib,
        Err(ParseStop::Error(e)) => return Err(e),
        Err(ParseStop::Cycle) => return Err(VmError::InvalidConfig(TYPEDESC_CYCLE)),
    };
    if let Some(g) = expected {
        let mut same = lib.guid.len() == g.len();
        let mut k: usize = 0;
        while same && k < g.len()
            invariant
                k <= g@.len(),
                same ==> lib.guid@.len() == g@.len(),
                same ==> forall|j: int| 0 <= j < k ==> lib.guid@[j] == g@[j],
                !same ==> lib.guid@ != g@,
            decreases g.len() - k,
        {
            if lib.guid[k] != g[k] {
                same = false;
            }
            k = k + 1;
        }
        if !same {
            return Err(VmError::InvalidConfig("typelib guid mismatch"));
        }
        assert(lib.guid@ =~= g@);
    }
    let ghost a = *vm;
    let ghost lib0 = lib;
    let r = alloc_typelib(vm, lib);
    proof {
        assert(vm.com.typelibs@[a.com.next_id] == lib0);
    }
    r
}

/// `b` is `a` with a type library taken in under `id` and its ITypeLib
/// object `v` stored at `out`.
pub open spec fn typelib_handed_out(a: &Vm, b: &Vm, out: u32, id: u32) -> bool {
    exists|g: Vm, v: u32| {
        &&& heap_grown(a, &g)
        &&& b.memory@ == #[trigger] store(a.base, g.memory@, out as int, bytes32(v))
        &&& b.heap_cursor == g.heap_cursor
        &&& object_at(&g, v as int, typelib_vtable(with_thunks(imports_model(a.imports@))), id)
    }
}

/// The end of a load that stores its ITypeLib object at `out`, given the
/// bytes of the file (`None` where it could not be read): `S_OK`, or
/// `E_NOTIMPL` (nothing stored) where there are no bytes or they cannot be
/// taken in.
pub fn finish_typelib_load(vm: &mut Vm, out: u32, bytes: Option<&[u8]>, expected: Option<&[u8]>) -> (r: u32)
    ensures
        match bytes {
            None => r == E_NOTIMPL && *final(vm) == *old(vm),
            Some(b) => match load_spec(b@, None) {
                Parsed::Done(m) => if expected matches Some(g) && m.guid != g@ {
                    r == E_NOTIMPL && *final(vm) == *old(vm)
                } else {
                    &&& final(vm).com.typelibs@ == old(vm).com.typelibs@.insert(old(vm).com.next_id,
                        final(vm).com.typelibs@[old(vm).com.next_id])
                    &&& final(vm).com.typelibs@[old(vm).com.next_id].model() == m
                    &&& r == S_OK || r == E_NOTIMPL
                    &&& r == S_OK <==> (all_resolve(with_thunks(imports_model(old(vm).imports@)), typelib_methods())
                        && com_object_fits(old(vm), 52))
                    &&& r == S_OK ==> typelib_handed_out(old(vm), final(vm), out, old(vm).com.next_id)
                    &&& r == E_NOTIMPL ==> heap_grown(old(vm), final(vm))
                },
                _ => r == E_NOTIMPL && *final(vm) == *old(vm),
            },
        },
{
    let b = match bytes {
        Some(b) => b,
        None => return E_NOTIMPL,
    };
    let ghost a = *vm;
    match load_typelib_bytes(vm, b, expected) {
        Ok(ptr) => {
            let ghost g = *vm;
            let _ = vm.write_u32(out, ptr);
            proof {
                assert(vm.memory@ == store(a.base, g.memory@, out as int, bytes32(ptr)));
                assert(typelib_handed_out(&a, &*vm, out, a.com.next_id));
            }
            S_OK
        },
        Err(_) => E_NOTIMPL,
    }
}

/// The text of a type library version: `major.minor` in decimal.
pub open spec fn version_text(major: u16, minor: u16) -> Seq<char> {
    dec_digits(major as nat) + seq!['.'] + dec_digits(minor as nat)
}

/// The registry keys where the path of a type library is looked for, in
/// order: its `win32` entry for locale 0 under `TypeLib` in HKCR, in the
/// classes of HKLM and HKCU, and in the two 32-bit views of HKLM.
pub open spec fn typelib_keys(guid: Seq<char>, version: Seq<char>) -> Seq<Seq<char>> {
    let tail = "\\\\"@ + version + "\\\\0\\\\win32"@;
    seq![
        "HKCR\\\\TypeLib\\\\"@ + guid + tail,
        "HKLM\\\\Software\\\\Classes\\\\TypeLib\\\\"@ + guid + tail,
        "HKCU\\\\Software\\\\Classes\\\\TypeLib\\\\"@ + guid + tail,
        "HKLM\\\\Software\\\\Classes\\\\WOW6432Node\\\\TypeLib\\\\"@ + guid + tail,
        "HKLM\\\\Software\\\\WOW6432Node\\\\Classes\\\\TypeLib\\\\"@ + guid + tail,
    ]
}

/// The first string value of the keys from `i` on (a key that does not
/// parse is an error).
pub open spec fn path_in(reg: crate::registry::store::RegistryModel, keys: Seq<Seq<char>>, i: int) -> Result<Option<Seq<char>>, VmError>
    decreases keys.len() - i,
{
    if i < 0 || i >= keys.len() {
        Ok(None)
    } else {
        match parse_key(keys[i]) {
            Err(_) => Err(VmError::InvalidConfig("registry key")),
            Ok(k) => match model_get(reg, k) {
                Some(ValueModel::String(p)) => Ok(Some(p)),
                _ => path_in(reg, keys, i + 1),
            },
        }
    }
}

/// The registered path of the type library with the GUID text `guid` and
/// the version `major.minor`; an error without a registry.
pub open spec fn typelib_path_spec(vm: &Vm, guid: Seq<char>, major: u16, minor: u16) -> Result<Option<Seq<char>>, VmError> {
    match vm.registry {
        None => Err(VmError::InvalidConfig("windows registry unavailable")),
        Some(reg) => path_in(reg@, typelib_keys(guid, version_text(major, minor)), 0),
    }
}

fn typelib_key(prefix: &str, guid: &Vec<char>, version: &Vec<char>) -> (r: String)
    ensures
        r@ == prefix@ + guid@ + "\\\\"@ + version@ + "\\\\0\\\\win32"@,
{
    let mut cs = chars_of(prefix);
    let sep = chars_of("\\\\");
    let tail = chars_of("\\\\0\\\\win32");
    let ghost start = cs@;
    let mut i: usize = 0;
    while i < guid.len()
        invariant
            i <= guid@.len(),
            cs@ == start + guid@.take(i as int),
        decreases guid.len() - i,
    {
        cs.push(guid[i]);
        i = i + 1;
        assert(cs@ =~= start + guid@.take(i as int));
    }
    assert(guid@.take(guid@.len() as int) =~= guid@);
    append_chars(&mut cs, &sep);
    append_chars(&mut cs, version);
    append_chars(&mut cs, &tail);
    string_from(cs.as_slice())
}

fn append_chars(out: &mut Vec<char>, more: &Vec<char>)
    ensures
        final(out)@ == old(out)@ + more@,
{
    let mut i: usize = 0;
    while i < more.len()
        invariant
            i <= more@.len(),
            out@ == old(out)@ + more@.take(i as int),
        decreases more.len() - i,
    {
        out.push(more[i]);
        i = i + 1;
        assert(out@ =~= old(out)@ + more@.take(i as int));
    }
    assert(more@.take(more@.len() as int) =~= more@);
}

/// The path of the type library with the GUID text `guid` and the version
/// `major.minor`, from the first of its registry keys that holds a string
/// value; `None` where none does.
pub fn resolve_typelib_path(vm: &Vm, guid: &str, major: u16, minor: u16) -> (r: Result<Option<String>, VmError>)
    ensures
        match typelib_path_spec(vm, guid@, major, minor) {
            Ok(Some(p)) => r matches Ok(Some(s)) && s@ == p,
            Ok(None) => r matches Ok(None),
            Err(e) => r == Err::<Option<String>, VmError>(e),
        },
{
    let registry = match &vm.registry {
        Some(reg) => reg,
        None => return Err(VmError::InvalidConfig("windows registry unavailable")),
    };
    let g = chars_of(guid);
    let mut version: Vec<char> = Vec::new();
    push_dec(&mut version, major as u32);
    version.push('.');
    push_dec(&mut version, minor as u32);
    assert(version@ =~= version_text(major, minor));
    let keys = vec![
        typelib_key("HKCR\\\\TypeLib\\\\", &g, &version),
        typelib_key("HKLM\\\\Software\\\\Classes\\\\TypeLib\\\\", &g, &version),
        typelib_key("HKCU\\\\Software\\\\Classes\\\\TypeLib\\\\", &g, &version),
        typelib_key("HKLM\\\\Software\\\\Classes\\\\WOW6432Node\\\\TypeLib\\\\", &g, &version),
        typelib_key("HKLM\\\\Software\\\\WOW6432Node\\\\Classes\\\\TypeLib\\\\", &g, &version),
    ];
    let ghost ks = typelib_keys(guid@, version_text(major, minor));
    assert(keys@.len() == 5);
    assert(forall|j: int| 0 <= j < 5 ==> #[trigger] keys@[j]@ == ks[j]);
    let mut i: usize = 0;
    while i < keys.len()
        invariant
            i <= 5,
            keys@.len() == 5,
            forall|j: int| 0 <= j < 5 ==> #[trigger] keys@[j]@ == ks[j],
            ks.len() == 5,
            ks == typelib_keys(guid@, version_text(major, minor)),
            vm.registry == Some(*registry),
            path_in(registry@, ks, 0) == path_in(registry@, ks, i as int),
        decreases 5 - i,
    {
        assert(keys@[i as int]@ == ks[i as int]);
        assert(path_in(registry@, ks, i as int) == match parse_key(ks[i as int]) {
            Err(_) => Err(VmError::InvalidConfig("registry key")),
            Ok(k) => match model_get(registry@, k) {
                Some(ValueModel::String(p)) => Ok(Some(p)),
                _ => path_in(registry@, ks, i + 1),
            },
        });
        match registry.get(keys[i].as_str()) {
            Err(_) => return Err(VmError::InvalidConfig("registry key")),
            Ok(Some(RegistryValue::String(path))) => return Ok(Some(path.clone())),
            Ok(_) => {},
        }
        i = i + 1;
    }
    Ok(None)
}

/// What `LoadRegTypeLib(guid, major, minor, lcid, out)` asks for: the GUID,
/// the version and `out`. `E_INVALIDARG` for a null `out` or an unreadable
/// GUID.
pub fn load_reg_type_lib_request(vm: &Vm, stack_ptr: u32) -> (r: Result<(Vec<u8>, u16, u16, u32), u32>)
    ensures
        ({
            let out = arg(vm, stack_ptr, 4);
            if out == 0 {
                r == Err::<(Vec<u8>, u16, u16, u32), u32>(E_INVALIDARG)
            } else {
                match guid_at(vm, arg(vm, stack_ptr, 0)) {
                    None => r == Err::<(Vec<u8>, u16, u16, u32), u32>(E_INVALIDARG),
                    Some(g) => r matches Ok((b, major, minor, o)) && b@ == g && major == arg(vm, stack_ptr, 1) as u16
                        && minor == arg(vm, stack_ptr, 2) as u16 && o == out,
                }
            }
        }),
{
    let guid_ptr = vm.arg(stack_ptr, 0);
    let major = vm.arg(stack_ptr, 1) as u16;
    let minor = vm.arg(stack_ptr, 2) as u16;
    let out = vm.arg(stack_ptr, 4);
    if out == 0 {
        return Err(E_INVALIDARG);
    }
    match read_guid_bytes(vm, guid_ptr) {
        Some(g) => Ok((g, major, minor, out)),
        None => Err(E_INVALIDARG),
    }
}

/// The path that `LoadRegTypeLib` loads: the registered one, else the
/// path of the machine's own image (`TYPE_E_LIBNOTREGISTERED` where there
/// is none); `E_NOTIMPL` where the registry cannot be searched.
pub fn reg_typelib_path(vm: &Vm, guid: &[u8], major: u16, minor: u16, image_path: Option<&str>) -> (r: Result<String, u32>)
    requires
        guid@.len() == 16,
    ensures
        match typelib_path_spec(vm, format_guid_spec(guid@), major, minor) {
            Ok(Some(p)) => r matches Ok(s) && s@ == p,
            Ok(None) => match image_path {
                Some(ip) => r matches Ok(s) && s@ == ip@,
                None => r == Err::<String, u32>(TYPE_E_LIBNOTREGISTERED),
            },
            Err(_) => r == Err::<String, u32>(E_NOTIMPL),
        },
{
    let text = format_guid(guid);
    match resolve_typelib_path(vm, text.as_str(), major, minor) {
        Ok(Some(p)) => Ok(p),
        Ok(None) => match image_path {
            Some(ip) => Ok(string_from(chars_of(ip).as_slice())),
            None => Err(TYPE_E_LIBNOTREGISTERED),
        },
        Err(_) => Err(E_NOTIMPL),
    }
}

} // verus!
