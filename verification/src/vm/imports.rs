//! The table of routines that imports of a loaded image resolve to.

use vstd::prelude::*;

use super::Vm;
use crate::text::owned;

verus! {

/// How a routine is called: by the caller cleaning the stack, or by the
/// routine popping the given number of bytes of arguments.
#[derive(Debug, Clone, Copy, PartialEq, Eq)]
pub enum CallConv {
    Cdecl,
    Stdcall(u32),
}

/// How an import names its routine.
#[derive(Debug, Clone, PartialEq, Eq)]
pub enum ImportName {
    Named(String),
    Ordinal(u32),
}

/// The routine that a registered import runs.
#[derive(Debug, Clone, Copy, PartialEq, Eq)]
pub enum Routine {
    /// A routine with nothing to do: it returns the given value.
    Stub(u32),
    RtlInitializeSListHead,
    ClsidFromString,
    ClsidFromProgId,
    StringFromGuid2,
    CoCreateInstance,
    CoGetClassObject,
    CoTaskMemAlloc,
    CoTaskMemRealloc,
    CoTaskMemFree,
    CreateDataAdviseHolder,
    ReadClassStm,
    WriteClassStm,
    OleInitialize,
    OleUninitialize,
    OleSaveToStream,
    OleLockRunning,
    CreateOleAdviseHolder,
    OleRegGetUserType,
    OleRegGetMiscStatus,
    OleRegEnumVerbs,
    CreateStreamOnHGlobal,
    SysAllocString,
    SysAllocStringLen,
    SysFreeString,
    SysStringLen,
    SysStringByteLen,
    SysAllocStringByteLen,
    VariantInit,
    VariantClear,
    VariantChangeType,
    SafeArrayCreate,
    SafeArrayAccessData,
    SafeArrayUnaccessData,
    LoadTypeLib,
    LoadRegTypeLib,
    RegisterTypeLib,
    UnRegisterTypeLib,
    SystemTimeToVariantTime,
    VariantTimeToSystemTime,
    VarUi4FromStr,
    VarBstrCat,
    OleCreatePropertyFrame,
    OleCreateFontIndirect,
    Sprintf,
    Malloc,
    Memcpy,
    Fopen,
    Fclose,
    Fgetc,
    CxxFrameHandler,
    TypeInfoDtor,
    OperatorDelete,
    AdjustFdiv,
    MallocDbg,
    Initterm,
    FreeDbg,
    Onexit,
    Fputc,
    Strcpy,
    Memset,
    Strcat,
    DllOnexit,
    TypeLibQueryInterface,
    TypeLibGetTypeInfoCount,
    TypeLibGetTypeInfo,
    TypeLibGetTypeInfoType,
    TypeLibGetTypeInfoOfGuid,
    TypeInfoQueryInterface,
    TypeInfoGetTypeAttr,
    TypeInfoInvoke,
}

/// A registered import.
pub struct Import {
    pub dll: String,
    pub name: ImportName,
    pub conv: CallConv,
    pub routine: Routine,
}

/// An import's name with its text as characters.
pub enum NameModel {
    Named(Seq<char>),
    Ordinal(u32),
}

/// A registered import with its texts as characters.
pub struct ImportModel {
    pub dll: Seq<char>,
    pub name: NameModel,
    pub conv: CallConv,
    pub routine: Routine,
}

pub open spec fn import_model(i: Import) -> ImportModel {
    ImportModel {
        dll: i.dll@,
        name: match i.name {
            ImportName::Named(n) => NameModel::Named(n@),
            ImportName::Ordinal(o) => NameModel::Ordinal(o),
        },
        conv: i.conv,
        routine: i.routine,
    }
}

/// The import table as models.
pub open spec fn imports_model(v: Seq<Import>) -> Seq<ImportModel> {
    v.map_values(|i: Import| import_model(i))
}

/// An import by name.
pub open spec fn named(dll: Seq<char>, name: Seq<char>, conv: CallConv, routine: Routine) -> ImportModel {
    ImportModel { dll, name: NameModel::Named(name), conv, routine }
}

/// An import by ordinal.
pub open spec fn by_ordinal(dll: Seq<char>, ordinal: u32, conv: CallConv, routine: Routine) -> ImportModel {
    ImportModel { dll, name: NameModel::Ordinal(ordinal), conv, routine }
}

/// The bytes that `n` 32-bit arguments take on the stack.
pub open spec fn arg_bytes(n: nat) -> nat {
    4 * n
}

/// The bytes that `n` 32-bit arguments take on the stack.
pub fn stdcall_args(n: u32) -> (r: u32)
    requires
        n < 0x4000_0000,
    ensures
        r == arg_bytes(n as nat),
{
    4 * n
}

/// What every registration keeps: all of the machine but its import table.
pub open spec fn same_but_imports(a: &Vm, b: &Vm) -> bool {
    &&& a.memory == b.memory
    &&& a.base == b.base
    &&& a.stack_top == b.stack_top
    &&& a.heap_start == b.heap_start
    &&& a.heap_end == b.heap_end
    &&& a.heap_cursor == b.heap_cursor
    &&& a.os == b.os
    &&& a.registry == b.registry
    &&& a.ecx == b.ecx
    &&& a.com == b.com
}

impl Vm {
    fn push_import(&mut self, entry: Import)
        ensures
            same_but_imports(old(self), final(self)),
            imports_model(final(self).imports@) == imports_model(old(self).imports@).push(import_model(entry)),
    {
        let ghost old_imports = self.imports@;
        let ghost e = entry;
        self.imports.push(entry);
        assert(imports_model(self.imports@) =~= imports_model(old_imports).push(import_model(e)));
    }

    /// Registers a routine called by the caller-cleans convention.
    pub fn register_import(&mut self, dll: &str, name: &str, routine: Routine)
        ensures
            same_but_imports(old(self), final(self)),
            imports_model(final(self).imports@) == imports_model(old(self).imports@).push(
                named(dll@, name@, CallConv::Cdecl, routine),
            ),
    {
        self.push_import(Import { dll: owned(dll), name: ImportName::Named(owned(name)), conv: CallConv::Cdecl, routine });
    }

    /// Registers a routine that pops `args` bytes of arguments.
    pub fn register_import_stdcall(&mut self, dll: &str, name: &str, args: u32, routine: Routine)
        ensures
            same_but_imports(old(self), final(self)),
            imports_model(final(self).imports@) == imports_model(old(self).imports@).push(
                named(dll@, name@, CallConv::Stdcall(args), routine),
            ),
    {
        self.push_import(Import { dll: owned(dll), name: ImportName::Named(owned(name)), conv: CallConv::Stdcall(args), routine });
    }

    /// Registers a routine imported by ordinal that pops `args` bytes.
    pub fn register_import_ordinal_stdcall(&mut self, dll: &str, ordinal: u32, args: u32, routine: Routine)
        ensures
            same_but_imports(old(self), final(self)),
            imports_model(final(self).imports@) == imports_model(old(self).imports@).push(
                by_ordinal(dll@, ordinal, CallConv::Stdcall(args), routine),
            ),
    {
        self.push_import(Import { dll: owned(dll), name: ImportName::Ordinal(ordinal), conv: CallConv::Stdcall(args), routine });
    }

    /// Registers, by name, routines that do nothing but return 0.
    pub fn register_stubs(&mut self, dll: &str, names: &[&str])
        ensures
            same_but_imports(old(self), final(self)),
            imports_model(final(self).imports@) == imports_model(old(self).imports@) + stub_models(dll@, names@),
    {
        let ghost start = imports_model(self.imports@);
        let mut i: usize = 0;
        while i < names.len()
            invariant
                i <= names@.len(),
                same_but_imports(old(self), self),
                imports_model(self.imports@) == start + stub_models(dll@, names@.take(i as int)),
            decreases names.len() - i,
        {
            self.register_import(dll, names[i], Routine::Stub(0));
            assert(names@.take(i + 1) =~= names@.take(i as int).push(names@[i as int]));
            assert(stub_models(dll@, names@.take(i + 1)) =~= stub_models(dll@, names@.take(i as int)).push(
                named(dll@, names@[i as int]@, CallConv::Cdecl, Routine::Stub(0))));
            i = i + 1;
        }
        assert(names@.take(names@.len() as int) =~= names@);
    }
}

/// Where the thunks of the imports lie, above the machine's memory and four
/// bytes apart: the thunk of the import at index `i` is at
/// `THUNK_BASE + 4 * i`.
pub const THUNK_BASE: u32 = 0xF000_0000;

/// How many imports have a thunk.
pub const THUNK_COUNT: u32 = 0x0400_0000;

/// Whether `m` is a routine registered for any DLL under `name`.
pub open spec fn is_dynamic(m: ImportModel, name: Seq<char>) -> bool {
    &&& m.dll.len() == 0
    &&& m.name == NameModel::Named(name)
}

/// Whether `i` is the first index of a routine registered for any DLL
/// under `name`.
pub open spec fn first_dynamic(s: Seq<ImportModel>, name: Seq<char>, i: int) -> bool {
    &&& 0 <= i < s.len()
    &&& is_dynamic(s[i], name)
    &&& forall|j: int| 0 <= j < i ==> !is_dynamic(#[trigger] s[j], name)
}

/// The thunk that `name` resolves to: that of the first routine registered
/// for any DLL under it, where that one has a thunk.
pub open spec fn dynamic_thunk(s: Seq<ImportModel>, name: Seq<char>) -> Option<u32> {
    if exists|i: int| first_dynamic(s, name, i) {
        let i = choose|i: int| first_dynamic(s, name, i);
        if i < THUNK_COUNT {
            Some((THUNK_BASE + 4 * i) as u32)
        } else {
            None
        }
    } else {
        None
    }
}

/// Registering more routines leaves a name that already resolves resolving
/// to the same thunk.
pub proof fn law_thunk_stays(s: Seq<ImportModel>, more: Seq<ImportModel>, name: Seq<char>)
    requires
        dynamic_thunk(s, name) is Some,
    ensures
        dynamic_thunk(s + more, name) == dynamic_thunk(s, name),
{
    let i = choose|i: int| first_dynamic(s, name, i);
    let t = s + more;
    assert(first_dynamic(t, name, i)) by {
        assert(t[i] == s[i]);
        assert forall|j: int| 0 <= j < i implies !is_dynamic(#[trigger] t[j], name) by {
            assert(t[j] == s[j]);
        }
    }
    let k = choose|k: int| first_dynamic(t, name, k);
    if k < i {
        assert(!is_dynamic(t[k], name));
    }
    if k > i {
        assert(!is_dynamic(t[i], name));
    }
    assert(k == i);
}

/// A routine registered for any DLL.
pub open spec fn dynamic(name: Seq<char>, args: u32, routine: Routine) -> ImportModel {
    named(Seq::empty(), name, CallConv::Stdcall(args), routine)
}

impl Vm {
    /// Registers a routine for any DLL, found by its name alone, that pops
    /// `args` bytes of arguments.
    pub fn register_import_any_stdcall(&mut self, name: &str, args: u32, routine: Routine)
        ensures
            same_but_imports(old(self), final(self)),
            imports_model(final(self).imports@) == imports_model(old(self).imports@).push(
                dynamic(name@, args, routine),
            ),
    {
        let dll = String::new();
        proof {
            assert(dll@ =~= Seq::<char>::empty());
        }
        self.push_import(Import { dll, name: ImportName::Named(owned(name)), conv: CallConv::Stdcall(args), routine });
    }

    /// The thunk of the first routine registered for any DLL under `name`.
    pub fn resolve_dynamic_import(&self, name: &str) -> (r: Option<u32>)
        ensures
            r == dynamic_thunk(imports_model(self.imports@), name@),
    {
        let ghost s = imports_model(self.imports@);
        let key = owned(name);
        let mut i: usize = 0;
        while i < self.imports.len()
            invariant
                i <= self.imports@.len(),
                s == imports_model(self.imports@),
                key@ == name@,
                forall|j: int| 0 <= j < i ==> !is_dynamic(#[trigger] s[j], name@),
            decreases self.imports.len() - i,
        {
            let e = &self.imports[i];
            let named_key = match &e.name {
                ImportName::Named(n) => *n == key,
                ImportName::Ordinal(_) => false,
            };
            let hit = e.dll.as_str().is_empty() && named_key;
            assert(hit == is_dynamic(s[i as int], name@));
            if hit {
                proof {
                    assert(first_dynamic(s, name@, i as int));
                    let k = choose|k: int| first_dynamic(s, name@, k);
                    if k < i {
                        assert(!is_dynamic(s[k], name@));
                    }
                    if k > i {
                        assert(!is_dynamic(s[i as int], name@));
                    }
                    assert(k == i);
                }
                if i < THUNK_COUNT as usize {
                    return Some(THUNK_BASE + 4 * (i as u32));
                } else {
                    return None;
                }
            }
            i = i + 1;
        }
        proof {
            assert(!exists|k: int| first_dynamic(s, name@, k));
        }
        None
    }
}

/// Caller-cleans stubs returning 0, one per name.
pub open spec fn stub_models(dll: Seq<char>, names: Seq<&str>) -> Seq<ImportModel> {
    names.map_values(|n: &str| named(dll, n@, CallConv::Cdecl, Routine::Stub(0)))
}

} // verus!
