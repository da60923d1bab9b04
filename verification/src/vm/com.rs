//! The COM objects that the automation routines keep: the loaded type
//! libraries, the type infos handed out, the object that calls fall back
//! to, and what the last call through `ITypeInfo::Invoke` left in its
//! out-parameters.

use std::collections::HashMap;

use vstd::prelude::*;

use super::{add32, wrap_add};
use crate::vm::windows::oleaut32::typelib::{TypeInfoData, TypeLib};

verus! {

/// An out-parameter of a call made through `ITypeInfo::Invoke`: the
/// parameter's index, type and flags, and where its value was put.
#[derive(Debug, Clone, Copy, PartialEq, Eq)]
pub struct ComOutParam {
    pub index: usize,
    pub vt: u16,
    pub flags: u32,
    pub ptr: u32,
}

/// A type info handed out: the id of its library and its index there.
#[derive(Debug, Clone, Copy, PartialEq, Eq)]
pub struct TypeInfoHandle {
    pub typelib_id: u32,
    pub index: usize,
}

/// The automation state of a machine.
pub struct ComState {
    /// The id that the next stored library or type info gets.
    pub next_id: u32,
    /// The libraries by id.
    pub typelibs: HashMap<u32, TypeLib>,
    /// The type infos handed out, by id.
    pub typeinfos: HashMap<u32, TypeInfoHandle>,
    /// The object that calls fall back to where the given instance has no
    /// usable vtable.
    pub dispatch_instance: Option<u32>,
    /// The out-parameters of the last call through `ITypeInfo::Invoke`.
    pub last_out_params: Vec<ComOutParam>,
}

broadcast use vstd::std_specs::hash::group_hash_axioms;

/// Storing a library under `id` makes `id` stand for it, and leaves every
/// other id as it was.
pub proof fn law_typelib_after_store(a: ComState, b: ComState, id: u32, lib: TypeLib, other: u32)
    requires
        b.typelibs@ == a.typelibs@.insert(id, lib),
    ensures
        b.typelib_of(id) == Some(lib),
        other != id ==> b.typelib_of(other) == a.typelib_of(other),
{
}

impl ComState {
    /// Nothing stored yet; ids start at 1.
    pub open spec fn is_fresh(&self) -> bool {
        &&& self.next_id == 1
        &&& self.typelibs@ == Map::<u32, TypeLib>::empty()
        &&& self.typeinfos@ == Map::<u32, TypeInfoHandle>::empty()
        &&& self.dispatch_instance is None
        &&& self.last_out_params@.len() == 0
    }

    /// The library that `id` stands for.
    pub open spec fn typelib_of(&self, id: u32) -> Option<TypeLib> {
        if self.typelibs@.contains_key(id) {
            Some(self.typelibs@[id])
        } else {
            None
        }
    }

    /// The type info that `id` stands for: the handle's library must still
    /// be there and hold a type info at the handle's index.
    pub open spec fn typeinfo_of(&self, id: u32) -> Option<TypeInfoData> {
        match if self.typeinfos@.contains_key(id) { Some(self.typeinfos@[id]) } else { None::<TypeInfoHandle> } {
            None => None,
            Some(h) => match self.typelib_of(h.typelib_id) {
                None => None,
                Some(lib) => if h.index < lib.typeinfos@.len() {
                    Some(lib.typeinfos@[h.index as int])
                } else {
                    None
                },
            },
        }
    }

    pub fn new() -> (r: ComState)
        ensures
            r.is_fresh(),
    {
        ComState {
            next_id: 1,
            typelibs: HashMap::new(),
            typeinfos: HashMap::new(),
            dispatch_instance: None,
            last_out_params: Vec::new(),
        }
    }

    /// Stores a library under the next id (ids wrap round) and returns the id.
    pub fn store_typelib(&mut self, lib: TypeLib) -> (id: u32)
        ensures
            id == old(self).next_id,
            final(self).next_id == add32(old(self).next_id, 1),
            final(self).typelibs@ == old(self).typelibs@.insert(id, lib),
            final(self).typeinfos@ == old(self).typeinfos@,
            final(self).dispatch_instance == old(self).dispatch_instance,
            final(self).last_out_params@ == old(self).last_out_params@,
    {
        let id = self.next_id;
        self.next_id = wrap_add(self.next_id, 1);
        self.typelibs.insert(id, lib);
        id
    }

    /// Hands out a type info of a stored library under the next id; `None`,
    /// with nothing changed, where no library has the id `typelib_id`.
    pub fn store_typeinfo(&mut self, typelib_id: u32, index: usize) -> (r: Option<u32>)
        ensures
            final(self).typelibs@ == old(self).typelibs@,
            final(self).dispatch_instance == old(self).dispatch_instance,
            final(self).last_out_params@ == old(self).last_out_params@,
            match r {
                None => old(self).typelib_of(typelib_id) is None
                    && final(self).next_id == old(self).next_id
                    && final(self).typeinfos@ == old(self).typeinfos@,
                Some(id) => old(self).typelib_of(typelib_id) is Some
                    && id == old(self).next_id
                    && final(self).next_id == add32(old(self).next_id, 1)
                    && final(self).typeinfos@ == old(self).typeinfos@.insert(
                        id, TypeInfoHandle { typelib_id, index },
                    ),
            },
    {
        if self.typelibs.contains_key(&typelib_id) {
            let id = self.next_id;
            self.next_id = wrap_add(self.next_id, 1);
            self.typeinfos.insert(id, TypeInfoHandle { typelib_id, index });
            Some(id)
        } else {
            None
        }
    }

    /// The library that `id` stands for.
    pub fn get_typelib(&self, id: u32) -> (r: Option<&TypeLib>)
        ensures
            match r {
                Some(lib) => self.typelib_of(id) == Some(*lib),
                None => self.typelib_of(id) is None,
            },
    {
        self.typelibs.get(&id)
    }

    /// The type info that `id` stands for.
    pub fn get_typeinfo(&self, id: u32) -> (r: Option<&TypeInfoData>)
        ensures
            match r {
                Some(info) => self.typeinfo_of(id) == Some(*info),
                None => self.typeinfo_of(id) is None,
            },
    {
        let h = match self.typeinfos.get(&id) {
            Some(h) => *h,
            None => return None,
        };
        let lib = match self.get_typelib(h.typelib_id) {
            Some(lib) => lib,
            None => return None,
        };
        if h.index < lib.typeinfos.len() {
            Some(&lib.typeinfos[h.index])
        } else {
            None
        }
    }
}

} // verus!
