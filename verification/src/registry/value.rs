//! Registry value representations.

use vstd::prelude::*;

use crate::text::string_views;

verus! {

/// The registry value types needed for COM setup.
#[derive(Debug, Clone, PartialEq, Eq)]
pub enum RegistryValue {
    String(String),
    Dword(u32),
    MultiString(Vec<String>),
    Binary(Vec<u8>),
}

/// A registry value with its text as characters.
pub enum ValueModel {
    String(Seq<char>),
    Dword(u32),
    MultiString(Seq<Seq<char>>),
    Binary(Seq<u8>),
}

impl RegistryValue {
    pub open spec fn model(&self) -> ValueModel {
        match self {
            RegistryValue::String(s) => ValueModel::String(s@),
            RegistryValue::Dword(d) => ValueModel::Dword(*d),
            RegistryValue::MultiString(v) => ValueModel::MultiString(string_views(v@)),
            RegistryValue::Binary(b) => ValueModel::Binary(b@),
        }
    }
}

} // verus!
