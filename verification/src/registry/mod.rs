//! Windows registry model for COM lookups and configuration.

pub mod error;
pub mod key;
pub mod laws;
pub mod reg_file;
pub mod store;
pub mod value;
pub mod yaml;

use vstd::prelude::*;

use self::error::{ErrorModel, RegistryError};
use self::yaml::{merge_doc, yaml_doc};
use self::reg_file::decode::{decode_registry_text, registry_text};
use self::reg_file::parse::{merge_panics, merge_reg_text, merge_text, Halt, RunEnd};
use self::store::{default_model, well_formed_model, Registry, RegistryMergeMode};
use crate::text::chars_of;

verus! {

/// Builds the default registry and merges the `.reg` file contents into it,
/// overwriting; stops at the first error.
pub fn load_from_registry(bytes: &[u8]) -> (r: Result<Registry, RegistryError>)
    requires
        !merge_panics(registry_text(bytes@), default_model(), RegistryMergeMode::Overwrite),
    ensures
        ({
            let (end, m) = merge_text(registry_text(bytes@), default_model(), RegistryMergeMode::Overwrite);
            match end {
                RunEnd::Failed(e) => r matches Err(err) && err.model() == e,
                _ => r matches Ok(reg) && reg@ == m,
            }
        }),
        r matches Ok(reg) ==> well_formed_model(reg@),
{
    match try_load_from_registry(bytes) {
        Some(r) => r,
        None => Ok(Registry::with_defaults()),
    }
}

/// `load_from_registry`, or `None` for the files that hold a lone `"`
/// where a quoted string is expected, which cannot be loaded.
pub fn try_load_from_registry(bytes: &[u8]) -> (r: Option<Result<Registry, RegistryError>>)
    ensures
        ({
            let (end, m) = merge_text(registry_text(bytes@), default_model(), RegistryMergeMode::Overwrite);
            match end {
                RunEnd::Panicked => r is None,
                RunEnd::Failed(e) => r matches Some(Err(err)) && err.model() == e,
                RunEnd::Done => r matches Some(Ok(reg)) && reg@ == m,
            }
        }),
        r matches Some(Ok(reg)) ==> well_formed_model(reg@),
{
    let contents = decode_registry_text(bytes);
    let cs = chars_of(contents.as_str());
    let mut registry = Registry::with_defaults();
    match merge_reg_text(&mut registry, cs.as_slice(), RegistryMergeMode::Overwrite) {
        Ok(()) => Some(Ok(registry)),
        Err(Halt::Error(e)) => Some(Err(e)),
        Err(Halt::Panic) => None,
    }
}

/// Builds the default registry and merges the YAML text into it,
/// overwriting; stops at the first error. A text that does not parse is a
/// YAML error.
pub fn load_from_yml(text: &str) -> (r: Result<Registry, RegistryError>)
    ensures
        match yaml_doc(text@) {
            Err(msg) => r matches Err(e) && e.model() == ErrorModel::Yaml(msg),
            Ok(d) => {
                let (e, m) = merge_doc(default_model(), d, RegistryMergeMode::Overwrite);
                match e {
                    None => r matches Ok(reg) && reg@ == m,
                    Some(em) => r matches Err(x) && x.model() == em,
                }
            },
        },
        r matches Ok(reg) ==> well_formed_model(reg@),
{
    let mut registry = Registry::with_defaults();
    match registry.merge_yaml_str(text, RegistryMergeMode::Overwrite) {
        Ok(()) => Ok(registry),
        Err(e) => Err(e),
    }
}

} // verus!
