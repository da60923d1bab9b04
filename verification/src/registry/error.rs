//! Registry error types.

use vstd::prelude::*;

use crate::text::{chars_of, string_from};

verus! {

/// Opaque I/O error carried by `RegistryError::Io`.
#[verifier::external_type_specification]
#[verifier::external_body]
pub struct ExIoError(std::io::Error);

/// Errors reported by registry parsing and loading.
#[derive(Debug)]
pub enum RegistryError {
    Io(std::io::Error),
    InvalidKey(String),
    InvalidHive(String),
    InvalidValue(String),
    Yaml(String),
}

/// What an error says, with its text as characters.
pub enum ErrorModel {
    Io,
    InvalidKey(Seq<char>),
    InvalidHive(Seq<char>),
    InvalidValue(Seq<char>),
    Yaml(Seq<char>),
}

impl RegistryError {
    pub open spec fn model(&self) -> ErrorModel {
        match self {
            RegistryError::Io(_) => ErrorModel::Io,
            RegistryError::InvalidKey(m) => ErrorModel::InvalidKey(m@),
            RegistryError::InvalidHive(m) => ErrorModel::InvalidHive(m@),
            RegistryError::InvalidValue(m) => ErrorModel::InvalidValue(m@),
            RegistryError::Yaml(m) => ErrorModel::Yaml(m@),
        }
    }

    /// The error as text: its kind, then its message (for an I/O error, what
    /// the system says of it).
    pub fn message(&self) -> (r: String)
        ensures
            match self.model() {
                ErrorModel::Io => r@.len() >= 10 && r@.take(10) == "io error: "@,
                ErrorModel::InvalidKey(m) => r@ == "invalid key: "@ + m,
                ErrorModel::InvalidHive(m) => r@ == "invalid hive: "@ + m,
                ErrorModel::InvalidValue(m) => r@ == "invalid value: "@ + m,
                ErrorModel::Yaml(m) => r@ == "yaml error: "@ + m,
            },
    {
        let (prefix, rest) = match self {
            RegistryError::Io(e) => ("io error: ", io_error_text(e)),
            RegistryError::InvalidKey(m) => ("invalid key: ", m.clone()),
            RegistryError::InvalidHive(m) => ("invalid hive: ", m.clone()),
            RegistryError::InvalidValue(m) => ("invalid value: ", m.clone()),
            RegistryError::Yaml(m) => ("yaml error: ", m.clone()),
        };
        let mut cs = chars_of(prefix);
        let ghost p = cs@;
        let more = chars_of(rest.as_str());
        let mut i: usize = 0;
        while i < more.len()
            invariant
                i <= more@.len(),
                cs@ == p + more@.take(i as int),
            decreases more.len() - i,
        {
            cs.push(more[i]);
            i = i + 1;
            assert(cs@ =~= p + more@.take(i as int));
        }
        assert(more@.take(more@.len() as int) =~= more@);
        proof {
            reveal_strlit("io error: ");
        }
        string_from(cs.as_slice())
    }
}

/// What the system says of an I/O error: `std::io::Error`'s `Display`. The
/// text depends on the system and its language, so nothing is said of it.
#[verifier::external_body]
fn io_error_text(e: &std::io::Error) -> (r: String) {
    format!("{}", e)
}

} // verus!
