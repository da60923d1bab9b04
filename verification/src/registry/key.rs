//! Registry key parsing and hive definitions.

use vstd::prelude::*;

use super::error::{ErrorModel, RegistryError};
use crate::text::{
    chars_of, eq_ignore_case, find_char, find_first, is_lit, is_lit_ignore_case, owned, split_nonempty,
    split_nonempty_pieces, string_from, string_views, sub_chars, trim, trimmed, upper_chars,
    upper_seq, views,
};

verus! {

/// A registry root hive.
#[derive(Debug, Clone, Copy, PartialEq, Eq, Structural, Hash, PartialOrd, Ord)]
pub enum RegistryHive {
    ClassesRoot,
    LocalMachine,
    CurrentUser,
    Users,
    CurrentConfig,
}

/// The hive that a (trimmed, case-insensitive) name denotes.
pub open spec fn hive_of(name: Seq<char>) -> Option<RegistryHive> {
    let u = upper_seq(trim(name));
    if u == "HKCR"@ || u == "HKEY_CLASSES_ROOT"@ {
        Some(RegistryHive::ClassesRoot)
    } else if u == "HKLM"@ || u == "HKEY_LOCAL_MACHINE"@ {
        Some(RegistryHive::LocalMachine)
    } else if u == "HKCU"@ || u == "HKEY_CURRENT_USER"@ {
        Some(RegistryHive::CurrentUser)
    } else if u == "HKU"@ || u == "HKEY_USERS"@ {
        Some(RegistryHive::Users)
    } else if u == "HKCC"@ || u == "HKEY_CURRENT_CONFIG"@ {
        Some(RegistryHive::CurrentConfig)
    } else {
        None
    }
}

/// The full name of a hive.
pub open spec fn hive_root_name(h: RegistryHive) -> Seq<char> {
    match h {
        RegistryHive::ClassesRoot => "HKEY_CLASSES_ROOT"@,
        RegistryHive::LocalMachine => "HKEY_LOCAL_MACHINE"@,
        RegistryHive::CurrentUser => "HKEY_CURRENT_USER"@,
        RegistryHive::Users => "HKEY_USERS"@,
        RegistryHive::CurrentConfig => "HKEY_CURRENT_CONFIG"@,
    }
}

impl RegistryHive {
    /// Parses a hive name such as `HKLM` or `HKEY_LOCAL_MACHINE`,
    /// ignoring surrounding whitespace and ASCII case.
    pub fn parse(input: &str) -> (r: Option<RegistryHive>)
        ensures
            r == hive_of(input@),
    {
        let cs = chars_of(input);
        Self::parse_chars(cs.as_slice())
    }

    /// `parse` on characters.
    pub fn parse_chars(input: &[char]) -> (r: Option<RegistryHive>)
        ensures
            r == hive_of(input@),
    {
        let t = trimmed(input);
        let u = upper_chars(t.as_slice());
        let u = u.as_slice();
        if is_lit(u, "HKCR") || is_lit(u, "HKEY_CLASSES_ROOT") {
            Some(RegistryHive::ClassesRoot)
        } else if is_lit(u, "HKLM") || is_lit(u, "HKEY_LOCAL_MACHINE") {
            Some(RegistryHive::LocalMachine)
        } else if is_lit(u, "HKCU") || is_lit(u, "HKEY_CURRENT_USER") {
            Some(RegistryHive::CurrentUser)
        } else if is_lit(u, "HKU") || is_lit(u, "HKEY_USERS") {
            Some(RegistryHive::Users)
        } else if is_lit(u, "HKCC") || is_lit(u, "HKEY_CURRENT_CONFIG") {
            Some(RegistryHive::CurrentConfig)
        } else {
            None
        }
    }
}

/// A parsed registry key plus an optional value name.
#[derive(Debug, Clone, PartialEq, Eq)]
pub struct RegistryKey {
    pub hive: RegistryHive,
    pub path: Vec<String>,
    pub value_name: Option<String>,
}

/// A key as characters.
pub struct KeyModel {
    pub hive: RegistryHive,
    pub path: Seq<Seq<char>>,
    pub value_name: Option<Seq<char>>,
}

pub open spec fn opt_view(o: Option<String>) -> Option<Seq<char>> {
    match o {
        Some(s) => Some(s@),
        None => None,
    }
}

impl RegistryKey {
    pub open spec fn model(&self) -> KeyModel {
        KeyModel { hive: self.hive, path: string_views(self.path@), value_name: opt_view(self.value_name) }
    }
}

/// Whether a name denotes the default value (`@` or `(default)`).
pub open spec fn is_default_name(name: Seq<char>) -> bool {
    name == "@"@ || eq_ignore_case(name, "(default)"@)
}

/// The path components of a key string: non-empty pieces between `\` and `/`.
pub open spec fn key_parts(input: Seq<char>) -> Seq<Seq<char>> {
    split_nonempty(trim(input), '\\', '/')
}

/// How the last component of a key string splits into key and value name.
pub open spec fn split_value(hive: RegistryHive, rest: Seq<Seq<char>>) -> KeyModel {
    if rest.len() == 0 {
        KeyModel { hive, path: rest, value_name: None }
    } else {
        let last = rest.last();
        let path = rest.drop_last();
        if is_default_name(last) {
            KeyModel { hive, path, value_name: None }
        } else {
            match find_char(last, '@') {
                Some(i) => {
                    let key = last.subrange(0, i);
                    let name = last.subrange(i + 1, last.len() as int);
                    KeyModel {
                        hive,
                        path: if key.len() > 0 { path.push(key) } else { path },
                        value_name: if name.len() > 0 { Some(name) } else { None },
                    }
                },
                None => KeyModel { hive, path: rest, value_name: None },
            }
        }
    }
}

/// What `RegistryKey::parse` gives for a key string.
pub open spec fn parse_key(input: Seq<char>) -> Result<KeyModel, ErrorModel> {
    let parts = key_parts(input);
    if parts.len() == 0 {
        Err(ErrorModel::InvalidKey("empty registry key"@))
    } else {
        match hive_of(parts[0]) {
            None => Err(ErrorModel::InvalidHive(parts[0])),
            Some(h) => Ok(split_value(h, parts.drop_first())),
        }
    }
}

pub open spec fn key_result_model(r: Result<RegistryKey, RegistryError>) -> Result<KeyModel, ErrorModel> {
    match r {
        Ok(k) => Ok(k.model()),
        Err(e) => Err(e.model()),
    }
}

/// Strings holding the given character vectors.
pub fn strings_of(v: &[Vec<char>], from: usize, to: usize) -> (r: Vec<String>)
    requires
        from <= to <= v.len(),
    ensures
        string_views(r@) == views(v@).subrange(from as int, to as int),
{
    let mut r: Vec<String> = Vec::new();
    let mut i = from;
    while i < to
        invariant
            from <= i <= to <= v.len(),
            string_views(r@) == views(v@).subrange(from as int, i as int),
        decreases to - i,
    {
        let s = string_from(v[i].as_slice());
        let ghost old_r = r@;
        r.push(s);
        assert(string_views(r@) =~= string_views(old_r).push(s@));
        assert(views(v@)[i as int] == v@[i as int]@);
        i = i + 1;
        assert(string_views(r@) =~= views(v@).subrange(from as int, i as int));
    }
    r
}

impl RegistryKey {
    /// Parses `HIVE\path\to\key[@value]`; `/` also separates components.
    pub fn parse(input: &str) -> (r: Result<RegistryKey, RegistryError>)
        ensures
            key_result_model(r) == parse_key(input@),
    {
        let cs = chars_of(input);
        Self::parse_chars(cs.as_slice())
    }

    /// `parse` on characters.
    pub fn parse_chars(input: &[char]) -> (r: Result<RegistryKey, RegistryError>)
        ensures
            key_result_model(r) == parse_key(input@),
    {
        let t = trimmed(input);
        let parts = split_nonempty_pieces(t.as_slice(), '\\', '/');
        if parts.len() == 0 {
            return Err(RegistryError::InvalidKey(owned("empty registry key")));
        }
        let hive = match RegistryHive::parse_chars(parts[0].as_slice()) {
            Some(h) => h,
            None => {
                return Err(RegistryError::InvalidHive(string_from(parts[0].as_slice())));
            },
        };
        let ghost rest = views(parts@).drop_first();
        let n = parts.len();
        if n == 1 {
            let path: Vec<String> = Vec::new();
            assert(string_views(path@) =~= rest);
            return Ok(RegistryKey { hive, path, value_name: None });
        }
        let last = parts[n - 1].as_slice();
        let mut path = strings_of(parts.as_slice(), 1, n - 1);
        assert(views(parts@).subrange(1, n - 1) =~= rest.drop_last());
        assert(rest.last() == last@);
        if is_lit(last, "@") || is_lit_ignore_case(last, "(default)") {
            return Ok(RegistryKey { hive, path, value_name: None });
        }
        match find_first(last, '@') {
            Some(i) => {
                let key = sub_chars(last, 0, i);
                let name = sub_chars(last, i + 1, last.len());
                if key.len() > 0 {
                    path.push(string_from(key.as_slice()));
                    assert(string_views(path@) =~= rest.drop_last().push(key@));
                }
                let value_name = if name.len() > 0 {
                    Some(string_from(name.as_slice()))
                } else {
                    None
                };
                Ok(RegistryKey { hive, path, value_name })
            },
            None => {
                path.push(string_from(last));
                assert(string_views(path@) =~= rest);
                Ok(RegistryKey { hive, path, value_name: None })
            },
        }
    }

    /// The full name of the root hive (e.g. `HKEY_LOCAL_MACHINE`).
    pub fn root(&self) -> (r: &'static str)
        ensures
            r@ == hive_root_name(self.hive),
    {
        match self.hive {
            RegistryHive::ClassesRoot => "HKEY_CLASSES_ROOT",
            RegistryHive::LocalMachine => "HKEY_LOCAL_MACHINE",
            RegistryHive::CurrentUser => "HKEY_CURRENT_USER",
            RegistryHive::Users => "HKEY_USERS",
            RegistryHive::CurrentConfig => "HKEY_CURRENT_CONFIG",
        }
    }

    /// The value name, if the key string named one.
    pub fn value_name(&self) -> (r: Option<&str>)
        ensures
            match r {
                Some(s) => self.value_name is Some && s@ == self.value_name->0@,
                None => self.value_name is None,
            },
    {
        match &self.value_name {
            Some(s) => Some(s.as_str()),
            None => None,
        }
    }
}

} // verus!
