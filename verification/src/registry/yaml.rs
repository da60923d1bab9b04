//! Registry contents written as a YAML document: hives at the root, keys as
//! nested mappings, values as scalars or sequences.

use vstd::prelude::*;

use super::error::{ErrorModel, RegistryError};
use super::key::{hive_of, RegistryHive};
use super::reg_file::parse::{assign, Assignment};
use super::store::{default_model, Registry, RegistryMergeMode, RegistryModel, well_formed_model};
use super::value::{RegistryValue, ValueModel};
use crate::text::{eq_ignore_case, is_lit, is_lit_ignore_case, chars_of, owned, string_views};

verus! {

/// A YAML number as the registry reads it: its value as an unsigned and as
/// a signed 64-bit integer, where it has one (a float has neither).
#[derive(Debug, Clone, Copy, PartialEq, Eq)]
pub struct YamlNumber {
    pub as_u64: Option<u64>,
    pub as_i64: Option<i64>,
}

/// A parsed YAML document; a tagged node keeps only the node under its tag.
#[derive(Debug)]
pub enum YamlNode {
    Null,
    Bool(bool),
    Number(YamlNumber),
    String(String),
    Sequence(Vec<YamlNode>),
    Mapping(Vec<(YamlNode, YamlNode)>),
    Tagged(Box<YamlNode>),
}

/// Opaque YAML value of `serde_yaml`, as its parser returns it.
#[verifier::external_type_specification]
#[verifier::external_body]
pub struct ExYamlValue(serde_yaml::Value);

/// The document that `serde_yaml::from_str::<serde_yaml::Value>` reads from
/// a text, in the library's form, or the text of its error.
pub uninterp spec fn yaml_doc(text: Seq<char>) -> Result<YamlNode, Seq<char>>;

/// `serde_yaml`'s document form in the library's: one node for one value,
/// each child converted in turn.
#[verifier::external_body]
fn yaml_node_of(value: &serde_yaml::Value) -> YamlNode {
    match value {
        serde_yaml::Value::Null => YamlNode::Null,
        serde_yaml::Value::Bool(b) => YamlNode::Bool(*b),
        serde_yaml::Value::Number(n) => YamlNode::Number(YamlNumber { as_u64: n.as_u64(), as_i64: n.as_i64() }),
        serde_yaml::Value::String(s) => YamlNode::String(s.clone()),
        serde_yaml::Value::Sequence(items) => YamlNode::Sequence(items.iter().map(yaml_node_of).collect()),
        serde_yaml::Value::Mapping(map) => YamlNode::Mapping(map.iter().map(|(k, v)| (yaml_node_of(k), yaml_node_of(v))).collect()),
        serde_yaml::Value::Tagged(t) => YamlNode::Tagged(Box::new(yaml_node_of(&t.value))),
    }
}

/// `serde_yaml::from_str::<serde_yaml::Value>`: the document, converted to
/// the library's form, or the text of the parser's error; both are named
/// `yaml_doc` of the text.
#[verifier::external_body]
pub fn parse_yaml(text: &str) -> (r: Result<YamlNode, String>)
    ensures
        match yaml_doc(text@) {
            Ok(d) => r == Ok::<YamlNode, String>(d),
            Err(m) => r matches Err(e) && e@ == m,
        },
{
    match serde_yaml::from_str::<serde_yaml::Value>(text) {
        Ok(v) => Ok(yaml_node_of(&v)),
        Err(e) => Err(e.to_string()),
    }
}

/// The node under any number of tags.
pub open spec fn untag(n: YamlNode) -> YamlNode
    decreases n,
{
    match n {
        YamlNode::Tagged(b) => untag(*b),
        _ => n,
    }
}

/// The text of a (possibly tagged) string node.
pub open spec fn node_str(n: YamlNode) -> Option<Seq<char>> {
    match untag(n) {
        YamlNode::String(s) => Some(s@),
        _ => None,
    }
}

/// The signed value of a (possibly tagged) number node.
pub open spec fn node_i64(n: YamlNode) -> Option<i64> {
    match untag(n) {
        YamlNode::Number(x) => x.as_i64,
        _ => None,
    }
}

/// Whether a node is a mapping under its tags.
pub open spec fn node_is_mapping(n: YamlNode) -> bool {
    untag(n) is Mapping
}

/// The number of entries of an untagged mapping node (0 for any other).
pub open spec fn mapping_len(n: YamlNode) -> nat {
    match n {
        YamlNode::Mapping(es) => es@.len(),
        _ => 0,
    }
}

pub open spec fn all_strings(s: Seq<YamlNode>) -> bool {
    forall|i: int| 0 <= i < s.len() ==> (#[trigger] node_str(s[i])) is Some
}

pub open spec fn all_integers(s: Seq<YamlNode>) -> bool {
    forall|i: int| 0 <= i < s.len() ==> (#[trigger] node_i64(s[i])) is Some
}

pub open spec fn all_bytes(s: Seq<YamlNode>) -> bool {
    forall|i: int| 0 <= i < s.len() ==> 0 <= (#[trigger] node_i64(s[i]))->0 <= 255
}

/// The registry value a YAML node stands for.
pub open spec fn yaml_value(n: YamlNode) -> Result<ValueModel, ErrorModel> {
    match n {
        YamlNode::String(s) => Ok(ValueModel::String(s@)),
        YamlNode::Number(x) => match x.as_u64 {
            Some(v) => Ok(ValueModel::Dword(v as u32)),
            None => Err(ErrorModel::InvalidValue("invalid number"@)),
        },
        YamlNode::Sequence(items) => {
            let s = items@;
            if all_strings(s) {
                Ok(ValueModel::MultiString(Seq::new(s.len(), |i: int| node_str(s[i])->0)))
            } else if all_integers(s) {
                if all_bytes(s) {
                    Ok(ValueModel::Binary(Seq::new(s.len(), |i: int| node_i64(s[i])->0 as u8)))
                } else {
                    Err(ErrorModel::InvalidValue("binary values must be 0-255"@))
                }
            } else {
                Err(ErrorModel::InvalidValue("unsupported sequence value"@))
            }
        },
        _ => Err(ErrorModel::InvalidValue("unsupported registry value"@)),
    }
}

/// The value name a YAML key stands for: `@` and `(default)` name the
/// default value.
pub open spec fn yaml_name(k: Seq<char>) -> Option<Seq<char>> {
    if k == "@"@ || eq_ignore_case(k, "(default)"@) {
        None
    } else {
        Some(k)
    }
}

/// Merging the first `n` entries of `node` (a mapping; any other node is a
/// default value) under key `path`: the first error, if any, and the
/// registry at that point.
pub open spec fn merge_node(
    m: RegistryModel,
    hive: RegistryHive,
    path: Seq<Seq<char>>,
    node: YamlNode,
    mode: RegistryMergeMode,
    n: nat,
) -> (Option<ErrorModel>, RegistryModel)
    decreases node, n,
{
    match node {
        YamlNode::Mapping(es) => {
            if n == 0 || n > es@.len() {
                (None, m)
            } else {
                let (e, m1) = merge_node(m, hive, path, node, mode, (n - 1) as nat);
                if e is Some {
                    (e, m1)
                } else {
                    let k = es@[n - 1].0;
                    let v = es@[n - 1].1;
                    match node_str(k) {
                        None => (Some(ErrorModel::Yaml("key must be string"@)), m1),
                        Some(ks) => if node_is_mapping(v) {
                            merge_node(m1, hive, path.push(ks), v, mode, mapping_len(v))
                        } else {
                            match yaml_value(v) {
                                Err(err) => (Some(err), m1),
                                Ok(val) => (None, assign(
                                    m1,
                                    Assignment { hive, path, name: yaml_name(ks), value: val },
                                    mode,
                                )),
                            }
                        },
                    }
                }
            }
        },
        _ => match yaml_value(node) {
            Err(err) => (Some(err), m),
            Ok(val) => (None, assign(m, Assignment { hive, path, name: None, value: val }, mode)),
        },
    }
}

/// Merging the first `n` hive entries of a document's root mapping.
pub open spec fn merge_hives(
    m: RegistryModel,
    es: Seq<(YamlNode, YamlNode)>,
    mode: RegistryMergeMode,
    n: nat,
) -> (Option<ErrorModel>, RegistryModel)
    decreases n,
{
    if n == 0 || n > es.len() {
        (None, m)
    } else {
        let (e, m1) = merge_hives(m, es, mode, (n - 1) as nat);
        if e is Some {
            (e, m1)
        } else {
            match node_str(es[n - 1].0) {
                None => (Some(ErrorModel::Yaml("hive name must be string"@)), m1),
                Some(name) => match hive_of(name) {
                    None => (Some(ErrorModel::InvalidHive(name)), m1),
                    Some(h) => merge_node(m1, h, seq![], es[n - 1].1, mode, mapping_len(es[n - 1].1)),
                },
            }
        }
    }
}

/// Merging a whole document, whose root must be a mapping of hives.
pub open spec fn merge_doc(m: RegistryModel, doc: YamlNode, mode: RegistryMergeMode) -> (Option<ErrorModel>, RegistryModel) {
    match untag(doc) {
        YamlNode::Mapping(es) => merge_hives(m, es@, mode, es@.len()),
        _ => (Some(ErrorModel::Yaml("root must be a mapping"@)), m),
    }
}

/// The node under any number of tags.
pub fn untag_ref(n: &YamlNode) -> (r: &YamlNode)
    ensures
        *r == untag(*n),
    decreases n,
{
    match n {
        YamlNode::Tagged(b) => untag_ref(b),
        _ => n,
    }
}

/// `as_str` of a node: the text of a string under its tags.
pub fn node_as_str(n: &YamlNode) -> (r: Option<&String>)
    ensures
        match r {
            Some(s) => node_str(*n) == Some(s@),
            None => node_str(*n) is None,
        },
{
    match untag_ref(n) {
        YamlNode::String(s) => Some(s),
        _ => None,
    }
}

/// `as_i64` of a node.
pub fn node_as_i64(n: &YamlNode) -> (r: Option<i64>)
    ensures
        r == node_i64(*n),
{
    match untag_ref(n) {
        YamlNode::Number(x) => x.as_i64,
        _ => None,
    }
}

/// `is_mapping` of a node.
pub fn node_is_map(n: &YamlNode) -> (r: bool)
    ensures
        r == node_is_mapping(*n),
{
    match untag_ref(n) {
        YamlNode::Mapping(_) => true,
        _ => false,
    }
}

fn invalid_value(msg: &str) -> (e: RegistryError)
    ensures
        e.model() == ErrorModel::InvalidValue(msg@),
{
    RegistryError::InvalidValue(owned(msg))
}

fn yaml_error(msg: &str) -> (e: RegistryError)
    ensures
        e.model() == ErrorModel::Yaml(msg@),
{
    RegistryError::Yaml(owned(msg))
}

impl RegistryValue {
    /// The registry value a YAML node stands for: a string, a number (kept
    /// in 32 bits), a sequence of strings or a sequence of bytes.
    pub fn from_yaml(node: &YamlNode) -> (r: Result<RegistryValue, RegistryError>)
        ensures
            match yaml_value(*node) {
                Ok(v) => r matches Ok(x) && x.model() == v,
                Err(e) => r matches Err(x) && x.model() == e,
            },
    {
        match node {
            YamlNode::String(s) => Ok(RegistryValue::String(s.clone())),
            YamlNode::Number(x) => match x.as_u64 {
                Some(v) => Ok(RegistryValue::Dword(v as u32)),
                None => Err(invalid_value("invalid number")),
            },
            YamlNode::Sequence(items) => {
                let n = items.len();
                let mut strs: Vec<String> = Vec::new();
                let mut i: usize = 0;
                let mut all_str = true;
                while i < n
                    invariant
                        n == items@.len(),
                        i <= n,
                        all_str ==> strs@.len() == i,
                        all_str ==> forall|j: int| 0 <= j < i ==> node_str(items@[j]) == Some(#[trigger] strs@[j]@),
                        !all_str ==> !all_strings(items@),
                    decreases n - i,
                {
                    match node_as_str(&items[i]) {
                        Some(s) => {
                            if all_str {
                                strs.push(s.clone());
                            }
                        },
                        None => {
                            all_str = false;
                        },
                    }
                    i = i + 1;
                }
                if all_str {
                    assert forall|j: int| 0 <= j < items@.len() implies (#[trigger] node_str(items@[j])) is Some by {
                        assert(node_str(items@[j]) == Some(strs@[j]@));
                    }
                    assert(string_views(strs@) =~= Seq::new(items@.len(), |j: int| node_str(items@[j])->0));
                    return Ok(RegistryValue::MultiString(strs));
                }
                let mut all_int = true;
                let mut k: usize = 0;
                while k < n
                    invariant
                        n == items@.len(),
                        k <= n,
                        !all_strings(items@),
                        all_int == (forall|j: int| 0 <= j < k ==> (#[trigger] node_i64(items@[j])) is Some),
                    decreases n - k,
                {
                    if node_as_i64(&items[k]).is_none() {
                        all_int = false;
                    }
                    k = k + 1;
                }
                if !all_int {
                    return Err(invalid_value("unsupported sequence value"));
                }
                let mut bytes: Vec<u8> = Vec::new();
                let mut j: usize = 0;
                while j < n
                    invariant
                        n == items@.len(),
                        all_integers(items@),
                        !all_strings(items@),
                        *node == YamlNode::Sequence(*items),
                        j <= n,
                        bytes@.len() == j,
                        forall|t: int| 0 <= t < j ==> 0 <= (#[trigger] node_i64(items@[t]))->0 <= 255,
                        forall|t: int| 0 <= t < j ==> bytes@[t] == (#[trigger] node_i64(items@[t]))->0 as u8,
                    decreases n - j,
                {
                    let ob = node_as_i64(&items[j]);
                    assert(ob is Some);
                    let b = match ob {
                        Some(b) => b,
                        None => 0,
                    };
                    if b < 0 || b > 255 {
                        assert(!all_bytes(items@)) by {
                            assert(node_i64(items@[j as int])->0 == b);
                        }
                        return Err(invalid_value("binary values must be 0-255"));
                    }
                    bytes.push(b as u8);
                    j = j + 1;
                }
                assert(bytes@ =~= Seq::new(items@.len(), |t: int| node_i64(items@[t])->0 as u8));
                Ok(RegistryValue::Binary(bytes))
            },
            _ => Err(invalid_value("unsupported registry value")),
        }
    }
}

/// The value name a YAML key stands for.
pub fn normalize_yaml_value_name(name: &str) -> (r: Option<String>)
    ensures
        match r {
            Some(s) => yaml_name(name@) == Some(s@),
            None => yaml_name(name@) is None,
        },
{
    let cs = chars_of(name);
    if is_lit(cs.as_slice(), "@") || is_lit_ignore_case(cs.as_slice(), "(default)") {
        None
    } else {
        Some(owned(name))
    }
}

/// Once merging a mapping has failed, later entries change nothing.
pub proof fn lemma_node_error_stays(
    m: RegistryModel,
    hive: RegistryHive,
    path: Seq<Seq<char>>,
    node: YamlNode,
    mode: RegistryMergeMode,
    k: nat,
    n: nat,
)
    requires
        node is Mapping,
        k <= n <= mapping_len(node),
        merge_node(m, hive, path, node, mode, k).0 is Some,
    ensures
        merge_node(m, hive, path, node, mode, n) == merge_node(m, hive, path, node, mode, k),
    decreases n,
{
    if n > k {
        lemma_node_error_stays(m, hive, path, node, mode, k, (n - 1) as nat);
    }
}

/// Once merging the hives has failed, later hives change nothing.
pub proof fn lemma_hives_error_stays(
    m: RegistryModel,
    es: Seq<(YamlNode, YamlNode)>,
    mode: RegistryMergeMode,
    k: nat,
    n: nat,
)
    requires
        k <= n <= es.len(),
        merge_hives(m, es, mode, k).0 is Some,
    ensures
        merge_hives(m, es, mode, n) == merge_hives(m, es, mode, k),
    decreases n,
{
    if n > k {
        lemma_hives_error_stays(m, es, mode, k, (n - 1) as nat);
    }
}

impl Registry {
    /// Parses YAML text and merges the document into the registry; a text
    /// that does not parse is a YAML error and changes nothing.
    pub fn merge_yaml_str(&mut self, yaml: &str, mode: RegistryMergeMode) -> (r: Result<(), RegistryError>)
        ensures
            match yaml_doc(yaml@) {
                Err(msg) => r matches Err(e) && e.model() == ErrorModel::Yaml(msg) && final(self)@ == old(self)@,
                Ok(d) => {
                    let (e, m) = merge_doc(old(self)@, d, mode);
                    &&& final(self)@ == m
                    &&& match e {
                        None => r is Ok,
                        Some(em) => r matches Err(x) && x.model() == em,
                    }
                },
            },
            well_formed_model(final(self)@),
    {
        proof {
            use_type_invariant(&*self);
            self.lemma_inv_well_formed();
        }
        let doc = match parse_yaml(yaml) {
            Ok(d) => d,
            Err(msg) => return Err(RegistryError::Yaml(msg)),
        };
        self.merge_yaml_value(&doc, mode)
    }

    /// Merges a YAML document (a mapping of hive names to trees of keys and
    /// values) into the registry; stops at the first error, keeping what was
    /// merged before it.
    pub fn merge_yaml_value(&mut self, doc: &YamlNode, mode: RegistryMergeMode) -> (r: Result<(), RegistryError>)
        ensures
            ({
                let (e, m) = merge_doc(old(self)@, *doc, mode);
                &&& final(self)@ == m
                &&& match e {
                    None => r is Ok,
                    Some(em) => r matches Err(x) && x.model() == em,
                }
            }),
            well_formed_model(final(self)@),
    {
        proof {
            use_type_invariant(&*self);
            self.lemma_inv_well_formed();
        }
        let root = untag_ref(doc);
        match root {
            YamlNode::Mapping(es) => {
                let n = es.len();
                let mut i: usize = 0;
                while i < n
                    invariant
                        n == es@.len(),
                        i <= n,
                        untag(*doc) == YamlNode::Mapping(*es),
                        merge_hives(old(self)@, es@, mode, i as nat) == (None::<ErrorModel>, self@),
                    decreases n - i,
                {
                    proof {
                        use_type_invariant(&*self);
                        self.lemma_inv_well_formed();
                    }
                    let ghost before = self@;
                    let key = &es[i].0;
                    let value = &es[i].1;
                    let name = match node_as_str(key) {
                        Some(s) => s,
                        None => {
                            proof {
                                lemma_hives_error_stays(old(self)@, es@, mode, (i + 1) as nat, n as nat);
                            }
                            return Err(yaml_error("hive name must be string"));
                        },
                    };
                    let hive = match RegistryHive::parse(name.as_str()) {
                        Some(h) => h,
                        None => {
                            proof {
                                lemma_hives_error_stays(old(self)@, es@, mode, (i + 1) as nat, n as nat);
                            }
                            return Err(RegistryError::InvalidHive(name.clone()));
                        },
                    };
                    let mut path: Vec<String> = Vec::new();
                    assert(string_views(path@) =~= Seq::<Seq<char>>::empty());
                    let r = self.merge_yaml_node(hive, &mut path, value, mode);
                    proof {
                        use_type_invariant(&*self);
                        self.lemma_inv_well_formed();
                    }
                    assert(merge_hives(old(self)@, es@, mode, (i + 1) as nat)
                        == merge_node(before, hive, seq![], *value, mode, mapping_len(*value)));
                    if r.is_err() {
                        proof {
                            lemma_hives_error_stays(old(self)@, es@, mode, (i + 1) as nat, n as nat);
                        }
                        return r;
                    }
                    i = i + 1;
                }
                proof {
                    use_type_invariant(&*self);
                    self.lemma_inv_well_formed();
                }
                Ok(())
            },
            _ => Err(yaml_error("root must be a mapping")),
        }
    }

    /// Merges one node under key `path`: a mapping's entries become subkeys
    /// (mapping values) or values (other nodes); any other node is the
    /// key's default value.
    fn merge_yaml_node(
        &mut self,
        hive: RegistryHive,
        path: &mut Vec<String>,
        node: &YamlNode,
        mode: RegistryMergeMode,
    ) -> (r: Result<(), RegistryError>)
        ensures
            final(path)@ == old(path)@,
            ({
                let (e, m) = merge_node(old(self)@, hive, string_views(old(path)@), *node, mode, mapping_len(*node));
                &&& final(self)@ == m
                &&& match e {
                    None => r is Ok,
                    Some(em) => r matches Err(x) && x.model() == em,
                }
            }),
        decreases node,
    {
        match node {
            YamlNode::Mapping(es) => {
                let n = es.len();
                let mut i: usize = 0;
                while i < n
                    invariant
                        n == es@.len(),
                        i <= n,
                        *node == YamlNode::Mapping(*es),
                        path@ == old(path)@,
                        merge_node(old(self)@, hive, string_views(path@), *node, mode, i as nat) == (None::<ErrorModel>, self@),
                    decreases n - i,
                {
                    let ghost before = self@;
                    let ghost p = string_views(path@);
                    let key = &es[i].0;
                    let value = &es[i].1;
                    let key_str = match node_as_str(key) {
                        Some(s) => s,
                        None => {
                            proof {
                                lemma_node_error_stays(old(self)@, hive, p, *node, mode, (i + 1) as nat, n as nat);
                            }
                            return Err(yaml_error("key must be string"));
                        },
                    };
                    if node_is_map(value) {
                        path.push(key_str.clone());
                        assert(string_views(path@) =~= p.push(key_str@));
                        assert(decreases_to!(*node => es@[i as int].1));
                        let r = self.merge_yaml_node(hive, path, value, mode);
                        let _ = path.pop();
                        assert(path@ =~= old(path)@);
                        if r.is_err() {
                            proof {
                                lemma_node_error_stays(old(self)@, hive, p, *node, mode, (i + 1) as nat, n as nat);
                            }
                            return r;
                        }
                    } else {
                        let vname = normalize_yaml_value_name(key_str.as_str());
                        let v = match RegistryValue::from_yaml(value) {
                            Ok(v) => v,
                            Err(e) => {
                                proof {
                                    lemma_node_error_stays(old(self)@, hive, p, *node, mode, (i + 1) as nat, n as nat);
                                }
                                return Err(e);
                            },
                        };
                        match &vname {
                            Some(s) => self.apply_value(hive, path.as_slice(), Some(s.as_str()), v, mode),
                            None => self.apply_value(hive, path.as_slice(), None, v, mode),
                        }
                    }
                    assert(merge_node(old(self)@, hive, p, *node, mode, (i + 1) as nat).1 == self@);
                    i = i + 1;
                }
                Ok(())
            },
            _ => {
                let v = RegistryValue::from_yaml(node)?;
                self.apply_value(hive, path.as_slice(), None, v, mode);
                Ok(())
            },
        }
    }
}

/// Builds the default registry and merges a YAML document into it,
/// overwriting; stops at the first error.
pub fn load_from_yml(doc: &YamlNode) -> (r: Result<Registry, RegistryError>)
    ensures
        ({
            let (e, m) = merge_doc(default_model(), *doc, RegistryMergeMode::Overwrite);
            match e {
                None => r matches Ok(reg) && reg@ == m,
                Some(em) => r matches Err(x) && x.model() == em,
            }
        }),
        r matches Ok(reg) ==> well_formed_model(reg@),
{
    let mut registry = Registry::with_defaults();
    match registry.merge_yaml_value(doc, RegistryMergeMode::Overwrite) {
        Ok(()) => Ok(registry),
        Err(e) => Err(e),
    }
}

} // verus!
