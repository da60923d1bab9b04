//! Registry storage and mutation.

use vstd::prelude::*;

use super::error::{ErrorModel, RegistryError};
use super::key::{opt_view, KeyModel, RegistryHive, RegistryKey};
use super::value::{RegistryValue, ValueModel};
use crate::assoc::{
    assoc_map, keys_distinct, lemma_assoc_absent, lemma_assoc_contains, lemma_assoc_index,
    lemma_assoc_update, lemma_distinct_push, lemma_distinct_update,
};
use crate::text::{
    chars_of, insert_sorted, lex_lt, owned, sorted_strict, string_from, string_views, upper_chars,
    upper_seq, utf16_length, utf16_units, utf8_len, utf8_length,
};

verus! {

/// How merged values treat a value that is already present.
#[derive(Debug, Clone, Copy, PartialEq, Eq, Structural)]
pub enum RegistryMergeMode {
    Append,
    Overwrite,
}

/// A key: its hive and its path of (upper-cased) component names.
pub type KeyId = (RegistryHive, Seq<Seq<char>>);

/// What the registry holds: the keys that exist, each with its values by
/// (upper-cased) name.
pub type RegistryModel = Map<KeyId, Map<Seq<char>, ValueModel>>;

struct KeyEntry {
    hive: RegistryHive,
    path: Vec<String>,
    values: Vec<(String, RegistryValue)>,
}

spec fn entry_id(e: KeyEntry) -> KeyId {
    (e.hive, string_views(e.path@))
}

spec fn value_pairs(vals: Seq<(String, RegistryValue)>) -> Seq<(Seq<char>, ValueModel)> {
    vals.map_values(|p: (String, RegistryValue)| (p.0@, p.1.model()))
}

spec fn values_model(vals: Seq<(String, RegistryValue)>) -> Map<Seq<char>, ValueModel> {
    assoc_map(value_pairs(vals))
}

spec fn key_pairs(keys: Seq<KeyEntry>) -> Seq<(KeyId, Map<Seq<char>, ValueModel>)> {
    keys.map_values(|e: KeyEntry| (entry_id(e), values_model(e.values@)))
}

spec fn keys_model(keys: Seq<KeyEntry>) -> RegistryModel {
    assoc_map(key_pairs(keys))
}

/// Every ancestor of a key that exists exists too.
pub open spec fn prefix_closed(m: RegistryModel) -> bool {
    forall|h: RegistryHive, p: Seq<Seq<char>>, k: int|
        #![trigger m.contains_key((h, p)), p.take(k)]
        m.contains_key((h, p)) && 0 <= k <= p.len() ==> m.contains_key((h, p.take(k)))
}

/// Every component of every key's path, and every value's name, is
/// upper-cased.
pub open spec fn names_upper(m: RegistryModel) -> bool {
    forall|id: KeyId| #[trigger] m.contains_key(id) ==> {
        &&& norm_path(id.1) == id.1
        &&& forall|n: Seq<char>| #[trigger] m[id].contains_key(n) ==> upper_seq(n) == n
    }
}

/// What holds of the model of every registry: every ancestor of a key
/// exists, and key and value names are upper-cased.
pub open spec fn well_formed_model(m: RegistryModel) -> bool {
    prefix_closed(m) && names_upper(m)
}

spec fn keys_inv(keys: Seq<KeyEntry>) -> bool {
    &&& keys_distinct(key_pairs(keys))
    &&& forall|i: int| 0 <= i < keys.len() ==> keys_distinct(value_pairs(#[trigger] keys[i].values@))
    &&& prefix_closed(keys_model(keys))
    &&& names_upper(keys_model(keys))
}

/// Upper-casing an upper-cased path changes nothing.
pub proof fn lemma_norm_path_idempotent(p: Seq<Seq<char>>)
    ensures
        norm_path(norm_path(p)) == norm_path(p),
{
    assert forall|i: int| 0 <= i < p.len() implies #[trigger] upper_seq(upper_seq(p[i])) == upper_seq(p[i]) by {
        crate::text::lemma_upper_idempotent(p[i]);
    }
    assert(norm_path(norm_path(p)) =~= norm_path(p));
}

/// Storing a value under an upper-cased name keeps the names upper-cased.
proof fn lemma_names_upper_insert(m: RegistryModel, id: KeyId, vals: Map<Seq<char>, ValueModel>, name: Seq<char>, v: ValueModel)
    requires
        names_upper(m),
        m.contains_key(id),
        vals == m[id].insert(name, v),
        upper_seq(name) == name,
    ensures
        names_upper(m.insert(id, vals)),
{
    let m2 = m.insert(id, vals);
    assert forall|k: KeyId| #[trigger] m2.contains_key(k) implies {
        &&& norm_path(k.1) == k.1
        &&& forall|n: Seq<char>| #[trigger] m2[k].contains_key(n) ==> upper_seq(n) == n
    } by {
        assert(m.contains_key(k));
        if k == id {
            assert forall|n: Seq<char>| #[trigger] m2[k].contains_key(n) implies upper_seq(n) == n by {
                if n != name {
                    assert(m[id].contains_key(n));
                }
            }
        }
    }
}

/// The ancestors of an upper-cased path are upper-cased.
proof fn lemma_norm_path_take(p: Seq<Seq<char>>, k: int)
    requires
        norm_path(p) == p,
        0 <= k <= p.len(),
    ensures
        norm_path(p.take(k)) == p.take(k),
{
    assert forall|j: int| 0 <= j < k implies #[trigger] upper_seq(p.take(k)[j]) == p.take(k)[j] by {
        assert(norm_path(p)[j] == upper_seq(p[j]));
    }
    assert(norm_path(p.take(k)) =~= p.take(k));
}

/// The in-memory registry.
pub struct Registry {
    keys: Vec<KeyEntry>,
}

impl Registry {
    #[verifier::type_invariant]
    pub(crate) closed spec fn inv(self) -> bool {
        keys_inv(self.keys@)
    }

    /// The invariant of a registry makes its model well formed.
    pub(crate) proof fn lemma_inv_well_formed(self)
        requires
            self.inv(),
        ensures
            well_formed_model(self@),
    {
    }
}

impl View for Registry {
    type V = RegistryModel;

    closed spec fn view(&self) -> RegistryModel {
        keys_model(self.keys@)
    }
}

/// Registry statistics for `RegQueryInfoKey`.
#[derive(Debug, Clone, Copy)]
pub struct RegistryStats {
    pub subkey_count: u32,
    pub max_subkey_len: u32,
    pub value_count: u32,
    pub max_value_name_len: u32,
    pub max_value_len: u32,
}

/// Whether `id` is `(h, p)` or one of its ancestors.
pub open spec fn is_prefix_id(id: KeyId, h: RegistryHive, p: Seq<Seq<char>>) -> bool {
    id.0 == h && id.1.len() <= p.len() && id.1 == p.take(id.1.len() as int)
}

/// `m` with the key `(h, p)` and its ancestors created where missing.
pub open spec fn with_key(m: RegistryModel, h: RegistryHive, p: Seq<Seq<char>>) -> RegistryModel {
    Map::new(
        |id: KeyId| m.contains_key(id) || is_prefix_id(id, h, p),
        |id: KeyId| if m.contains_key(id) { m[id] } else { Map::empty() },
    )
}

/// Registry key names and value names compare without regard to ASCII case.
pub open spec fn norm_path(p: Seq<Seq<char>>) -> Seq<Seq<char>> {
    p.map_values(|s: Seq<char>| upper_seq(s))
}

/// The name under which a value is stored; the default value is `""`.
pub open spec fn norm_name(n: Option<Seq<char>>) -> Seq<char> {
    match n {
        Some(s) => upper_seq(s),
        None => upper_seq(Seq::empty()),
    }
}

/// The key that a parsed key names.
pub open spec fn key_id(k: KeyModel) -> KeyId {
    (k.hive, norm_path(k.path))
}

proof fn lemma_key_pairs_push(keys: Seq<KeyEntry>, e: KeyEntry)
    ensures
        key_pairs(keys.push(e)) == key_pairs(keys).push((entry_id(e), values_model(e.values@))),
{
    assert(key_pairs(keys.push(e)) =~= key_pairs(keys).push((entry_id(e), values_model(e.values@))));
}

proof fn lemma_key_pairs_update(keys: Seq<KeyEntry>, j: int, e: KeyEntry)
    requires
        0 <= j < keys.len(),
        entry_id(e) == entry_id(keys[j]),
    ensures
        key_pairs(keys.update(j, e)) == key_pairs(keys).update(
            j,
            (key_pairs(keys)[j].0, values_model(e.values@)),
        ),
{
    assert(key_pairs(keys.update(j, e)) =~= key_pairs(keys).update(
        j,
        (key_pairs(keys)[j].0, values_model(e.values@)),
    ));
}

proof fn lemma_value_pairs_push(vals: Seq<(String, RegistryValue)>, p: (String, RegistryValue))
    ensures
        value_pairs(vals.push(p)) == value_pairs(vals).push((p.0@, p.1.model())),
{
    assert(value_pairs(vals.push(p)) =~= value_pairs(vals).push((p.0@, p.1.model())));
}

proof fn lemma_value_pairs_update(vals: Seq<(String, RegistryValue)>, j: int, p: (String, RegistryValue))
    requires
        0 <= j < vals.len(),
        p.0@ == vals[j].0@,
    ensures
        value_pairs(vals.update(j, p)) == value_pairs(vals).update(j, (value_pairs(vals)[j].0, p.1.model())),
{
    assert(value_pairs(vals.update(j, p)) =~= value_pairs(vals).update(
        j,
        (value_pairs(vals)[j].0, p.1.model()),
    ));
}

/// `string_views(a) == string_views(b)`, decided.
fn strings_eq(a: &Vec<String>, b: &Vec<String>) -> (r: bool)
    ensures
        r == (string_views(a@) == string_views(b@)),
{
    if a.len() != b.len() {
        assert(string_views(a@).len() != string_views(b@).len());
        return false;
    }
    let mut i: usize = 0;
    while i < a.len()
        invariant
            a.len() == b.len(),
            i <= a.len(),
            forall|k: int| 0 <= k < i ==> a@[k]@ == b@[k]@,
        decreases a.len() - i,
    {
        if a[i] != b[i] {
            assert(string_views(a@)[i as int] != string_views(b@)[i as int]);
            return false;
        }
        i = i + 1;
    }
    assert(string_views(a@) =~= string_views(b@));
    true
}

/// The first `k` strings of `path`, copied.
fn strings_take(path: &Vec<String>, k: usize) -> (r: Vec<String>)
    requires
        k <= path.len(),
    ensures
        string_views(r@) == string_views(path@).take(k as int),
{
    let mut r: Vec<String> = Vec::new();
    let mut i: usize = 0;
    while i < k
        invariant
            k <= path.len(),
            i <= k,
            string_views(r@) == string_views(path@).take(i as int),
        decreases k - i,
    {
        let s = path[i].clone();
        let ghost old_r = r@;
        r.push(s);
        assert(string_views(r@) =~= string_views(old_r).push(s@));
        assert(string_views(path@)[i as int] == path@[i as int]@);
        assert(string_views(r@) =~= string_views(path@).take(i + 1));
        i = i + 1;
    }
    r
}

/// Index of the entry for `(hive, path)`, if there is one.
fn find_entry(keys: &Vec<KeyEntry>, hive: RegistryHive, path: &Vec<String>) -> (r: Option<usize>)
    ensures
        match r {
            Some(i) => i < keys.len() && entry_id(keys@[i as int]) == (hive, string_views(path@)),
            None => forall|i: int| 0 <= i < keys.len() ==> entry_id(#[trigger] keys@[i]) != (hive, string_views(path@)),
        },
{
    let mut i: usize = 0;
    while i < keys.len()
        invariant
            i <= keys.len(),
            forall|k: int| 0 <= k < i ==> entry_id(#[trigger] keys@[k]) != (hive, string_views(path@)),
        decreases keys.len() - i,
    {
        if keys[i].hive == hive && strings_eq(&keys[i].path, path) {
            return Some(i);
        }
        i = i + 1;
    }
    None
}

proof fn lemma_model_lookup(keys: Seq<KeyEntry>, i: int)
    requires
        keys_distinct(key_pairs(keys)),
        0 <= i < keys.len(),
    ensures
        keys_model(keys).contains_key(entry_id(keys[i])),
        keys_model(keys)[entry_id(keys[i])] == values_model(keys[i].values@),
{
    lemma_assoc_index(key_pairs(keys), i);
}

proof fn lemma_model_absent(keys: Seq<KeyEntry>, id: KeyId)
    requires
        forall|i: int| 0 <= i < keys.len() ==> entry_id(#[trigger] keys[i]) != id,
    ensures
        !keys_model(keys).contains_key(id),
{
    assert forall|i: int| 0 <= i < key_pairs(keys).len() implies key_pairs(keys)[i].0 != id by {
        assert(key_pairs(keys)[i].0 == entry_id(keys[i]));
    }
    lemma_assoc_absent(key_pairs(keys), id);
}

proof fn lemma_take_take(p: Seq<Seq<char>>, a: int, b: int)
    requires
        0 <= a <= b <= p.len(),
    ensures
        p.take(b).take(a) == p.take(a),
{
    assert(p.take(b).take(a) =~= p.take(a));
}

proof fn lemma_with_key_first(m0: RegistryModel, m: RegistryModel, hive: RegistryHive, p: Seq<Seq<char>>)
    requires
        forall|id: KeyId| #[trigger] m.contains_key(id) == (m0.contains_key(id) || id == (hive, p.take(0))),
        forall|id: KeyId| m0.contains_key(id) ==> #[trigger] m[id] == m0[id],
        !m0.contains_key((hive, p.take(0))) ==> m[(hive, p.take(0))] == Map::<Seq<char>, ValueModel>::empty(),
    ensures
        m == with_key(m0, hive, p.take(0)),
{
    assert forall|id: KeyId| is_prefix_id(id, hive, p.take(0)) implies id == (hive, p.take(0)) by {
        assert(id.1 =~= p.take(0));
    }
    assert(p.take(0).take(0) =~= p.take(0));
    assert(m =~= with_key(m0, hive, p.take(0)));
}

proof fn lemma_with_key_step(
    m0: RegistryModel,
    before: RegistryModel,
    m: RegistryModel,
    hive: RegistryHive,
    p: Seq<Seq<char>>,
    k: int,
)
    requires
        0 < k <= p.len(),
        before == with_key(m0, hive, p.take(k - 1)),
        forall|id: KeyId| #[trigger] m.contains_key(id) == (before.contains_key(id) || id == (hive, p.take(k))),
        forall|id: KeyId| before.contains_key(id) ==> #[trigger] m[id] == before[id],
        !before.contains_key((hive, p.take(k))) ==> m[(hive, p.take(k))] == Map::<Seq<char>, ValueModel>::empty(),
    ensures
        m == with_key(m0, hive, p.take(k)),
{
    let w = with_key(m0, hive, p.take(k));
    assert forall|id: KeyId| #[trigger] m.contains_key(id) == w.contains_key(id) by {
        if is_prefix_id(id, hive, p.take(k)) {
            let l = id.1.len() as int;
            lemma_take_take(p, l, k);
            if l < k {
                lemma_take_take(p, l, k - 1);
                assert(is_prefix_id(id, hive, p.take(k - 1)));
            } else {
                assert(id.1 =~= p.take(k));
            }
        }
        if is_prefix_id(id, hive, p.take(k - 1)) {
            let l = id.1.len() as int;
            lemma_take_take(p, l, k - 1);
            lemma_take_take(p, l, k);
        }
        if id == (hive, p.take(k)) {
            assert(p.take(k).take(k) =~= p.take(k));
        }
    }
    assert(m =~= w);
}

proof fn lemma_prefix_closed_step(m0: RegistryModel, m: RegistryModel, hive: RegistryHive, p: Seq<Seq<char>>, k: int)
    requires
        0 <= k <= p.len(),
        prefix_closed(m0),
        m == with_key(m0, hive, p.take(k)),
    ensures
        prefix_closed(m),
{
    assert forall|h: RegistryHive, q: Seq<Seq<char>>, j: int|
        #![trigger m.contains_key((h, q)), q.take(j)]
        m.contains_key((h, q)) && 0 <= j <= q.len() implies m.contains_key((h, q.take(j))) by {
        if !m0.contains_key((h, q)) {
            let l = q.len() as int;
            lemma_take_take(p.take(k), j, l);
            assert(q.take(j) =~= p.take(k).take(j));
            assert(is_prefix_id((h, q.take(j)), hive, p.take(k)));
        }
    }
}

/// Creates the entry for `(hive, path)` and its missing ancestors, and
/// returns its index.
fn ensure_entry(keys: &mut Vec<KeyEntry>, hive: RegistryHive, path: &Vec<String>) -> (r: usize)
    requires
        keys_inv(old(keys)@),
        norm_path(string_views(path@)) == string_views(path@),
    ensures
        keys_inv(final(keys)@),
        r < final(keys).len(),
        entry_id(final(keys)@[r as int]) == (hive, string_views(path@)),
        keys_model(final(keys)@) == with_key(keys_model(old(keys)@), hive, string_views(path@)),
{
    let ghost m0 = keys_model(keys@);
    let ghost p = string_views(path@);
    let n = path.len();
    let mut k: usize = 0;
    loop
        invariant_except_break
            k > 0 ==> keys_model(keys@) == with_key(m0, hive, p.take(k - 1)),
            k == 0 ==> keys_model(keys@) == m0,
        invariant
            n == path.len(),
            p == string_views(path@),
            k <= n,
            keys_inv(keys@),
            prefix_closed(m0),
            norm_path(p) == p,
        ensures
            keys_inv(keys@),
            keys_model(keys@) == with_key(m0, hive, p.take(n as int)),
        decreases n - k,
    {
        let pre = strings_take(path, k);
        let ghost pk = p.take(k as int);
        assert(string_views(pre@) == pk);
        let ghost before = keys_model(keys@);
        match find_entry(keys, hive, &pre) {
            Some(idx) => {
                proof {
                    lemma_model_lookup(keys@, idx as int);
                }
            },
            None => {
                proof {
                    lemma_model_absent(keys@, (hive, pk));
                }
                let e = KeyEntry { hive, path: pre, values: Vec::new() };
                let ghost old_keys = keys@;
                proof {
                    lemma_key_pairs_push(old_keys, e);
                    lemma_distinct_push(key_pairs(old_keys), (entry_id(e), values_model(e.values@)));
                }
                keys.push(e);
                proof {
                    assert(value_pairs(e.values@) =~= Seq::<(Seq<char>, ValueModel)>::empty());
                    assert forall|i: int| 0 <= i < keys@.len() implies keys_distinct(value_pairs(#[trigger] keys@[i].values@)) by {
                        if i < old_keys.len() {
                            assert(keys@[i] == old_keys[i]);
                        }
                    }
                    let pair = (entry_id(e), values_model(e.values@));
                    assert(key_pairs(old_keys).push(pair).drop_last() =~= key_pairs(old_keys));
                    assert(values_model(e.values@) == Map::<Seq<char>, ValueModel>::empty());
                    assert(keys_model(keys@) == before.insert((hive, pk), Map::empty()));
                    lemma_norm_path_take(p, k as int);
                    let m = keys_model(keys@);
                    assert forall|id: KeyId| #[trigger] m.contains_key(id) implies {
                        &&& norm_path(id.1) == id.1
                        &&& forall|n: Seq<char>| #[trigger] m[id].contains_key(n) ==> upper_seq(n) == n
                    } by {
                        if id != (hive, pk) {
                            assert(before.contains_key(id));
                        }
                    }
                }
            },
        }
        proof {
            let m = keys_model(keys@);
            assert(m.contains_key((hive, pk)));
            assert(forall|id: KeyId| #[trigger] m.contains_key(id) == (before.contains_key(id) || id == (hive, pk)));
            assert(forall|id: KeyId| before.contains_key(id) ==> #[trigger] m[id] == before[id]);
            assert(!before.contains_key((hive, pk)) ==> m[(hive, pk)] == Map::<Seq<char>, ValueModel>::empty());
            if k == 0 {
                lemma_with_key_first(m0, m, hive, p);
            } else {
                lemma_with_key_step(m0, before, m, hive, p, k as int);
            }
            lemma_prefix_closed_step(m0, m, hive, p, k as int);
        }
        if k == n {
            break;
        }
        k = k + 1;
    }
    assert(p.take(n as int) =~= p);
    let r = find_entry(keys, hive, path);
    proof {
        if r is None {
            lemma_model_absent(keys@, (hive, p));
        }
    }
    r.unwrap()
}

/// Stores `value` under `name`, replacing a value of that name.
fn set_value(vals: &mut Vec<(String, RegistryValue)>, name: String, value: RegistryValue)
    requires
        keys_distinct(value_pairs(old(vals)@)),
    ensures
        keys_distinct(value_pairs(final(vals)@)),
        values_model(final(vals)@) == values_model(old(vals)@).insert(name@, value.model()),
{
    match find_value(vals, &name) {
        Some(j) => {
            let ghost old_vals = vals@;
            proof {
                lemma_value_pairs_update(old_vals, j as int, (name, value));
                lemma_assoc_update(value_pairs(old_vals), j as int, value.model());
                lemma_distinct_update(value_pairs(old_vals), j as int, value.model());
            }
            vals.set(j, (name, value));
        },
        None => {
            let ghost old_vals = vals@;
            proof {
                lemma_values_absent(old_vals, name@);
                lemma_value_pairs_push(old_vals, (name, value));
                lemma_distinct_push(value_pairs(old_vals), (name@, value.model()));
                assert(value_pairs(old_vals).push((name@, value.model())).drop_last() =~= value_pairs(old_vals));
            }
            vals.push((name, value));
        },
    }
}

/// Index of the value named `name`.
fn find_value(vals: &Vec<(String, RegistryValue)>, name: &String) -> (r: Option<usize>)
    ensures
        match r {
            Some(j) => j < vals.len() && vals@[j as int].0@ == name@,
            None => forall|i: int| 0 <= i < vals.len() ==> (#[trigger] vals@[i]).0@ != name@,
        },
{
    let mut i: usize = 0;
    while i < vals.len()
        invariant
            i <= vals.len(),
            forall|k: int| 0 <= k < i ==> (#[trigger] vals@[k]).0@ != name@,
        decreases vals.len() - i,
    {
        if vals[i].0 == *name {
            return Some(i);
        }
        i = i + 1;
    }
    None
}

proof fn lemma_values_absent(vals: Seq<(String, RegistryValue)>, n: Seq<char>)
    requires
        forall|i: int| 0 <= i < vals.len() ==> (#[trigger] vals[i]).0@ != n,
    ensures
        !values_model(vals).contains_key(n),
{
    assert forall|i: int| 0 <= i < value_pairs(vals).len() implies value_pairs(vals)[i].0 != n by {
        assert(value_pairs(vals)[i].0 == vals[i].0@);
    }
    lemma_assoc_absent(value_pairs(vals), n);
}

proof fn lemma_values_lookup(vals: Seq<(String, RegistryValue)>, j: int)
    requires
        keys_distinct(value_pairs(vals)),
        0 <= j < vals.len(),
    ensures
        values_model(vals).contains_key(vals[j].0@),
        values_model(vals)[vals[j].0@] == vals[j].1.model(),
{
    lemma_assoc_index(value_pairs(vals), j);
}

/// Upper-cases each path component.
fn normalize_path(path: &Vec<String>) -> (r: Vec<String>)
    ensures
        string_views(r@) == norm_path(string_views(path@)),
{
    let mut r: Vec<String> = Vec::new();
    let mut i: usize = 0;
    while i < path.len()
        invariant
            i <= path.len(),
            string_views(r@) == norm_path(string_views(path@).take(i as int)),
        decreases path.len() - i,
    {
        let s = normalize_segment(path[i].as_str());
        let ghost old_r = r@;
        r.push(s);
        assert(string_views(r@) =~= string_views(old_r).push(s@));
        assert(string_views(path@)[i as int] == path@[i as int]@);
        assert(norm_path(string_views(path@).take(i + 1)) =~= norm_path(string_views(path@).take(i as int)).push(upper_seq(path@[i as int]@)));
        i = i + 1;
    }
    assert(string_views(path@).take(path.len() as int) =~= string_views(path@));
    r
}

/// Registry keys and value names are case-insensitive.
fn normalize_segment(segment: &str) -> (r: String)
    ensures
        r@ == upper_seq(segment@),
{
    let cs = chars_of(segment);
    let u = upper_chars(cs.as_slice());
    string_from(u.as_slice())
}

fn normalize_value_name(name: &Option<String>) -> (r: String)
    ensures
        r@ == norm_name(opt_view(*name)),
{
    match name {
        Some(n) => normalize_segment(n.as_str()),
        None => {
            assert(upper_seq(Seq::<char>::empty()) =~= Seq::<char>::empty());
            String::new()
        },
    }
}

/// The registry that `with_defaults` builds: the five root hives, plus
/// `Software\Classes` under the local-machine and current-user hives.
pub open spec fn default_model() -> RegistryModel {
    let sc = norm_path(seq!["Software"@, "Classes"@]);
    let roots = with_key(
        with_key(
            with_key(
                with_key(with_key(Map::empty(), RegistryHive::ClassesRoot, Seq::empty()), RegistryHive::LocalMachine, Seq::empty()),
                RegistryHive::CurrentUser,
                Seq::empty(),
            ),
            RegistryHive::Users,
            Seq::empty(),
        ),
        RegistryHive::CurrentConfig,
        Seq::empty(),
    );
    with_key(with_key(roots, RegistryHive::LocalMachine, sc), RegistryHive::CurrentUser, sc)
}

/// The registry after `set_key(key, value)` on `m`.
pub open spec fn model_set(m: RegistryModel, k: KeyModel, v: ValueModel) -> RegistryModel {
    let id = key_id(k);
    let w = with_key(m, id.0, id.1);
    w.insert(id, w[id].insert(norm_name(k.value_name), v))
}

/// Whether `append_key(key, _)` on `m` stores its value.
pub open spec fn model_appends(m: RegistryModel, k: KeyModel) -> bool {
    let id = key_id(k);
    !(m.contains_key(id) && m[id].contains_key(norm_name(k.value_name)))
}

/// The registry after `append_key(key, value)` on `m`.
pub open spec fn model_append(m: RegistryModel, k: KeyModel, v: ValueModel) -> RegistryModel {
    let id = key_id(k);
    if model_appends(m, k) {
        model_set(m, k, v)
    } else {
        with_key(m, id.0, id.1)
    }
}

/// The value that `get_key(key)` finds in `m`.
pub open spec fn model_get(m: RegistryModel, k: KeyModel) -> Option<ValueModel> {
    let id = key_id(k);
    let n = norm_name(k.value_name);
    if m.contains_key(id) && m[id].contains_key(n) {
        Some(m[id][n])
    } else {
        None
    }
}

impl Registry {
    /// A registry with the default hives (`with_defaults`).
    pub fn new() -> (r: Registry)
        ensures
            r@ == default_model(),
            well_formed_model(r@),
    {
        Self::with_defaults()
    }

    /// Seeds the five root hives and `Software\Classes` under HKLM and HKCU.
    pub fn with_defaults() -> (r: Registry)
        ensures
            r@ == default_model(),
            well_formed_model(r@),
    {
        let mut keys: Vec<KeyEntry> = Vec::new();
        proof {
            assert(key_pairs(keys@) =~= Seq::<(KeyId, Map<Seq<char>, ValueModel>)>::empty());
            assert(keys_model(keys@) == RegistryModel::empty());
            assert(prefix_closed(RegistryModel::empty()));
        }
        let root: Vec<String> = Vec::new();
        assert(string_views(root@) =~= Seq::<Seq<char>>::empty());
        assert(norm_path(Seq::<Seq<char>>::empty()) =~= Seq::<Seq<char>>::empty());
        ensure_entry(&mut keys, RegistryHive::ClassesRoot, &root);
        ensure_entry(&mut keys, RegistryHive::LocalMachine, &root);
        ensure_entry(&mut keys, RegistryHive::CurrentUser, &root);
        ensure_entry(&mut keys, RegistryHive::Users, &root);
        ensure_entry(&mut keys, RegistryHive::CurrentConfig, &root);
        let raw = vec![owned("Software"), owned("Classes")];
        assert(string_views(raw@) =~= seq!["Software"@, "Classes"@]);
        let sc = normalize_path(&raw);
        proof {
            lemma_norm_path_idempotent(string_views(raw@));
        }
        ensure_entry(&mut keys, RegistryHive::LocalMachine, &sc);
        ensure_entry(&mut keys, RegistryHive::CurrentUser, &sc);
        let r = Registry { keys };
        proof {
            use_type_invariant(&r);
        }
        r
    }

    /// Stores `value` under the key, creating the key and its ancestors;
    /// a value of the same name is replaced.
    pub fn set_key(&mut self, key: &RegistryKey, value: RegistryValue)
        ensures
            final(self)@ == model_set(old(self)@, key.model(), value.model()),
            well_formed_model(final(self)@),
    {
        proof {
            use_type_invariant(&*self);
        }
        let p = normalize_path(&key.path);
        let name = normalize_value_name(&key.value_name);
        proof {
            lemma_norm_path_idempotent(string_views(key.path@));
            crate::text::lemma_upper_idempotent(match opt_view(key.value_name) {
                Some(x) => x,
                None => Seq::<char>::empty(),
            });
        }
        let mut keys: Vec<KeyEntry> = Vec::new();
        proof {
            assert(key_pairs(keys@) =~= Seq::<(KeyId, Map<Seq<char>, ValueModel>)>::empty());
        }
        std::mem::swap(&mut keys, &mut self.keys);
        let idx = ensure_entry(&mut keys, key.hive, &p);
        let ghost before = keys@;
        proof {
            lemma_model_lookup(before, idx as int);
        }
        let mut entry = keys.remove(idx);
        set_value(&mut entry.values, name, value);
        keys.insert(idx, entry);
        proof {
            assert(keys@ =~= before.update(idx as int, entry));
            lemma_key_pairs_update(before, idx as int, entry);
            lemma_assoc_update(key_pairs(before), idx as int, values_model(entry.values@));
            lemma_distinct_update(key_pairs(before), idx as int, values_model(entry.values@));
            lemma_names_upper_insert(keys_model(before), entry_id(before[idx as int]), values_model(entry.values@),
                name@, value.model());
            assert forall|i: int| 0 <= i < keys@.len() implies keys_distinct(value_pairs(#[trigger] keys@[i].values@)) by {
                if i != idx {
                    assert(keys@[i] == before[i]);
                }
            }
            let m = keys_model(keys@);
            assert(m.dom() =~= keys_model(before).dom());
        }
        std::mem::swap(&mut keys, &mut self.keys);
        proof {
            use_type_invariant(&*self);
        }
    }

    /// Stores `value` under the key unless a value of that name exists;
    /// returns whether it stored it. The key is created either way.
    pub fn append_key(&mut self, key: &RegistryKey, value: RegistryValue) -> (r: bool)
        ensures
            r == model_appends(old(self)@, key.model()),
            final(self)@ == model_append(old(self)@, key.model(), value.model()),
            !r ==> final(self)@ == old(self)@,
            well_formed_model(final(self)@),
    {
        proof {
            use_type_invariant(&*self);
        }
        let p = normalize_path(&key.path);
        let name = normalize_value_name(&key.value_name);
        proof {
            lemma_norm_path_idempotent(string_views(key.path@));
            crate::text::lemma_upper_idempotent(match opt_view(key.value_name) {
                Some(x) => x,
                None => Seq::<char>::empty(),
            });
        }
        let mut keys: Vec<KeyEntry> = Vec::new();
        proof {
            assert(key_pairs(keys@) =~= Seq::<(KeyId, Map<Seq<char>, ValueModel>)>::empty());
        }
        std::mem::swap(&mut keys, &mut self.keys);
        let ghost m0 = keys_model(keys@);
        let idx = ensure_entry(&mut keys, key.hive, &p);
        let ghost before = keys@;
        proof {
            lemma_model_lookup(before, idx as int);
        }
        let present = find_value(&keys[idx].values, &name);
        let stored = match present {
            Some(j) => {
                proof {
                    lemma_values_lookup(before[idx as int].values@, j as int);
                }
                false
            },
            None => {
                proof {
                    lemma_values_absent(before[idx as int].values@, name@);
                }
                let mut entry = keys.remove(idx);
                set_value(&mut entry.values, name, value);
                keys.insert(idx, entry);
                proof {
                    assert(keys@ =~= before.update(idx as int, entry));
                    lemma_key_pairs_update(before, idx as int, entry);
                    lemma_assoc_update(key_pairs(before), idx as int, values_model(entry.values@));
                    lemma_distinct_update(key_pairs(before), idx as int, values_model(entry.values@));
                    lemma_names_upper_insert(keys_model(before), entry_id(before[idx as int]), values_model(entry.values@),
                        name@, value.model());
                    assert forall|i: int| 0 <= i < keys@.len() implies keys_distinct(value_pairs(#[trigger] keys@[i].values@)) by {
                        if i != idx {
                            assert(keys@[i] == before[i]);
                        }
                    }
                    let m = keys_model(keys@);
                    assert(m.dom() =~= keys_model(before).dom());
                }
                true
            },
        };
        proof {
            let id = key_id(key.model());
            if m0.contains_key(id) {
                assert(with_key(m0, id.0, id.1)[id] == m0[id]);
                lemma_with_key_present(m0, id.0, id.1);
            }
        }
        std::mem::swap(&mut keys, &mut self.keys);
        proof {
            use_type_invariant(&*self);
        }
        stored
    }

    /// The value stored under the key, if the key and the value exist.
    pub fn get_key(&self, key: &RegistryKey) -> (r: Option<&RegistryValue>)
        ensures
            match r {
                Some(v) => model_get(self@, key.model()) == Some(v.model()),
                None => model_get(self@, key.model()) is None,
            },
            well_formed_model(self@),
    {
        proof {
            use_type_invariant(self);
        }
        let p = normalize_path(&key.path);
        let name = normalize_value_name(&key.value_name);
        match find_entry(&self.keys, key.hive, &p) {
            None => {
                proof {
                    lemma_model_absent(self.keys@, (key.hive, string_views(p@)));
                }
                None
            },
            Some(idx) => {
                proof {
                    lemma_model_lookup(self.keys@, idx as int);
                }
                let vals = &self.keys[idx].values;
                match find_value(vals, &name) {
                    Some(j) => {
                        proof {
                            lemma_values_lookup(vals@, j as int);
                        }
                        Some(&vals[j].1)
                    },
                    None => {
                        proof {
                            lemma_values_absent(vals@, name@);
                        }
                        None
                    },
                }
            },
        }
    }
}

/// The names of the immediate subkeys of `id`.
pub open spec fn children(m: RegistryModel, id: KeyId) -> Set<Seq<char>> {
    Set::new(|c: Seq<char>| m.contains_key((id.0, id.1.push(c))))
}

/// A subkey of a well-formed registry has an upper-cased name, and its
/// parent exists.
pub proof fn lemma_children_upper(m: RegistryModel, id: KeyId, c: Seq<char>)
    requires
        well_formed_model(m),
        children(m, id).contains(c),
    ensures
        upper_seq(c) == c,
        m.contains_key(id),
{
    let q = id.1.push(c);
    assert(m.contains_key((id.0, q)));
    assert(norm_path(q)[q.len() - 1] == upper_seq(q[q.len() - 1]));
    assert(q.take(id.1.len() as int) =~= id.1);
    assert(m.contains_key((id.0, q.take(id.1.len() as int))));
}

/// Creating a key that exists, in a registry where every key's ancestors
/// exist, changes nothing.
pub proof fn lemma_with_key_present(m: RegistryModel, h: RegistryHive, p: Seq<Seq<char>>)
    requires
        prefix_closed(m),
        m.contains_key((h, p)),
    ensures
        with_key(m, h, p) == m,
{
    assert forall|id: KeyId| #[trigger] with_key(m, h, p).contains_key(id) implies m.contains_key(id) by {
        if is_prefix_id(id, h, p) {
            assert(m.contains_key((h, p.take(id.1.len() as int))));
        }
    }
    assert(with_key(m, h, p) =~= m);
}

/// `x`, or `usize::MAX` where `x` is larger.
pub open spec fn sat(x: int) -> int {
    if x <= usize::MAX {
        x
    } else {
        usize::MAX as int
    }
}

/// Bytes one string of a value takes, with its terminator.
pub open spec fn str_len(t: Seq<char>, wide: bool) -> int {
    if wide {
        (utf16_units(t) + 1) as int * 2
    } else {
        utf8_len(t) as int + 1
    }
}

pub open spec fn multi_len(vs: Seq<Seq<char>>, wide: bool) -> int
    decreases vs.len(),
{
    if vs.len() == 0 {
        0
    } else {
        multi_len(vs.drop_last(), wide) + str_len(vs.last(), wide)
    }
}

/// Bytes the data of a value takes (`RegQueryValueEx` sizes).
pub open spec fn value_len(v: ValueModel, wide: bool) -> int {
    match v {
        ValueModel::String(t) => str_len(t, wide),
        ValueModel::Dword(_) => 4,
        ValueModel::MultiString(vs) => multi_len(vs, wide) + if wide { 2int } else { 1int },
        ValueModel::Binary(b) => b.len() as int,
    }
}

/// `f` is the largest subkey-name length under `id` (0 when none).
pub open spec fn max_subkey(m: RegistryModel, id: KeyId, f: int) -> bool {
    &&& 0 <= f
    &&& forall|c: Seq<char>| #[trigger] children(m, id).contains(c) ==> sat(utf8_len(c) as int) <= f
    &&& (f == 0 || exists|c: Seq<char>| #[trigger] children(m, id).contains(c) && sat(utf8_len(c) as int) == f)
}

/// `f` is the largest length of a non-empty value name (0 when none).
pub open spec fn max_name(vals: Map<Seq<char>, ValueModel>, f: int) -> bool {
    &&& 0 <= f
    &&& forall|n: Seq<char>| #[trigger] vals.contains_key(n) && n.len() > 0 ==> sat(utf8_len(n) as int) <= f
    &&& (f == 0 || exists|n: Seq<char>| #[trigger] vals.contains_key(n) && n.len() > 0 && sat(utf8_len(n) as int) == f)
}

/// `f` is the largest data size of a value (0 when none).
pub open spec fn max_value(vals: Map<Seq<char>, ValueModel>, wide: bool, f: int) -> bool {
    &&& 0 <= f
    &&& forall|n: Seq<char>| #[trigger] vals.contains_key(n) ==> sat(value_len(vals[n], wide)) <= f
    &&& (f == 0 || exists|n: Seq<char>| #[trigger] vals.contains_key(n) && sat(value_len(vals[n], wide)) == f)
}

proof fn lemma_sat_add(a: int, b: int)
    requires
        0 <= a,
        0 <= b,
    ensures
        sat(sat(a) + b) == sat(a + b),
{
}

/// Bytes of one string, saturated.
fn string_len(t: &String, wide: bool) -> (r: usize)
    ensures
        r == sat(str_len(t@, wide)),
{
    let cs = chars_of(t.as_str());
    if wide {
        let u = utf16_length(cs.as_slice());
        let a = u.saturating_add(1);
        proof {
            lemma_sat_add(utf16_units(t@) as int, 1);
        }
        let r = a.saturating_add(a);
        proof {
            lemma_sat_add(utf16_units(t@) as int + 1, utf16_units(t@) as int + 1);
        }
        r
    } else {
        let u = utf8_length(cs.as_slice());
        proof {
            lemma_sat_add(utf8_len(t@) as int, 1);
        }
        u.saturating_add(1)
    }
}

/// Bytes the data of a value takes, saturated at `usize::MAX`.
fn registry_value_len(value: &RegistryValue, wide: bool) -> (r: usize)
    ensures
        r == sat(value_len(value.model(), wide)),
{
    match value {
        RegistryValue::String(text) => string_len(text, wide),
        RegistryValue::Dword(_) => 4,
        RegistryValue::MultiString(values) => {
            let mut len: usize = 0;
            let mut i: usize = 0;
            while i < values.len()
                invariant
                    i <= values.len(),
                    len == sat(multi_len(string_views(values@).take(i as int), wide)),
                    multi_len(string_views(values@).take(i as int), wide) >= 0,
                decreases values.len() - i,
            {
                let l = string_len(&values[i], wide);
                let ghost pre = string_views(values@).take(i as int);
                assert(string_views(values@).take(i + 1).drop_last() =~= pre);
                assert(string_views(values@)[i as int] == values@[i as int]@);
                proof {
                    lemma_sat_add(multi_len(pre, wide), sat(str_len(values@[i as int]@, wide)));
                    lemma_sat_add(str_len(values@[i as int]@, wide), multi_len(pre, wide));
                }
                len = len.saturating_add(l);
                i = i + 1;
            }
            assert(string_views(values@).take(values.len() as int) =~= string_views(values@));
            proof {
                lemma_sat_add(multi_len(string_views(values@), wide), if wide { 2int } else { 1int });
            }
            if wide {
                len.saturating_add(2)
            } else {
                len.saturating_add(1)
            }
        },
        RegistryValue::Binary(bytes) => bytes.len(),
    }
}

/// Whether the first `n` components of `a` are those of `b`.
fn strings_prefix_eq(a: &Vec<String>, b: &Vec<String>) -> (r: bool)
    requires
        b.len() <= a.len(),
    ensures
        r == (string_views(a@).take(b.len() as int) == string_views(b@)),
{
    let mut i: usize = 0;
    while i < b.len()
        invariant
            b.len() <= a.len(),
            i <= b.len(),
            forall|k: int| 0 <= k < i ==> a@[k]@ == b@[k]@,
        decreases b.len() - i,
    {
        if a[i] != b[i] {
            assert(string_views(a@).take(b.len() as int)[i as int] != string_views(b@)[i as int]);
            return false;
        }
        i = i + 1;
    }
    assert(string_views(a@).take(b.len() as int) =~= string_views(b@));
    true
}

impl Registry {
    /// The immediate subkeys of the key, upper-cased, in ascending order;
    /// none where the key does not exist.
    pub fn subkeys_key(&self, key: &RegistryKey) -> (r: Vec<String>)
        ensures
            sorted_strict(string_views(r@)),
            forall|c: Seq<char>| #[trigger] string_views(r@).contains(c) <==> children(self@, key_id(key.model())).contains(c),
            forall|i: int| 0 <= i < r@.len() ==> upper_seq(#[trigger] r@[i]@) == r@[i]@,
            !self@.contains_key(key_id(key.model())) ==> r@.len() == 0,
            well_formed_model(self@),
    {
        proof {
            use_type_invariant(self);
        }
        let p = normalize_path(&key.path);
        let hive = key.hive;
        let ghost id = (hive, string_views(p@));
        let n = p.len();
        let mut names: Vec<String> = Vec::new();
        let mut i: usize = 0;
        assert(sorted_strict(string_views(names@)));
        while i < self.keys.len()
            invariant
                keys_inv(self.keys@),
                n == p.len(),
                id == (hive, string_views(p@)),
                i <= self.keys.len(),
                sorted_strict(string_views(names@)),
                forall|c: Seq<char>| #[trigger] string_views(names@).contains(c) <==> exists|j: int|
                    0 <= j < i && entry_id(#[trigger] self.keys@[j]) == (id.0, id.1.push(c)),
            decreases self.keys.len() - i,
        {
            let e = &self.keys[i];
            if e.hive == hive && e.path.len() > n && e.path.len() - 1 == n && strings_prefix_eq(&e.path, &p) {
                let c = e.path[n].clone();
                proof {
                    assert(string_views(e.path@) =~= string_views(p@).push(c@));
                    if string_views(names@).contains(c@) {
                        let j = choose|j: int| 0 <= j < i && entry_id(#[trigger] self.keys@[j]) == (id.0, id.1.push(c@));
                        assert(key_pairs(self.keys@)[j].0 == key_pairs(self.keys@)[i as int].0);
                    }
                }
                let ghost before = string_views(names@);
                insert_sorted(&mut names, c);
                proof {
                    assert forall|d: Seq<char>| #[trigger] string_views(names@).contains(d) <==> exists|j: int|
                        0 <= j < i + 1 && entry_id(#[trigger] self.keys@[j]) == (id.0, id.1.push(d)) by {
                        if exists|j: int| 0 <= j < i + 1 && entry_id(#[trigger] self.keys@[j]) == (id.0, id.1.push(d)) {
                            let j = choose|j: int| 0 <= j < i + 1 && entry_id(#[trigger] self.keys@[j]) == (id.0, id.1.push(d));
                            if j == i {
                                assert(id.1.push(d).last() == d);
                                assert(id.1.push(c@).last() == c@);
                            }
                        }
                    }
                }
            } else {
                proof {
                    assert forall|d: Seq<char>| #[trigger] string_views(names@).contains(d) <==> exists|j: int|
                        0 <= j < i + 1 && entry_id(#[trigger] self.keys@[j]) == (id.0, id.1.push(d)) by {
                        if entry_id(self.keys@[i as int]) == (id.0, id.1.push(d)) {
                            assert(id.1.push(d).take(n as int) =~= id.1);
                            assert(string_views(e.path@) == id.1.push(d));
                            assert(string_views(e.path@).len() == e.path@.len());
                            assert(string_views(p@).len() == p@.len());
                            assert(e.path@.len() == n + 1);
                            assert(string_views(e.path@).take(n as int) == string_views(p@));
                            assert(false);
                        }
                    }
                }
            }
            i = i + 1;
        }
        proof {
            assert forall|c: Seq<char>| #[trigger] string_views(names@).contains(c) <==> children(self@, key_id(key.model())).contains(c) by {
                lemma_assoc_contains(key_pairs(self.keys@), (id.0, id.1.push(c)));
                if exists|j: int| 0 <= j < key_pairs(self.keys@).len() && key_pairs(self.keys@)[j].0 == (id.0, id.1.push(c)) {
                    let j = choose|j: int| 0 <= j < key_pairs(self.keys@).len() && key_pairs(self.keys@)[j].0 == (id.0, id.1.push(c));
                    assert(entry_id(self.keys@[j]) == (id.0, id.1.push(c)));
                }
                if exists|j: int| 0 <= j < self.keys.len() && entry_id(#[trigger] self.keys@[j]) == (id.0, id.1.push(c)) {
                    let j = choose|j: int| 0 <= j < self.keys.len() && entry_id(#[trigger] self.keys@[j]) == (id.0, id.1.push(c));
                    assert(key_pairs(self.keys@)[j].0 == (id.0, id.1.push(c)));
                }
            }
            let kid = key_id(key.model());
            assert forall|i: int| 0 <= i < names@.len() implies upper_seq(#[trigger] names@[i]@) == names@[i]@ by {
                assert(string_views(names@)[i] == names@[i]@);
                assert(string_views(names@).contains(names@[i]@));
                lemma_children_upper(self@, kid, names@[i]@);
            }
            if names@.len() > 0 {
                assert(string_views(names@)[0] == names@[0]@);
                assert(string_views(names@).contains(names@[0]@));
                lemma_children_upper(self@, kid, names@[0]@);
            }
        }
        names
    }
}

/// What `stats_key` reports for the key `id` of `m` with the given flag.
pub open spec fn stats_match(m: RegistryModel, id: KeyId, wide: bool, st: RegistryStats) -> bool {
    &&& m.contains_key(id)
    &&& st.subkey_count == children(m, id).len() as u32
    &&& exists|f: int| max_subkey(m, id, f) && st.max_subkey_len == f as u32
    &&& st.value_count == m[id].dom().len() as u32
    &&& exists|f: int| max_name(m[id], f) && st.max_value_name_len == f as u32
    &&& exists|f: int| max_value(m[id], wide, f) && st.max_value_len == f as u32
}

/// The error `stats_key` reports for a key that does not exist.
pub open spec fn missing_key_error() -> ErrorModel {
    ErrorModel::InvalidKey("missing registry key"@)
}

impl Registry {
    /// Counts and maximum lengths over a key's subkeys and values, as
    /// `RegQueryInfoKeyA` (`wide == false`) or `RegQueryInfoKeyW` report them.
    pub fn stats_key(&self, key: &RegistryKey, wide: bool) -> (r: Result<RegistryStats, RegistryError>)
        ensures
            match r {
                Ok(st) => stats_match(self@, key_id(key.model()), wide, st),
                Err(e) => !self@.contains_key(key_id(key.model())) && e.model() == missing_key_error(),
            },
            well_formed_model(self@),
    {
        proof {
            use_type_invariant(self);
        }
        let p = normalize_path(&key.path);
        let ghost id = (key.hive, string_views(p@));
        let idx = match find_entry(&self.keys, key.hive, &p) {
            None => {
                proof {
                    lemma_model_absent(self.keys@, id);
                }
                return Err(RegistryError::InvalidKey(owned("missing registry key")));
            },
            Some(idx) => idx,
        };
        proof {
            lemma_model_lookup(self.keys@, idx as int);
        }
        let subs = self.subkeys_key(key);
        let ghost cs = string_views(subs@);
        proof {
            // The sorted names are distinct, so they count the children.
            assert(cs.no_duplicates()) by {
                assert forall|a: int, b: int| 0 <= a < cs.len() && 0 <= b < cs.len() && a != b implies cs[a] != cs[b] by {
                    if a < b {
                        assert(lex_lt(cs[a], cs[b]));
                    } else {
                        assert(lex_lt(cs[b], cs[a]));
                    }
                    if cs[a] == cs[b] {
                        crate::text::lemma_lex_irreflexive(cs[a]);
                    }
                }
            }
            cs.unique_seq_to_set();
            assert(cs.to_set() =~= children(self@, id));
        }
        let mut max_sub: usize = 0;
        let mut i: usize = 0;
        while i < subs.len()
            invariant
                cs == string_views(subs@),
                i <= subs.len(),
                forall|k: int| 0 <= k < i ==> sat(utf8_len(#[trigger] cs[k]) as int) <= max_sub,
                max_sub == 0 || exists|k: int| 0 <= k < i && sat(utf8_len(#[trigger] cs[k]) as int) == max_sub,
            decreases subs.len() - i,
        {
            let sc = chars_of(subs[i].as_str());
            let l = utf8_length(sc.as_slice());
            assert(cs[i as int] == subs@[i as int]@);
            if l > max_sub {
                max_sub = l;
            }
            i = i + 1;
        }
        proof {
            assert(max_subkey(self@, id, max_sub as int)) by {
                assert forall|c: Seq<char>| #[trigger] children(self@, id).contains(c) implies sat(utf8_len(c) as int) <= max_sub by {
                    assert(cs.contains(c));
                    let k = choose|k: int| 0 <= k < cs.len() && cs[k] == c;
                }
                if max_sub != 0 {
                    let k = choose|k: int| 0 <= k < subs.len() && sat(utf8_len(#[trigger] cs[k]) as int) == max_sub;
                    assert(cs.contains(cs[k]));
                    assert(children(self@, id).contains(cs[k]));
                }
            }
        }
        let vals = &self.keys[idx].values;
        let ghost vm = values_model(vals@);
        proof {
            crate::assoc::lemma_assoc_len(value_pairs(vals@));
        }
        let mut max_name_len: usize = 0;
        let mut max_value_len: usize = 0;
        let mut i: usize = 0;
        while i < vals.len()
            invariant
                i <= vals.len(),
                forall|k: int| 0 <= k < i && (#[trigger] vals@[k]).0@.len() > 0 ==> sat(utf8_len(vals@[k].0@) as int) <= max_name_len,
                max_name_len == 0 || exists|k: int| 0 <= k < i && (#[trigger] vals@[k]).0@.len() > 0 && sat(utf8_len(vals@[k].0@) as int) == max_name_len,
                forall|k: int| 0 <= k < i ==> sat(value_len((#[trigger] vals@[k]).1.model(), wide)) <= max_value_len,
                max_value_len == 0 || exists|k: int| 0 <= k < i && sat(value_len((#[trigger] vals@[k]).1.model(), wide)) == max_value_len,
            decreases vals.len() - i,
        {
            let nc = chars_of(vals[i].0.as_str());
            if nc.len() > 0 {
                let l = utf8_length(nc.as_slice());
                if l > max_name_len {
                    max_name_len = l;
                }
            }
            let vl = registry_value_len(&vals[i].1, wide);
            if vl > max_value_len {
                max_value_len = vl;
            }
            i = i + 1;
        }
        proof {
            let vp = value_pairs(vals@);
            assert(keys_distinct(vp));
            assert forall|n: Seq<char>| #[trigger] vm.contains_key(n) implies exists|k: int| 0 <= k < vals.len() && (#[trigger] vals@[k]).0@ == n && vm[n] == vals@[k].1.model() by {
                lemma_assoc_contains(vp, n);
                let k = choose|k: int| 0 <= k < vp.len() && vp[k].0 == n;
                lemma_values_lookup(vals@, k);
            }
            assert(max_name(vm, max_name_len as int)) by {
                if max_name_len != 0 {
                    let k = choose|k: int| 0 <= k < vals.len() && (#[trigger] vals@[k]).0@.len() > 0 && sat(utf8_len(vals@[k].0@) as int) == max_name_len;
                    lemma_values_lookup(vals@, k);
                }
            }
            assert(max_value(vm, wide, max_value_len as int)) by {
                if max_value_len != 0 {
                    let k = choose|k: int| 0 <= k < vals.len() && sat(value_len((#[trigger] vals@[k]).1.model(), wide)) == max_value_len;
                    lemma_values_lookup(vals@, k);
                }
            }
        }
        Ok(
            RegistryStats {
                subkey_count: subs.len() as u32,
                max_subkey_len: max_sub as u32,
                value_count: vals.len() as u32,
                max_value_name_len: max_name_len as u32,
                max_value_len: max_value_len as u32,
            },
        )
    }

    /// Parses `key` and stores `value` there, replacing a value of that name.
    pub fn set(&mut self, key: &str, value: RegistryValue) -> (r: Result<(), RegistryError>)
        ensures
            match super::key::parse_key(key@) {
                Ok(k) => r is Ok && final(self)@ == model_set(old(self)@, k, value.model()),
                Err(e) => r matches Err(err) && err.model() == e && final(self)@ == old(self)@,
            },
            well_formed_model(final(self)@),
    {
        proof {
            use_type_invariant(&*self);
        }
        let key = RegistryKey::parse(key)?;
        self.set_key(&key, value);
        Ok(())
    }

    /// Parses `key` and stores `value` there unless a value of that name
    /// exists; returns whether it stored it.
    pub fn append(&mut self, key: &str, value: RegistryValue) -> (r: Result<bool, RegistryError>)
        ensures
            match super::key::parse_key(key@) {
                Ok(k) => r == Ok::<bool, RegistryError>(model_appends(old(self)@, k))
                    && final(self)@ == model_append(old(self)@, k, value.model())
                    && (r == Ok::<bool, RegistryError>(false) ==> final(self)@ == old(self)@),
                Err(e) => r matches Err(err) && err.model() == e && final(self)@ == old(self)@,
            },
            well_formed_model(final(self)@),
    {
        proof {
            use_type_invariant(&*self);
        }
        let key = RegistryKey::parse(key)?;
        Ok(self.append_key(&key, value))
    }

    /// Parses `key` and looks its value up.
    pub fn get(&self, key: &str) -> (r: Result<Option<&RegistryValue>, RegistryError>)
        ensures
            match super::key::parse_key(key@) {
                Ok(k) => r matches Ok(o) && match o {
                    Some(v) => model_get(self@, k) == Some(v.model()),
                    None => model_get(self@, k) is None,
                },
                Err(e) => r matches Err(err) && err.model() == e,
            },
            well_formed_model(self@),
    {
        proof {
            use_type_invariant(self);
        }
        let key = RegistryKey::parse(key)?;
        Ok(self.get_key(&key))
    }

    /// Parses `key` and lists its immediate subkeys in ascending order.
    pub fn subkeys(&self, key: &str) -> (r: Result<Vec<String>, RegistryError>)
        ensures
            match super::key::parse_key(key@) {
                Ok(k) => r matches Ok(v) && sorted_strict(string_views(v@)) && (forall|c: Seq<char>|
                    #[trigger] string_views(v@).contains(c) <==> children(self@, key_id(k)).contains(c))
                    && (forall|i: int| 0 <= i < v@.len() ==> upper_seq(#[trigger] v@[i]@) == v@[i]@)
                    && (!self@.contains_key(key_id(k)) ==> v@.len() == 0),
                Err(e) => r matches Err(err) && err.model() == e,
            },
            well_formed_model(self@),
    {
        proof {
            use_type_invariant(self);
        }
        let key = RegistryKey::parse(key)?;
        Ok(self.subkeys_key(&key))
    }

    /// Parses `key` and reports its statistics.
    pub fn stats(&self, key: &str, wide: bool) -> (r: Result<RegistryStats, RegistryError>)
        ensures
            match super::key::parse_key(key@) {
                Ok(k) => match r {
                    Ok(st) => stats_match(self@, key_id(k), wide, st),
                    Err(err) => !self@.contains_key(key_id(k)) && err.model() == missing_key_error(),
                },
                Err(e) => r matches Err(err) && err.model() == e,
            },
            well_formed_model(self@),
    {
        proof {
            use_type_invariant(self);
        }
        let key = RegistryKey::parse(key)?;
        self.stats_key(&key, wide)
    }

    /// Stores a value at `hive\path` under `value_name` (the default value
    /// for `None`), appending or overwriting as `mode` says.
    pub fn apply_value(
        &mut self,
        hive: RegistryHive,
        path: &[String],
        value_name: Option<&str>,
        value: RegistryValue,
        mode: RegistryMergeMode,
    )
        ensures
            ({
                let k = KeyModel {
                    hive,
                    path: string_views(path@),
                    value_name: match value_name {
                        Some(n) => Some(n@),
                        None => None,
                    },
                };
                final(self)@ == match mode {
                    RegistryMergeMode::Append => model_append(old(self)@, k, value.model()),
                    RegistryMergeMode::Overwrite => model_set(old(self)@, k, value.model()),
                }
            }),
            well_formed_model(final(self)@),
    {
        let mut p: Vec<String> = Vec::new();
        let mut i: usize = 0;
        while i < path.len()
            invariant
                i <= path.len(),
                string_views(p@) == string_views(path@).take(i as int),
            decreases path.len() - i,
        {
            let s = path[i].clone();
            let ghost old_p = p@;
            p.push(s);
            assert(string_views(p@) =~= string_views(old_p).push(s@));
            assert(string_views(path@)[i as int] == path@[i as int]@);
            assert(string_views(p@) =~= string_views(path@).take(i + 1));
            i = i + 1;
        }
        assert(string_views(path@).take(path.len() as int) =~= string_views(path@));
        let name = match value_name {
            Some(n) => Some(string_from(chars_of(n).as_slice())),
            None => None,
        };
        let key = RegistryKey { hive, path: p, value_name: name };
        match mode {
            RegistryMergeMode::Append => {
                let _ = self.append_key(&key, value);
            },
            RegistryMergeMode::Overwrite => {
                self.set_key(&key, value);
            },
        }
    }
}

impl Default for Registry {
    fn default() -> (r: Registry)
        ensures
            r@ == default_model(),
            well_formed_model(r@),
    {
        Registry::with_defaults()
    }
}

} // verus!
