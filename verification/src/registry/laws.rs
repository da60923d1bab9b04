//! Properties of the registry that span several operations, stated over
//! the model that `set_key`, `append_key`, `get_key` and `subkeys_key`
//! are specified against.

use vstd::prelude::*;

use super::key::{hive_of, hive_root_name, KeyModel, RegistryHive};
use super::store::{
    children, default_model, is_prefix_id, key_id, model_append, model_get, model_set, norm_name,
    norm_path, prefix_closed, with_key, RegistryModel,
};
use super::value::ValueModel;
use super::yaml::yaml_name;
use super::reg_file::value::{le_units, trim_nuls, utf16_text};
use crate::num::{lemma_utf16_round_trip, lemma_utf16_zeros, utf16_encode};
use crate::vm::windows::oleaut32::bstr::units_bytes;
use crate::text::{eq_ignore_case, is_ws, trim, trim_end, trim_start, upper_seq};

verus! {

/// A value reads back as it was set.
pub proof fn law_get_after_set(m: RegistryModel, k: KeyModel, v: ValueModel)
    ensures
        model_get(model_set(m, k, v), k) == Some(v),
{
}

/// Setting one value leaves every value stored under another name or
/// another key as it was.
pub proof fn law_set_keeps_others(m: RegistryModel, k: KeyModel, v: ValueModel, other: KeyModel)
    requires
        key_id(other) != key_id(k) || norm_name(other.value_name) != norm_name(k.value_name),
    ensures
        model_get(model_set(m, k, v), other) == model_get(m, other),
{
    let id = key_id(k);
    let oid = key_id(other);
    let n = norm_name(k.value_name);
    let on = norm_name(other.value_name);
    let w = with_key(m, id.0, id.1);
    let m1 = model_set(m, k, v);
    assert(id.1.take(id.1.len() as int) =~= id.1);
    if oid != id {
        assert(m1.contains_key(oid) == w.contains_key(oid));
        if m1.contains_key(oid) {
            assert(m1[oid] == w[oid]);
            if !m.contains_key(oid) {
                assert(w[oid] == Map::<Seq<char>, ValueModel>::empty());
            }
        }
    } else {
        assert(m1[id] == w[id].insert(n, v));
        assert(m1[id].contains_key(on) == w[id].contains_key(on));
        if !m.contains_key(id) {
            assert(w[id] == Map::<Seq<char>, ValueModel>::empty());
        } else {
            assert(w[id] == m[id]);
        }
    }
}

/// Setting the same value twice is the same as setting it once.
pub proof fn law_set_idempotent(m: RegistryModel, k: KeyModel, v: ValueModel)
    ensures
        model_set(model_set(m, k, v), k, v) == model_set(m, k, v),
{
    let id = key_id(k);
    let m1 = model_set(m, k, v);
    let w1 = with_key(m1, id.0, id.1);
    assert(w1 =~= m1);
    assert(w1[id].insert(norm_name(k.value_name), v) =~= m1[id]);
    assert(m1.insert(id, m1[id]) =~= m1);
}

/// Appending never replaces a value: where one is stored it stays, and
/// where none is the appended value is stored.
pub proof fn law_append_keeps_existing(m: RegistryModel, k: KeyModel, v: ValueModel)
    ensures
        model_get(m, k) is Some ==> model_get(model_append(m, k, v), k) == model_get(m, k),
        model_get(m, k) is None ==> model_get(model_append(m, k, v), k) == Some(v),
{
    let id = key_id(k);
    let w = with_key(m, id.0, id.1);
    if model_get(m, k) is Some {
        assert(w[id] == m[id]);
    }
}

/// Key paths and value names are compared without regard to ASCII case.
pub proof fn law_lookup_ignores_case(m: RegistryModel, k1: KeyModel, k2: KeyModel)
    requires
        k1.hive == k2.hive,
        k1.path.len() == k2.path.len(),
        forall|i: int| 0 <= i < k1.path.len() ==> eq_ignore_case(#[trigger] k1.path[i], k2.path[i]),
        k1.value_name is Some <==> k2.value_name is Some,
        k1.value_name is Some ==> eq_ignore_case(k1.value_name->0, k2.value_name->0),
    ensures
        model_get(m, k1) == model_get(m, k2),
{
    assert(norm_path(k1.path) =~= norm_path(k2.path)) by {
        assert forall|i: int| 0 <= i < k1.path.len() implies norm_path(k1.path)[i] == norm_path(k2.path)[i] by {
            assert(eq_ignore_case(k1.path[i], k2.path[i]));
        }
    }
    assert(norm_name(k1.value_name) == norm_name(k2.value_name));
}

/// Setting a value creates its key and every ancestor of it, and keeps a
/// registry in which every key's ancestors exist so.
pub proof fn law_set_creates_ancestors(m: RegistryModel, k: KeyModel, v: ValueModel)
    requires
        prefix_closed(m),
    ensures
        forall|j: int| 0 <= j <= k.path.len() ==>
            #[trigger] model_set(m, k, v).contains_key((k.hive, norm_path(k.path).take(j))),
        prefix_closed(model_set(m, k, v)),
{
    let id = key_id(k);
    let m1 = model_set(m, k, v);
    assert forall|j: int| 0 <= j <= k.path.len() implies #[trigger] m1.contains_key((k.hive, norm_path(k.path).take(j))) by {
        assert(is_prefix_id((k.hive, norm_path(k.path).take(j)), id.0, id.1));
    }
    assert forall|h, p: Seq<Seq<char>>, j: int| m1.contains_key((h, p)) && 0 <= j <= p.len() implies #[trigger] m1.contains_key((h, p.take(j))) by {
        if m.contains_key((h, p)) {
            assert(m.contains_key((h, p.take(j))));
        } else {
            assert(is_prefix_id((h, p), id.0, id.1)) by {
                if (h, p) == id {
                    assert(id.1.take(id.1.len() as int) =~= id.1);
                }
            }
            assert(p =~= id.1.take(p.len() as int));
            assert(p.take(j) =~= id.1.take(j));
            assert(is_prefix_id((h, p.take(j)), id.0, id.1));
        }
    }
}

/// Appending keeps a registry in which every key's ancestors exist.
pub proof fn law_append_keeps_ancestors(m: RegistryModel, k: KeyModel, v: ValueModel)
    requires
        prefix_closed(m),
    ensures
        prefix_closed(model_append(m, k, v)),
{
    law_set_creates_ancestors(m, k, v);
    let id = key_id(k);
    let w = with_key(m, id.0, id.1);
    assert forall|h, p: Seq<Seq<char>>, j: int| w.contains_key((h, p)) && 0 <= j <= p.len() implies #[trigger] w.contains_key((h, p.take(j))) by {
        if m.contains_key((h, p)) {
            assert(m.contains_key((h, p.take(j))));
        } else {
            assert(p.take(j) =~= id.1.take(j));
            assert(is_prefix_id((h, p.take(j)), id.0, id.1));
        }
    }
}

/// Once a value is set under a key, the key is listed among its parent's
/// subkeys, by its upper-cased name.
pub proof fn law_set_lists_subkey(m: RegistryModel, k: KeyModel, v: ValueModel)
    requires
        k.path.len() > 0,
    ensures
        children(model_set(m, k, v), (k.hive, norm_path(k.path.drop_last()))).contains(upper_seq(k.path.last())),
{
    let id = key_id(k);
    let parent = norm_path(k.path.drop_last());
    assert(parent.push(upper_seq(k.path.last())) =~= id.1);
    assert(id.1.take(id.1.len() as int) =~= id.1);
    assert(is_prefix_id(id, id.0, id.1));
}

/// A fresh registry is one in which every key's ancestors exist.
pub proof fn law_default_ancestors()
    ensures
        prefix_closed(default_model()),
{
    let sc = norm_path(seq!["Software"@, "Classes"@]);
    let d = default_model();
    let roots = with_key(
        with_key(
            with_key(
                with_key(with_key(Map::empty(), RegistryHive::ClassesRoot, Seq::empty()), RegistryHive::LocalMachine, Seq::empty()),
                RegistryHive::CurrentUser,
                Seq::empty(),
            ),
            RegistryHive::Users,
            Seq::empty(),
        ),
        RegistryHive::CurrentConfig,
        Seq::empty(),
    );
    assert forall|h, p: Seq<Seq<char>>| roots.contains_key((h, p)) implies p.len() == 0 by {}
    assert forall|h, p: Seq<Seq<char>>, j: int| d.contains_key((h, p)) && 0 <= j <= p.len() implies #[trigger] d.contains_key((h, p.take(j))) by {
        if roots.contains_key((h, p)) {
            assert(p.take(j) =~= p);
        } else if is_prefix_id((h, p), RegistryHive::LocalMachine, sc) {
            assert(p.take(j) =~= sc.take(j));
            assert(is_prefix_id((h, p.take(j)), RegistryHive::LocalMachine, sc));
        } else {
            assert(is_prefix_id((h, p), RegistryHive::CurrentUser, sc));
            assert(p.take(j) =~= sc.take(j));
            assert(is_prefix_id((h, p.take(j)), RegistryHive::CurrentUser, sc));
        }
    }
}

/// The short name of a hive.
pub open spec fn hive_short_name(h: RegistryHive) -> Seq<char> {
    match h {
        RegistryHive::ClassesRoot => "HKCR"@,
        RegistryHive::LocalMachine => "HKLM"@,
        RegistryHive::CurrentUser => "HKCU"@,
        RegistryHive::Users => "HKU"@,
        RegistryHive::CurrentConfig => "HKCC"@,
    }
}

/// A name without surrounding whitespace or lower-case letters is its own
/// trimmed, upper-cased form.
proof fn lemma_plain_name(s: Seq<char>)
    requires
        s.len() > 0,
        !is_ws(s[0]),
        !is_ws(s.last()),
        forall|i: int| 0 <= i < s.len() ==> !('a' <= #[trigger] s[i] <= 'z'),
    ensures
        upper_seq(trim(s)) == s,
{
    assert(trim_start(s) == s);
    assert(trim_end(s) == s);
    assert(upper_seq(s) =~= s);
}

/// Each hive's names name it: its full name (`root`) and its short name
/// parse to that hive and to no other.
pub proof fn law_hive_names(h: RegistryHive)
    ensures
        hive_of(hive_root_name(h)) == Some(h),
        hive_of(hive_short_name(h)) == Some(h),
{
    reveal_strlit("HKEY_CLASSES_ROOT");
    reveal_strlit("HKEY_LOCAL_MACHINE");
    reveal_strlit("HKEY_CURRENT_USER");
    reveal_strlit("HKEY_USERS");
    reveal_strlit("HKEY_CURRENT_CONFIG");
    reveal_strlit("HKCR");
    reveal_strlit("HKLM");
    reveal_strlit("HKCU");
    reveal_strlit("HKU");
    reveal_strlit("HKCC");
    lemma_plain_name(hive_root_name(h));
    lemma_plain_name(hive_short_name(h));
}

/// In a YAML document, a value key of `@` or of `(default)` in any ASCII
/// case names the key's default value; every other key names the value of
/// that name.
pub proof fn law_yaml_default_names(k: Seq<char>)
    ensures
        k == "@"@ || upper_seq(k) == "(DEFAULT)"@ ==> yaml_name(k) is None,
        k != "@"@ && upper_seq(k) != "(DEFAULT)"@ ==> yaml_name(k) == Some(k),
{
    reveal_strlit("(default)");
    reveal_strlit("(DEFAULT)");
    assert(upper_seq("(default)"@) =~= "(DEFAULT)"@);
}

/// Reading the little-endian bytes of units gives the units back.
proof fn lemma_le_units_bytes(u: Seq<u16>)
    ensures
        le_units(units_bytes(u)) == u,
{
    let b = units_bytes(u);
    assert forall|k: int| 0 <= k < u.len() implies #[trigger] le_units(b)[k] == u[k] by {
        assert(b[2 * k] == (u[k] % 256) as u8);
        assert(b[2 * k + 1] == (u[k] / 256) as u8);
    }
    assert(le_units(b) =~= u);
}

/// Trailing NULs come off a text without NULs of its own.
proof fn lemma_trim_nuls(s: Seq<char>, n: nat)
    requires
        forall|i: int| 0 <= i < s.len() ==> s[i] != '\0',
    ensures
        trim_nuls(s + Seq::new(n, |i: int| '\0')) == s,
    decreases n,
{
    let t = s + Seq::new(n, |i: int| '\0');
    if n == 0 {
        assert(t =~= s);
        if s.len() > 0 {
            assert(s.last() != '\0');
        }
    } else {
        assert(t.drop_last() =~= s + Seq::new((n - 1) as nat, |i: int| '\0'));
        lemma_trim_nuls(s, (n - 1) as nat);
    }
}

/// The text of a `hex(2)` (and `hex(7)`) value holds no terminators: the
/// UTF-16LE bytes of a text without NULs, followed by any number of zero
/// units, read as exactly that text.
pub proof fn law_utf16_text_drops_terminators(s: Seq<char>, n: nat)
    requires
        forall|i: int| 0 <= i < s.len() ==> s[i] != '\0',
    ensures
        utf16_text(units_bytes(utf16_encode(s) + Seq::new(n, |i: int| 0u16))) == s,
{
    let z = Seq::new(n, |i: int| 0u16);
    lemma_le_units_bytes(utf16_encode(s) + z);
    lemma_utf16_round_trip(s, z);
    lemma_utf16_zeros(n);
    lemma_trim_nuls(s, n);
}

} // verus!
