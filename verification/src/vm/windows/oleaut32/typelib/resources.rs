//! Finding the type library among the resources of a PE image.

use vstd::prelude::*;

use crate::text::{chars_of, eq_ignore_ascii_case, eq_ignore_case};

verus! {

pub const TYPELIB_RESOURCE_ID: u32 = 6;

/// How a resource is identified: by number or by name.
pub enum ResourceId {
    Id(u32),
    Name(String),
}

/// A node of a resource tree: data at a leaf, children below.
pub struct ResourceNode {
    pub id: ResourceId,
    pub data: Option<Vec<u8>>,
    pub children: Vec<ResourceNode>,
}

/// The roots of an image's resource tree, one per resource type.
pub struct ResourceDirectory {
    pub roots: Vec<ResourceNode>,
}

/// Whether an id names the type library resource type: number 6 or the
/// name `TYPELIB` in any case.
pub open spec fn is_typelib_id(id: ResourceId) -> bool {
    match id {
        ResourceId::Id(v) => v == TYPELIB_RESOURCE_ID,
        ResourceId::Name(n) => eq_ignore_case(n@, "TYPELIB"@),
    }
}

pub fn matches_typelib_id(id: &ResourceId) -> (r: bool)
    ensures
        r == is_typelib_id(*id),
{
    match id {
        ResourceId::Id(value) => *value == TYPELIB_RESOURCE_ID,
        ResourceId::Name(name) => {
            let cs = chars_of(name.as_str());
            let t = chars_of("TYPELIB");
            eq_ignore_ascii_case(cs.as_slice(), t.as_slice())
        },
    }
}

/// The first data in a tree, the node's own before its children's, in order.
pub open spec fn first_data(n: ResourceNode) -> Option<Seq<u8>>
    decreases n, 1nat,
{
    match n.data {
        Some(d) => Some(d@),
        None => first_data_in(n.children@, 0),
    }
}

/// The first data in the trees `ns[i..]`.
pub open spec fn first_data_in(ns: Seq<ResourceNode>, i: int) -> Option<Seq<u8>>
    decreases ns, 0nat, ns.len() - i,
{
    if i < 0 || i >= ns.len() {
        None
    } else {
        match first_data(ns[i]) {
            Some(d) => Some(d),
            None => first_data_in(ns, i + 1),
        }
    }
}

/// The first data under a node.
pub fn find_first_resource(node: &ResourceNode) -> (r: Option<&Vec<u8>>)
    ensures
        match r {
            Some(d) => first_data(*node) == Some(d@),
            None => first_data(*node) is None,
        },
    decreases node,
{
    if let Some(data) = &node.data {
        return Some(data);
    }
    let mut i: usize = 0;
    while i < node.children.len()
        invariant
            node.data is None,
            i <= node.children@.len(),
            first_data(*node) == first_data_in(node.children@, i as int),
        decreases node.children.len() - i,
    {
        assert(decreases_to!(*node => node.children@[i as int]));
        if let Some(data) = find_first_resource(&node.children[i]) {
            return Some(data);
        }
        i = i + 1;
    }
    None
}

/// The first type library resource data of an image: under the first root
/// that names the type library resource type.
pub open spec fn typelib_resource(dir: ResourceDirectory) -> Option<Seq<u8>> {
    let rs = dir.roots@;
    if exists|i: int| 0 <= i < rs.len() && is_typelib_id(#[trigger] rs[i].id) {
        let i = choose|i: int| 0 <= i < rs.len() && is_typelib_id(#[trigger] rs[i].id)
            && forall|j: int| 0 <= j < i ==> !is_typelib_id(#[trigger] rs[j].id);
        first_data(rs[i])
    } else {
        None
    }
}

/// The type library resource of an image.
pub fn find_typelib_resource(dir: &ResourceDirectory) -> (r: Option<&Vec<u8>>)
    ensures
        match r {
            Some(d) => typelib_resource(*dir) == Some(d@),
            None => typelib_resource(*dir) is None,
        },
{
    let mut i: usize = 0;
    while i < dir.roots.len()
        invariant
            i <= dir.roots@.len(),
            forall|j: int| 0 <= j < i ==> !is_typelib_id(#[trigger] dir.roots@[j].id),
        decreases dir.roots.len() - i,
    {
        if matches_typelib_id(&dir.roots[i].id) {
            let ghost k = i as int;
            proof {
                let rs = dir.roots@;
                let c = choose|c: int| 0 <= c < rs.len() && is_typelib_id(#[trigger] rs[c].id)
                    && forall|j: int| 0 <= j < c ==> !is_typelib_id(#[trigger] rs[j].id);
                assert(0 <= k < rs.len() && is_typelib_id(rs[k].id) && forall|j: int| 0 <= j < k ==> !is_typelib_id(#[trigger] rs[j].id));
                if c < k {
                    assert(!is_typelib_id(rs[c].id));
                }
                if k < c {
                    assert(!is_typelib_id(rs[k].id));
                }
                assert(c == k);
            }
            return find_first_resource(&dir.roots[i]);
        }
        i = i + 1;
    }
    None
}

} // verus!
