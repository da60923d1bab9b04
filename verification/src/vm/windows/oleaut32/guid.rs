//! GUIDs in the machine's memory, for interface lookups.

use vstd::prelude::*;

use crate::vm::windows::guid::{parse_guid, parse_guid_spec};
use crate::vm::{wrap_add, add32, in_range, u8_or0, Vm};

verus! {

/// The 16 bytes from `ptr` (the address wrapping around), where all lie in
/// memory.
pub open spec fn guid_at(vm: &Vm, ptr: u32) -> Option<Seq<u8>> {
    if forall|i: int| 0 <= i < 16 ==> #[trigger] in_range(vm, add32(ptr, i as u32) as int, 1) {
        Some(Seq::new(16, |i: int| u8_or0(vm, add32(ptr, i as u32) as int)))
    } else {
        None
    }
}

/// The 16 bytes from `ptr` (the address wrapping around), unreadable ones
/// as 0.
pub open spec fn guid_or0(vm: &Vm, ptr: u32) -> Seq<u8> {
    Seq::new(16, |i: int| u8_or0(vm, add32(ptr, i as u32) as int))
}

/// Reads the 16 bytes of a GUID.
pub fn read_guid_bytes(vm: &Vm, ptr: u32) -> (r: Option<Vec<u8>>)
    ensures
        match guid_at(vm, ptr) {
            Some(g) => r matches Some(b) && b@ == g,
            None => r is None,
        },
{
    let mut out: Vec<u8> = Vec::new();
    let mut i: u32 = 0;
    while i < 16
        invariant
            i <= 16,
            out@.len() == i,
            forall|j: int| 0 <= j < i ==> #[trigger] in_range(vm, add32(ptr, j as u32) as int, 1),
            forall|j: int| 0 <= j < i ==> #[trigger] out@[j] == u8_or0(vm, add32(ptr, j as u32) as int),
        decreases 16 - i,
    {
        match vm.read_u8(wrap_add(ptr, i)) {
            Ok(v) => out.push(v),
            Err(_) => {
                assert(!in_range(vm, add32(ptr, (i as int) as u32) as int, 1));
                return None;
            },
        }
        i = i + 1;
    }
    assert(out@ =~= Seq::new(16, |j: int| u8_or0(vm, add32(ptr, j as u32) as int)));
    assert(forall|j: int| 0 <= j < 16 ==> #[trigger] in_range(vm, add32(ptr, j as u32) as int, 1));
    Some(out)
}

/// Whether the 16 bytes at `ptr` (unreadable ones as 0) are the GUID that
/// `guid` writes; false where `guid` is no GUID.
pub fn guid_matches(vm: &Vm, ptr: u32, guid: &str) -> (r: bool)
    ensures
        r == match parse_guid_spec(guid@) {
            Some(g) => g == guid_or0(vm, ptr),
            None => false,
        },
{
    let expected = match parse_guid(guid) {
        Some(b) => b,
        None => return false,
    };
    let ghost actual = guid_or0(vm, ptr);
    let mut i: u32 = 0;
    while i < 16
        invariant
            i <= 16,
            expected@.len() == 16,
            actual == guid_or0(vm, ptr),
            parse_guid_spec(guid@) == Some(expected@),
            forall|j: int| 0 <= j < i ==> expected@[j] == #[trigger] actual[j],
        decreases 16 - i,
    {
        let v = match vm.read_u8(wrap_add(ptr, i)) {
            Ok(v) => v,
            Err(_) => 0,
        };
        if v != expected[i as usize] {
            assert(expected@[i as int] != actual[i as int]);
            assert(expected@ != actual);
            return false;
        }
        i = i + 1;
    }
    assert(expected@ =~= actual);
    true
}

} // verus!
