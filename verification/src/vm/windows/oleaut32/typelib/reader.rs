//! Little-endian reads from a type library image, and its directory of
//! segments.

use vstd::prelude::*;

use crate::vm::{le16, le32, VmError};

verus! {

/// The byte at `off`, where the image has one.
pub open spec fn rd8(d: Seq<u8>, off: int) -> Option<u8> {
    if 0 <= off < d.len() {
        Some(d[off])
    } else {
        None
    }
}

/// The 16-bit value at `off`, where the image holds it.
pub open spec fn rd16(d: Seq<u8>, off: int) -> Option<u16> {
    if 0 <= off && off + 2 <= d.len() {
        Some(le16(d, off))
    } else {
        None
    }
}

/// The 32-bit value at `off`, where the image holds it.
pub open spec fn rd32(d: Seq<u8>, off: int) -> Option<u32> {
    if 0 <= off && off + 4 <= d.len() {
        Some(le32(d, off))
    } else {
        None
    }
}

/// A segment of the image: where it starts and how long it is
/// (`0xFFFFFFFF` as the offset of an absent segment).
#[derive(Debug, Clone, Copy, PartialEq, Eq, Structural)]
pub struct SegEntry {
    pub offset: u32,
    pub length: u32,
}

/// The segments that the parser uses.
#[derive(Debug, Clone, Copy, PartialEq, Eq, Structural)]
pub struct SegDir {
    pub typeinfo_tab: SegEntry,
    pub guid_tab: SegEntry,
    pub typdesc_tab: SegEntry,
}

/// The 12 directory entries at `off`, where the image holds them.
pub open spec fn seg_entries(d: Seq<u8>, off: int) -> Option<Seq<SegEntry>> {
    if 0 <= off && off + 96 <= d.len() {
        Some(Seq::new(12, |i: int| SegEntry { offset: le32(d, off + 8 * i), length: le32(d, off + 8 * i + 4) }))
    } else {
        None
    }
}

/// Whether an entry looks like the type description table: present, and
/// a multiple of 8 bytes that is no multiple of 16.
pub open spec fn typdesc_like(e: SegEntry) -> bool {
    e.offset != 0xFFFF_FFFF && e.length != 0 && e.length % 8 == 0 && e.length % 16 != 0
}

/// The first entry from `i` on that looks like the type description table.
pub open spec fn first_typdesc(es: Seq<SegEntry>, i: int) -> Option<SegEntry>
    decreases es.len() - i,
{
    if i < 0 || i >= es.len() {
        None
    } else if typdesc_like(es[i]) {
        Some(es[i])
    } else {
        first_typdesc(es, i + 1)
    }
}

/// Whether an entry could be the GUID table: present, a multiple of 16
/// bytes, and neither of the other two tables.
pub open spec fn guid_like(e: SegEntry, ti: SegEntry, td: SegEntry) -> bool {
    e.offset != 0xFFFF_FFFF && e.length != 0 && e.length % 16 == 0 && e != ti && e != td
}

/// The longest GUID-table candidate among the first `n` entries (the last
/// of equally long ones).
pub open spec fn longest_guid(es: Seq<SegEntry>, ti: SegEntry, td: SegEntry, n: int) -> Option<SegEntry>
    decreases n,
{
    if n <= 0 || n > es.len() {
        None
    } else {
        let best = longest_guid(es, ti, td, n - 1);
        let e = es[n - 1];
        if guid_like(e, ti, td) {
            match best {
                Some(b) => if e.length >= b.length { Some(e) } else { best },
                None => Some(e),
            }
        } else {
            best
        }
    }
}

/// The directory as the parser first reads it: the first entry holds the
/// type infos, the type descriptions are the first entry that looks so
/// (else the eleventh), the GUIDs the longest candidate (else the sixth).
pub open spec fn seg_dir(es: Seq<SegEntry>) -> SegDir {
    let ti = es[0];
    let td = match first_typdesc(es, 0) {
        Some(e) => e,
        None => es[10],
    };
    let gt = match longest_guid(es, ti, td, 12) {
        Some(e) => e,
        None => es[5],
    };
    SegDir { typeinfo_tab: ti, guid_tab: gt, typdesc_tab: td }
}

/// A type library image.
pub struct Reader<'a> {
    pub data: &'a [u8],
}

impl<'a> Reader<'a> {
    pub fn new(data: &'a [u8]) -> (r: Reader<'a>)
        ensures
            r.data@ == data@,
    {
        Reader { data }
    }

    pub fn read_u8(&self, offset: u64) -> (r: Result<u8, VmError>)
        ensures
            match rd8(self.data@, offset as int) {
                Some(v) => r == Ok::<u8, VmError>(v),
                None => r == Err::<u8, VmError>(VmError::MemoryOutOfRange),
            },
    {
        if offset < self.data.len() as u64 {
            Ok(self.data[offset as usize])
        } else {
            Err(VmError::MemoryOutOfRange)
        }
    }

    pub fn read_u16(&self, offset: u64) -> (r: Result<u16, VmError>)
        ensures
            match rd16(self.data@, offset as int) {
                Some(v) => r == Ok::<u16, VmError>(v),
                None => r == Err::<u16, VmError>(VmError::MemoryOutOfRange),
            },
    {
        let len = self.data.len() as u64;
        if offset > len || len - offset < 2 {
            return Err(VmError::MemoryOutOfRange);
        }
        let o = offset as usize;
        Ok(self.data[o] as u16 + 256 * (self.data[o + 1] as u16))
    }

    pub fn read_u32(&self, offset: u64) -> (r: Result<u32, VmError>)
        ensures
            match rd32(self.data@, offset as int) {
                Some(v) => r == Ok::<u32, VmError>(v),
                None => r == Err::<u32, VmError>(VmError::MemoryOutOfRange),
            },
    {
        let len = self.data.len() as u64;
        if offset > len || len - offset < 4 {
            return Err(VmError::MemoryOutOfRange);
        }
        let o = offset as usize;
        Ok(self.data[o] as u32 + 256 * (self.data[o + 1] as u32) + 65536 * (self.data[o + 2] as u32)
            + 16777216 * (self.data[o + 3] as u32))
    }

    pub fn read_i32(&self, offset: u64) -> (r: Result<i32, VmError>)
        ensures
            match rd32(self.data@, offset as int) {
                Some(v) => r == Ok::<i32, VmError>(v as i32),
                None => r == Err::<i32, VmError>(VmError::MemoryOutOfRange),
            },
    {
        Ok(self.read_u32(offset)? as i32)
    }
}

impl SegDir {
    /// Reads the 12 directory entries at `offset` and picks the tables.
    pub fn read(reader: &Reader, offset: u64) -> (r: Result<SegDir, VmError>)
        ensures
            match seg_entries(reader.data@, offset as int) {
                Some(es) => r == Ok::<SegDir, VmError>(seg_dir(es)),
                None => r == Err::<SegDir, VmError>(VmError::MemoryOutOfRange),
            },
    {
        let dlen = reader.data.len() as u64;
        if offset > dlen || dlen - offset < 96 {
            return Err(VmError::MemoryOutOfRange);
        }
        let ghost es = seg_entries(reader.data@, offset as int)->0;
        let mut entries: Vec<SegEntry> = Vec::new();
        let mut idx: u64 = 0;
        while idx < 12
            invariant
                dlen == reader.data@.len(),
                offset + 96 <= reader.data@.len(),
                es == seg_entries(reader.data@, offset as int)->0,
                idx <= 12,
                entries@ == es.take(idx as int),
            decreases 12 - idx,
        {
            let base = offset + idx * 8;
            let seg_offset = reader.read_u32(base)?;
            let seg_length = reader.read_u32(base + 4)?;
            entries.push(SegEntry { offset: seg_offset, length: seg_length });
            idx = idx + 1;
            assert(entries@ =~= es.take(idx as int));
        }
        assert(entries@ =~= es);
        let typeinfo_tab = entries[0];
        let mut typdesc_tab = entries[10];
        let mut found = false;
        let mut i: usize = 0;
        while i < 12
            invariant
                entries@ == es,
                es.len() == 12,
                i <= 12,
                found ==> first_typdesc(es, 0) == Some(typdesc_tab),
                !found ==> first_typdesc(es, 0) == first_typdesc(es, i as int) && typdesc_tab == es[10],
            decreases 12 - i,
        {
            let e = entries[i];
            assert(e == es[i as int]);
            if !found && e.offset != 0xFFFF_FFFF && e.length != 0 && e.length % 8 == 0 && e.length % 16 != 0 {
                typdesc_tab = e;
                found = true;
            }
            i = i + 1;
        }
        let mut guid_tab: Option<SegEntry> = None;
        let mut k: usize = 0;
        while k < 12
            invariant
                entries@ == es,
                es.len() == 12,
                k <= 12,
                guid_tab == longest_guid(es, typeinfo_tab, typdesc_tab, k as int),
            decreases 12 - k,
        {
            let e = entries[k];
            if e.offset != 0xFFFF_FFFF && e.length != 0 && e.length % 16 == 0 && e != typeinfo_tab && e != typdesc_tab {
                guid_tab = match guid_tab {
                    Some(b) => if e.length >= b.length { Some(e) } else { Some(b) },
                    None => Some(e),
                };
            }
            k = k + 1;
        }
        let guid_tab = match guid_tab {
            Some(e) => e,
            None => entries[5],
        };
        Ok(SegDir { typeinfo_tab, guid_tab, typdesc_tab })
    }
}

} // verus!
