use pe_vm::vm::windows::oleaut32::typelib::parse::{parse_msft, try_parse_msft, ParseStop};
use pe_vm::vm::windows::oleaut32::typelib::resources::{ResourceDirectory, ResourceId, ResourceNode};
use pe_vm::vm::windows::oleaut32::typelib::{load_from_bytes, ParamDesc};
use pe_vm::vm::VmError;

fn put32(d: &mut Vec<u8>, off: usize, v: u32) {
    d[off..off + 4].copy_from_slice(&v.to_le_bytes());
}

fn put16(d: &mut Vec<u8>, off: usize, v: u16) {
    d[off..off + 2].copy_from_slice(&v.to_le_bytes());
}

/// A library with one dispatch type info holding one function
/// `HRESULT f([out, retval] long*)`.
fn sample_image(typdesc_data: u32) -> Vec<u8> {
    let mut d = vec![0u8; 0x430];
    d[0..4].copy_from_slice(b"MSFT");
    put32(&mut d, 0x08, 0);
    put32(&mut d, 0x14, 0);
    put32(&mut d, 0x20, 1);
    let segdir = 0x58;
    for i in 0..12 {
        put32(&mut d, segdir + 8 * i, 0xFFFF_FFFF);
        put32(&mut d, segdir + 8 * i + 4, 0);
    }
    put32(&mut d, segdir, 0xC0);
    put32(&mut d, segdir + 4, 0x64);
    put32(&mut d, segdir + 8 * 5, 0x200);
    put32(&mut d, segdir + 8 * 5 + 4, 0x20);
    put32(&mut d, segdir + 8 * 10, 0x300);
    put32(&mut d, segdir + 8 * 10 + 4, 8);
    for i in 0..32 {
        d[0x200 + i] = (i + 1) as u8;
    }
    put32(&mut d, 0x300, typdesc_data);
    put32(&mut d, 0x304, 0x1A);
    put32(&mut d, 0xC0, 4);
    put32(&mut d, 0xC4, 0x400);
    put32(&mut d, 0xC0 + 0x18, 1);
    put32(&mut d, 0xC0 + 0x2C, 0x10);
    put32(&mut d, 0xC0 + 0x30, 0x1000);
    put16(&mut d, 0xC0 + 0x4C, 1);
    put16(&mut d, 0xC0 + 0x4E, 28);
    put32(&mut d, 0x400, 0x24);
    put32(&mut d, 0x404, 0x24);
    put32(&mut d, 0x408, 0x8000_0019);
    put16(&mut d, 0x404 + 12, 0x1D);
    put32(&mut d, 0x404 + 16, (1 << 3) | (4 << 8));
    put16(&mut d, 0x404 + 20, 1);
    put32(&mut d, 0x41C, 0);
    put32(&mut d, 0x420, 0);
    put32(&mut d, 0x424, 0xA);
    put32(&mut d, 0x428, 0x6002_0000);
    d
}

#[test]
fn parses_sample_library() {
    let lib = parse_msft(&sample_image(0x8000_0003)).unwrap();
    assert_eq!(lib.guid.to_vec(), (1..=16).collect::<Vec<u8>>());
    assert_eq!(lib.typeinfos.len(), 1);
    let info = &lib.typeinfos[0];
    assert_eq!(info.typekind, 4);
    assert_eq!(info.c_funcs, 1);
    assert_eq!(info.c_vars, 0);
    assert_eq!(info.c_impl_types, 1);
    assert_eq!(info.cb_size_vft, 28);
    assert_eq!(info.flags, 0x1000);
    assert_eq!(info.guid.to_vec(), (17..=32).collect::<Vec<u8>>());
    let f = &info.funcs[0];
    assert_eq!(f.memid, 0x6002_0000);
    assert_eq!(f.invkind, 1);
    assert_eq!(f.callconv, 4);
    assert_eq!(f.vtable_offset, 0x1C);
    assert_eq!(f.ret_vt, 25);
    assert_eq!(f.params, vec![ParamDesc { vt: 0x4003, flags: 0xA }]);
}

#[test]
fn rejects_bad_signature_and_truncation() {
    let mut d = sample_image(0x8000_0003);
    d[0] = b'X';
    match parse_msft(&d) {
        Err(VmError::InvalidConfig(msg)) => assert_eq!(msg, "invalid MSFT signature"),
        other => panic!("unexpected {:?}", other.map(|_| ())),
    }
    let d = sample_image(0x8000_0003);
    assert!(matches!(parse_msft(&d[..0x300]), Err(VmError::MemoryOutOfRange)));
}

#[test]
fn pointer_cycle_is_reported() {
    assert!(matches!(try_parse_msft(&sample_image(0)), Err(ParseStop::Cycle)));
}

#[test]
fn load_from_bytes_paths() {
    let image = sample_image(0x8000_0003);
    assert!(load_from_bytes(&image, None).is_ok());
    let mut sltg = image.clone();
    sltg[0..4].copy_from_slice(b"SLTG");
    assert!(matches!(load_from_bytes(&sltg, None), Err(ParseStop::Error(VmError::InvalidConfig(_)))));
    let pe = vec![b'M', b'Z', 0, 0];
    assert!(load_from_bytes(&pe, None).is_err());
    let dir = ResourceDirectory {
        roots: vec![
            ResourceNode { id: ResourceId::Id(3), data: Some(vec![1, 2, 3]), children: vec![] },
            ResourceNode {
                id: ResourceId::Name("typelib".to_string()),
                data: None,
                children: vec![ResourceNode { id: ResourceId::Id(1), data: Some(image.clone()), children: vec![] }],
            },
        ],
    };
    let lib = match load_from_bytes(&pe, Some(&dir)) {
        Ok(lib) => lib,
        Err(_) => panic!("resource not loaded"),
    };
    assert_eq!(lib.typeinfos.len(), 1);
}
