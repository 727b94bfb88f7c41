use mach_o_man::error::Error;
use mach_o_man::header::{CpuSubType, CpuType, Filetype, Header, Magic};

fn header_bytes(magic: u32, little: bool, wide: bool, fields: [u32; 6]) -> Vec<u8> {
    let mut d = Vec::new();
    // the magic itself is always read with a little-endian interpretation
    d.extend_from_slice(&magic.to_le_bytes());
    for f in fields {
        if little {
            d.extend_from_slice(&f.to_le_bytes());
        } else {
            d.extend_from_slice(&f.to_be_bytes());
        }
    }
    if wide {
        d.extend_from_slice(&[0xaa; 4]); // reserved field, not interpreted
    }
    d
}

#[test]
fn magic_selects_32_bit_little_endian() {
    let data = header_bytes(0xfeedface, true, false, [7, 3, 2, 0, 0, 0]);
    let mut pos = 0;
    let h = Header::from_reader(&data, &mut pos).unwrap();
    assert_eq!(h.magic, Magic::LittleEndian);
    assert!(h.is_32_bit() && !h.is_64_bit());
    assert!(h.is_little_endian() && !h.is_big_endian());
    assert_eq!(pos, 28);
}

#[test]
fn magic_selects_32_bit_big_endian() {
    let data = header_bytes(0xcefaedfe, false, false, [7, 3, 2, 0, 0, 0]);
    let mut pos = 0;
    let h = Header::from_reader(&data, &mut pos).unwrap();
    assert_eq!(h.magic, Magic::BigEndian);
    assert!(h.is_32_bit() && h.is_big_endian());
    assert_eq!(pos, 28);
}

#[test]
fn magic_selects_64_bit_little_endian() {
    let data = header_bytes(0xfeedfacf, true, true, [7, 3, 2, 0, 0, 0]);
    let mut pos = 0;
    let h = Header::from_reader(&data, &mut pos).unwrap();
    assert_eq!(h.magic, Magic::LittleEndian64);
    assert!(h.is_64_bit() && h.is_little_endian());
    assert_eq!(pos, 32); // the reserved field was skipped
}

#[test]
fn magic_selects_64_bit_big_endian() {
    let data = header_bytes(0xcffaedfe, false, true, [7, 3, 2, 0, 0, 0]);
    let mut pos = 0;
    let h = Header::from_reader(&data, &mut pos).unwrap();
    assert_eq!(h.magic, Magic::BigEndian64);
    assert!(h.is_64_bit() && h.is_big_endian());
    assert_eq!(pos, 32);
}

#[test]
fn bad_magic_carries_exact_value() {
    let data = header_bytes(0x12345678, true, false, [0, 0, 0, 0, 0, 0]);
    let mut pos = 0;
    assert_eq!(
        Header::from_reader(&data, &mut pos),
        Err(Error::InvalidMagic(0x12345678))
    );
    assert_eq!(pos, 0);
}

#[test]
fn truncated_magic_is_io_failure() {
    let data = vec![0xce, 0xfa];
    let mut pos = 0;
    assert_eq!(Header::from_reader(&data, &mut pos), Err(Error::IoFailure));
}

#[test]
fn truncated_header_body_is_io_failure() {
    let mut data = header_bytes(0xfeedface, true, false, [7, 3, 2, 0, 0, 0]);
    data.truncate(20);
    let mut pos = 0;
    assert_eq!(Header::from_reader(&data, &mut pos), Err(Error::IoFailure));
    assert_eq!(pos, 0);
}

#[test]
fn header_fields_little_endian() {
    let data = header_bytes(0xfeedface, true, false, [
        7,          // cputype: x86
        3,          // cpusubtype: x86 all
        2,          // filetype: execute
        5,          // ncmds
        123,        // sizeofcmds
        0xdeadbeef, // flags
    ]);
    let mut pos = 0;
    let h = Header::from_reader(&data, &mut pos).unwrap();
    assert_eq!(h.cputype, CpuType::X86);
    assert_eq!(h.cpusubtype, CpuSubType::X86);
    assert_eq!(h.filetype, Filetype::Execute);
    assert_eq!(h.ncmds, 5);
    assert_eq!(h.sizeofcmds, 123);
    assert_eq!(h.flags, 0xdeadbeef);
}

#[test]
fn header_fields_big_endian() {
    let data = header_bytes(0xcffaedfe, false, true, [
        0x01000007, // cputype: x86-64
        0x80000003, // cpusubtype: x86-64 all
        0x6,        // filetype: dylib
        1,
        64,
        0,
    ]);
    let mut pos = 0;
    let h = Header::from_reader(&data, &mut pos).unwrap();
    assert_eq!(h.cputype, CpuType::X86_64);
    assert_eq!(h.cpusubtype, CpuSubType::X86_64);
    assert_eq!(h.filetype, Filetype::Dylib);
    assert_eq!(h.ncmds, 1);
    assert_eq!(h.sizeofcmds, 64);
}

#[test]
fn unknown_codes_fall_back_verbatim() {
    let data = header_bytes(0xfeedface, true, false, [999, 777, 555, 0, 0, 0]);
    let mut pos = 0;
    let h = Header::from_reader(&data, &mut pos).unwrap();
    assert_eq!(h.cputype, CpuType::Unknown(999));
    assert_eq!(h.cpusubtype, CpuSubType::Unknown(777));
    assert_eq!(h.filetype, Filetype::Unknown(555));
}

#[test]
fn magic_maps_both_directions() {
    assert_eq!(Magic::from_u32(0xfeedface), Ok(Magic::LittleEndian));
    assert_eq!(Magic::from_u32(0xcefaedfe), Ok(Magic::BigEndian));
    assert_eq!(Magic::from_u32(0xfeedfacf), Ok(Magic::LittleEndian64));
    assert_eq!(Magic::from_u32(0xcffaedfe), Ok(Magic::BigEndian64));
    assert_eq!(Magic::from_u32(0), Err(Error::InvalidMagic(0)));
    assert_eq!(Magic::LittleEndian.to_u32(), 0xfeedface);
    assert_eq!(Magic::BigEndian.to_u32(), 0xcefaedfe);
    assert_eq!(Magic::LittleEndian64.to_u32(), 0xfeedfacf);
    assert_eq!(Magic::BigEndian64.to_u32(), 0xcffaedfe);
}

#[test]
fn cpu_type_maps_both_directions() {
    let cases = [
        (7, CpuType::X86),
        (0x01000007, CpuType::X86_64),
        (12, CpuType::Arm),
        (0x0100000c, CpuType::Arm64),
        (0x0200000c, CpuType::Arm64_32),
        (18, CpuType::PowerPC),
        (0x01000012, CpuType::PowerPC64),
        (42, CpuType::Unknown(42)),
    ];
    for (code, t) in cases {
        assert_eq!(CpuType::from_u32(code), t);
        assert_eq!(t.to_u32(), code);
    }
}

#[test]
fn cpu_sub_type_maps_both_directions() {
    let cases = [
        (0xffffffff, CpuSubType::Multiple),
        (3, CpuSubType::X86),
        (0x80000003, CpuSubType::X86_64),
        (9, CpuSubType::Unknown(9)),
    ];
    for (code, t) in cases {
        assert_eq!(CpuSubType::from_u32(code), t);
        assert_eq!(t.to_u32(), code);
    }
}

#[test]
fn filetype_maps_both_directions() {
    let cases = [
        (0x1, Filetype::Object),
        (0x2, Filetype::Execute),
        (0x3, Filetype::Fvmlib),
        (0x4, Filetype::Core),
        (0x5, Filetype::Preload),
        (0x6, Filetype::Dylib),
        (0x7, Filetype::Dylinker),
        (0x8, Filetype::Bundle),
        (0x9, Filetype::DylinkStub),
        (0xa, Filetype::Dsym),
        (0xb, Filetype::KextBundle),
        (0xc, Filetype::Unknown(0xc)),
    ];
    for (code, t) in cases {
        assert_eq!(Filetype::from_u32(code), t);
        assert_eq!(t.to_u32(), code);
    }
}
