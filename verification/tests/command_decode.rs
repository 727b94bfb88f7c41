use mach_o_man::command::LoadCommand;
use mach_o_man::error::Error;
use mach_o_man::extractor::Endianness;
use mach_o_man::header::{CpuSubType, CpuType, Filetype, Header, Magic};

fn header_with(magic: Magic) -> Header {
    Header {
        magic,
        cputype: CpuType::X86,
        cpusubtype: CpuSubType::X86,
        filetype: Filetype::Execute,
        ncmds: 1,
        sizeofcmds: 0,
        flags: 0,
    }
}

fn put_u32(d: &mut Vec<u8>, little: bool, v: u32) {
    if little {
        d.extend_from_slice(&v.to_le_bytes());
    } else {
        d.extend_from_slice(&v.to_be_bytes());
    }
}

fn put_u64(d: &mut Vec<u8>, little: bool, v: u64) {
    if little {
        d.extend_from_slice(&v.to_le_bytes());
    } else {
        d.extend_from_slice(&v.to_be_bytes());
    }
}

fn name16(s: &str) -> [u8; 16] {
    let mut a = [0u8; 16];
    a[..s.len()].copy_from_slice(s.as_bytes());
    a
}

#[test]
fn position_equals_start_plus_declared_size() {
    // an unknown command at a nonzero start: afterwards the cursor is at
    // start + size, whatever the payload held
    let mut data = vec![0xee; 4]; // bytes before the record
    put_u32(&mut data, true, 0x99); // unrecognized tag
    put_u32(&mut data, true, 16); // declared size
    data.extend_from_slice(&[1, 2, 3, 4, 5, 6, 7, 8]);
    let h = header_with(Magic::LittleEndian);
    let mut pos = 4;
    let c = LoadCommand::from_reader(&h, &data, &mut pos).unwrap();
    assert!(matches!(c, LoadCommand::Unknown { .. }));
    assert_eq!(pos, 20);
}

#[test]
fn size_five_fails_on_32_bit() {
    let mut data = Vec::new();
    put_u32(&mut data, true, 0x1b);
    put_u32(&mut data, true, 5);
    data.extend_from_slice(&[0; 32]);
    let h = header_with(Magic::LittleEndian);
    let mut pos = 0;
    assert_eq!(
        LoadCommand::from_reader(&h, &data, &mut pos),
        Err(Error::InvalidLoadCommandSize(5))
    );
    assert_eq!(pos, 0);
}

#[test]
fn size_five_fails_on_64_bit() {
    let mut data = Vec::new();
    put_u32(&mut data, true, 0x1b);
    put_u32(&mut data, true, 5);
    data.extend_from_slice(&[0; 32]);
    let h = header_with(Magic::LittleEndian64);
    let mut pos = 0;
    assert_eq!(
        LoadCommand::from_reader(&h, &data, &mut pos),
        Err(Error::InvalidLoadCommandSize(5))
    );
}

#[test]
fn size_twelve_fails_on_64_bit() {
    let mut data = Vec::new();
    put_u32(&mut data, true, 0x99);
    put_u32(&mut data, true, 12);
    data.extend_from_slice(&[0; 8]);
    let h = header_with(Magic::LittleEndian64);
    let mut pos = 0;
    assert_eq!(
        LoadCommand::from_reader(&h, &data, &mut pos),
        Err(Error::InvalidLoadCommandSize(12))
    );
}

#[test]
fn size_twelve_succeeds_on_32_bit() {
    let mut data = Vec::new();
    put_u32(&mut data, true, 0x99);
    put_u32(&mut data, true, 12);
    data.extend_from_slice(&[0xab, 0xcd, 0xef, 0x01]);
    let h = header_with(Magic::LittleEndian);
    let mut pos = 0;
    let c = LoadCommand::from_reader(&h, &data, &mut pos).unwrap();
    assert_eq!(
        c,
        LoadCommand::Unknown { cmd: 0x99, data: vec![0xab, 0xcd, 0xef, 0x01] }
    );
    assert_eq!(pos, 12);
}

#[test]
fn unknown_preserves_tag_and_payload_and_reencodes() {
    let mut data = Vec::new();
    put_u32(&mut data, true, 0x4242);
    put_u32(&mut data, true, 16);
    data.extend_from_slice(&[0xde, 0xad, 0xbe, 0xef, 0x11, 0x22, 0x33, 0x44]);
    let h = header_with(Magic::LittleEndian);
    let mut pos = 0;
    let c = LoadCommand::from_reader(&h, &data, &mut pos).unwrap();
    match &c {
        LoadCommand::Unknown { cmd, data: payload } => {
            assert_eq!(*cmd, 0x4242);
            assert_eq!(payload, &vec![0xde, 0xad, 0xbe, 0xef, 0x11, 0x22, 0x33, 0x44]);
        }
        other => panic!("expected an unknown command, got {:?}", other),
    }
    // re-encoding the tag, size and payload reproduces the original bytes
    let encoded = c.encode(Endianness::Little).unwrap();
    assert_eq!(encoded, data);
}

#[test]
fn unknown_reencodes_big_endian() {
    let mut data = Vec::new();
    put_u32(&mut data, false, 0x12345678);
    put_u32(&mut data, false, 12);
    data.extend_from_slice(&[9, 9, 9, 9]);
    let h = header_with(Magic::BigEndian);
    let mut pos = 0;
    let c = LoadCommand::from_reader(&h, &data, &mut pos).unwrap();
    assert_eq!(c.encode(Endianness::Big).unwrap(), data);
}

#[test]
fn known_commands_do_not_encode() {
    let mut data = Vec::new();
    put_u32(&mut data, true, 0x1b); // UUID
    put_u32(&mut data, true, 24);
    data.extend_from_slice(&[7; 16]);
    let h = header_with(Magic::LittleEndian);
    let mut pos = 0;
    let c = LoadCommand::from_reader(&h, &data, &mut pos).unwrap();
    assert_eq!(c.encode(Endianness::Little), None);
}

#[test]
fn uuid_command_decodes() {
    let mut data = Vec::new();
    put_u32(&mut data, true, 0x1b);
    put_u32(&mut data, true, 24);
    let uuid: u128 = 0x000102030405060708090a0b0c0d0e0f;
    data.extend_from_slice(&uuid.to_le_bytes());
    let h = header_with(Magic::LittleEndian);
    let mut pos = 0;
    let c = LoadCommand::from_reader(&h, &data, &mut pos).unwrap();
    match c {
        LoadCommand::Uuid(u) => assert_eq!(u.uuid, uuid),
        other => panic!("expected a uuid command, got {:?}", other),
    }
    assert_eq!(pos, 24);
}

#[test]
fn symtab_command_decodes_with_trailing_padding() {
    // the declared size (32) exceeds the shape (24): the seek absorbs the
    // trailing bytes rather than leaving them for the next command
    let mut data = Vec::new();
    put_u32(&mut data, true, 0x2);
    put_u32(&mut data, true, 32);
    for v in [0x10, 0x20, 0x30, 0x40] {
        put_u32(&mut data, true, v);
    }
    data.extend_from_slice(&[0xff; 8]); // padding covered by the size
    let h = header_with(Magic::LittleEndian);
    let mut pos = 0;
    let c = LoadCommand::from_reader(&h, &data, &mut pos).unwrap();
    match c {
        LoadCommand::Symtab(s) => {
            assert_eq!(s.symoff, 0x10);
            assert_eq!(s.nsyms, 0x20);
            assert_eq!(s.stroff, 0x30);
            assert_eq!(s.strsize, 0x40);
        }
        other => panic!("expected a symtab command, got {:?}", other),
    }
    assert_eq!(pos, 32);
}

#[test]
fn symtab_command_big_endian() {
    let mut data = Vec::new();
    put_u32(&mut data, false, 0x2);
    put_u32(&mut data, false, 24);
    for v in [1, 2, 3, 4] {
        put_u32(&mut data, false, v);
    }
    let h = header_with(Magic::BigEndian);
    let mut pos = 0;
    match LoadCommand::from_reader(&h, &data, &mut pos).unwrap() {
        LoadCommand::Symtab(s) => {
            assert_eq!((s.symoff, s.nsyms, s.stroff, s.strsize), (1, 2, 3, 4));
        }
        other => panic!("expected a symtab command, got {:?}", other),
    }
}

#[test]
fn dysymtab_command_decodes() {
    let mut data = Vec::new();
    put_u32(&mut data, true, 0xb);
    put_u32(&mut data, true, 80);
    for v in 1..=18 {
        put_u32(&mut data, true, v * 10);
    }
    let h = header_with(Magic::LittleEndian);
    let mut pos = 0;
    match LoadCommand::from_reader(&h, &data, &mut pos).unwrap() {
        LoadCommand::Dysymtab(s) => {
            assert_eq!(s.ilocalsym, 10);
            assert_eq!(s.nlocalsym, 20);
            assert_eq!(s.iextdefsym, 30);
            assert_eq!(s.nextdefsym, 40);
            assert_eq!(s.iundefsym, 50);
            assert_eq!(s.nundefsym, 60);
            assert_eq!(s.tocoff, 70);
            assert_eq!(s.ntoc, 80);
            assert_eq!(s.modtaboff, 90);
            assert_eq!(s.nmodtab, 100);
            assert_eq!(s.extrefsymoff, 110);
            assert_eq!(s.nextrefsyms, 120);
            assert_eq!(s.indirectsymoff, 130);
            assert_eq!(s.nindirectsyms, 140);
            assert_eq!(s.extreloff, 150);
            assert_eq!(s.nextrel, 160);
            assert_eq!(s.locreloff, 170);
            assert_eq!(s.nlocrel, 180);
        }
        other => panic!("expected a dysymtab command, got {:?}", other),
    }
    assert_eq!(pos, 80);
}

#[test]
fn two_level_hints_command_decodes() {
    let mut data = Vec::new();
    put_u32(&mut data, true, 0x16);
    put_u32(&mut data, true, 16);
    put_u32(&mut data, true, 0x1000);
    put_u32(&mut data, true, 12);
    let h = header_with(Magic::LittleEndian);
    let mut pos = 0;
    match LoadCommand::from_reader(&h, &data, &mut pos).unwrap() {
        LoadCommand::TwoLevelHints(s) => {
            assert_eq!(s.offset, 0x1000);
            assert_eq!(s.nhints, 12);
        }
        other => panic!("expected a two-level hints command, got {:?}", other),
    }
}

#[test]
fn dyld_info_flavors_stay_distinct() {
    // two tags share one payload shape but keep distinct variants
    for (tag, only) in [(0x22u32, false), (0x80000022u32, true)] {
        let mut data = Vec::new();
        put_u32(&mut data, true, tag);
        put_u32(&mut data, true, 48);
        for v in 1..=10 {
            put_u32(&mut data, true, v);
        }
        let h = header_with(Magic::LittleEndian);
        let mut pos = 0;
        let c = LoadCommand::from_reader(&h, &data, &mut pos).unwrap();
        match (only, c) {
            (false, LoadCommand::DyldInfo(s)) | (true, LoadCommand::DyldInfoOnly(s)) => {
                assert_eq!(s.rebase_off, 1);
                assert_eq!(s.rebase_size, 2);
                assert_eq!(s.bind_off, 3);
                assert_eq!(s.bind_size, 4);
                assert_eq!(s.weak_bind_off, 5);
                assert_eq!(s.weak_bind_size, 6);
                assert_eq!(s.lazy_bind_off, 7);
                assert_eq!(s.lazy_bind_size, 8);
                assert_eq!(s.export_off, 9);
                assert_eq!(s.export_size, 10);
            }
            (_, other) => panic!("wrong variant for tag {:#x}: {:?}", tag, other),
        }
    }
}

#[test]
fn linkedit_data_family_stays_distinct() {
    let tags: [(u32, fn(&LoadCommand) -> bool); 6] = [
        (0x1d, |c| matches!(c, LoadCommand::CodeSignature(_))),
        (0x1e, |c| matches!(c, LoadCommand::SegmentSplitInfo(_))),
        (0x26, |c| matches!(c, LoadCommand::FunctionStarts(_))),
        (0x29, |c| matches!(c, LoadCommand::DataInCode(_))),
        (0x2b, |c| matches!(c, LoadCommand::DylibCodeSignDrs(_))),
        (0x2e, |c| matches!(c, LoadCommand::LinkerOptimizationHint(_))),
    ];
    for (tag, is_expected) in tags {
        let mut data = Vec::new();
        put_u32(&mut data, true, tag);
        put_u32(&mut data, true, 16);
        put_u32(&mut data, true, 0x8000);
        put_u32(&mut data, true, 0x40);
        let h = header_with(Magic::LittleEndian);
        let mut pos = 0;
        let c = LoadCommand::from_reader(&h, &data, &mut pos).unwrap();
        assert!(is_expected(&c), "tag {:#x} decoded to {:?}", tag, c);
        match c {
            LoadCommand::CodeSignature(s)
            | LoadCommand::SegmentSplitInfo(s)
            | LoadCommand::FunctionStarts(s)
            | LoadCommand::DataInCode(s)
            | LoadCommand::DylibCodeSignDrs(s)
            | LoadCommand::LinkerOptimizationHint(s) => {
                assert_eq!(s.dataoff, 0x8000);
                assert_eq!(s.datasize, 0x40);
            }
            other => panic!("unexpected variant {:?}", other),
        }
    }
}

#[test]
fn truncated_known_payload_is_io_failure() {
    let mut data = Vec::new();
    put_u32(&mut data, true, 0x1b); // UUID needs 16 payload bytes
    put_u32(&mut data, true, 24);
    data.extend_from_slice(&[0; 8]); // only 8 are there
    let h = header_with(Magic::LittleEndian);
    let mut pos = 0;
    assert_eq!(
        LoadCommand::from_reader(&h, &data, &mut pos),
        Err(Error::IoFailure)
    );
    assert_eq!(pos, 0);
}

#[test]
fn truncated_unknown_payload_is_io_failure() {
    let mut data = Vec::new();
    put_u32(&mut data, true, 0x99);
    put_u32(&mut data, true, 16);
    data.extend_from_slice(&[0; 4]); // size promises 8
    let h = header_with(Magic::LittleEndian);
    let mut pos = 0;
    assert_eq!(
        LoadCommand::from_reader(&h, &data, &mut pos),
        Err(Error::IoFailure)
    );
}

#[test]
fn segment_with_two_sections_in_order() {
    let little = true;
    let mut data = Vec::new();
    put_u32(&mut data, little, 0x1); // 32-bit segment
    put_u32(&mut data, little, 8 + 48 + 2 * 68);
    data.extend_from_slice(&name16("__TEXT"));
    for v in [0x1000, 0x2000, 0x100, 0x200, 7, 5] {
        put_u32(&mut data, little, v); // vmaddr..initprot
    }
    put_u32(&mut data, little, 2); // nsects
    put_u32(&mut data, little, 0); // flags
    for (i, sect) in ["__text", "__data"].iter().enumerate() {
        data.extend_from_slice(&name16(sect));
        data.extend_from_slice(&name16("__TEXT"));
        for v in [0x1000 + i as u32, 0x80, 0x400, 4, 0, 0, 0, 0, 0] {
            put_u32(&mut data, little, v);
        }
    }
    let h = header_with(Magic::LittleEndian);
    let mut pos = 0;
    match LoadCommand::from_reader(&h, &data, &mut pos).unwrap() {
        LoadCommand::Segment(seg) => {
            assert_eq!(seg.segname.as_str(), "__TEXT");
            assert_eq!(seg.vmaddr, 0x1000);
            assert_eq!(seg.vmsize, 0x2000);
            assert_eq!(seg.fileoff, 0x100);
            assert_eq!(seg.filesize, 0x200);
            assert_eq!(seg.maxprot, 7);
            assert_eq!(seg.initprot, 5);
            assert_eq!(seg.nsects, 2);
            assert_eq!(seg.sections.len(), 2);
            assert_eq!(seg.sections[0].sectname.as_str(), "__text");
            assert_eq!(seg.sections[0].addr, 0x1000);
            assert_eq!(seg.sections[1].sectname.as_str(), "__data");
            assert_eq!(seg.sections[1].addr, 0x1001);
            assert_eq!(seg.sections[0].segname.as_str(), "__TEXT");
        }
        other => panic!("expected a segment command, got {:?}", other),
    }
    assert_eq!(pos, (8 + 48 + 2 * 68) as usize);
}

#[test]
fn segment64_with_one_section() {
    let little = true;
    let mut data = Vec::new();
    put_u32(&mut data, little, 0x19); // 64-bit segment
    put_u32(&mut data, little, 8 + 64 + 80);
    data.extend_from_slice(&name16("__DATA"));
    for v in [0x100000000u64, 0x4000, 0x800, 0x900] {
        put_u64(&mut data, little, v);
    }
    for v in [3, 3] {
        put_u32(&mut data, little, v); // maxprot, initprot
    }
    put_u32(&mut data, little, 1); // nsects
    put_u32(&mut data, little, 9); // flags
    data.extend_from_slice(&name16("__bss"));
    data.extend_from_slice(&name16("__DATA"));
    put_u64(&mut data, little, 0x100001000);
    put_u64(&mut data, little, 0x2000);
    for v in [0x800, 3, 0, 0, 0, 1, 2, 3] {
        put_u32(&mut data, little, v);
    }
    let h = header_with(Magic::LittleEndian64);
    let mut pos = 0;
    match LoadCommand::from_reader(&h, &data, &mut pos).unwrap() {
        LoadCommand::Segment64(seg) => {
            assert_eq!(seg.segname.as_str(), "__DATA");
            assert_eq!(seg.vmaddr, 0x100000000);
            assert_eq!(seg.vmsize, 0x4000);
            assert_eq!(seg.fileoff, 0x800);
            assert_eq!(seg.filesize, 0x900);
            assert_eq!(seg.nsects, 1);
            assert_eq!(seg.flags, 9);
            assert_eq!(seg.sections.len(), 1);
            let s = &seg.sections[0];
            assert_eq!(s.sectname.as_str(), "__bss");
            assert_eq!(s.segname.as_str(), "__DATA");
            assert_eq!(s.addr, 0x100001000);
            assert_eq!(s.size, 0x2000);
            assert_eq!((s.reserved1, s.reserved2, s.reserved3), (1, 2, 3));
        }
        other => panic!("expected a 64-bit segment command, got {:?}", other),
    }
    assert_eq!(pos, (8 + 64 + 80) as usize);
}

#[test]
fn segment_nsects_trusted_over_size() {
    // the declared size covers only the fixed part, yet nsects = 1 makes
    // the decoder read one whole section past it; the final seek then
    // returns the cursor to start + size
    let little = true;
    let mut data = Vec::new();
    put_u32(&mut data, little, 0x1);
    put_u32(&mut data, little, 56); // 8 + 48: no room for sections
    data.extend_from_slice(&name16("__OVER"));
    for v in [0, 0, 0, 0, 0, 0] {
        put_u32(&mut data, little, v);
    }
    put_u32(&mut data, little, 1); // nsects, trusted as the loop bound
    put_u32(&mut data, little, 0);
    data.extend_from_slice(&name16("__sect"));
    data.extend_from_slice(&name16("__OVER"));
    for v in [0xaa, 0, 0, 0, 0, 0, 0, 0, 0] {
        put_u32(&mut data, little, v);
    }
    let h = header_with(Magic::LittleEndian);
    let mut pos = 0;
    match LoadCommand::from_reader(&h, &data, &mut pos).unwrap() {
        LoadCommand::Segment(seg) => {
            assert_eq!(seg.sections.len(), 1);
            assert_eq!(seg.sections[0].addr, 0xaa);
        }
        other => panic!("expected a segment command, got {:?}", other),
    }
    assert_eq!(pos, 56);
}

#[test]
fn segment_bad_section_name_fails() {
    let little = true;
    let mut data = Vec::new();
    put_u32(&mut data, little, 0x1);
    put_u32(&mut data, little, 8 + 48 + 68);
    data.extend_from_slice(&name16("__TEXT"));
    for v in [0, 0, 0, 0, 0, 0] {
        put_u32(&mut data, little, v);
    }
    put_u32(&mut data, little, 1);
    put_u32(&mut data, little, 0);
    let mut bad = name16("__text");
    bad[2] = 0xee; // not ASCII
    data.extend_from_slice(&bad);
    data.extend_from_slice(&name16("__TEXT"));
    for v in [0, 0, 0, 0, 0, 0, 0, 0, 0] {
        put_u32(&mut data, little, v);
    }
    let h = header_with(Magic::LittleEndian);
    let mut pos = 0;
    assert_eq!(
        LoadCommand::from_reader(&h, &data, &mut pos),
        Err(Error::InvalidFixedString)
    );
    assert_eq!(pos, 0);
}
