use mach_o_man::command::LoadCommand;
use mach_o_man::error::Error;
use mach_o_man::header::{CpuType, Filetype, Magic};
use mach_o_man::MachO;

fn put_u32(d: &mut Vec<u8>, little: bool, v: u32) {
    if little {
        d.extend_from_slice(&v.to_le_bytes());
    } else {
        d.extend_from_slice(&v.to_be_bytes());
    }
}

fn header_64le(ncmds: u32, sizeofcmds: u32) -> Vec<u8> {
    let mut d = Vec::new();
    d.extend_from_slice(&0xfeedfacfu32.to_le_bytes());
    put_u32(&mut d, true, 0x01000007); // x86-64
    put_u32(&mut d, true, 0x80000003);
    put_u32(&mut d, true, 0x2); // execute
    put_u32(&mut d, true, ncmds);
    put_u32(&mut d, true, sizeofcmds);
    put_u32(&mut d, true, 0); // flags
    put_u32(&mut d, true, 0); // reserved
    d
}

#[test]
fn end_to_end_uuid_container() {
    // a minimal synthetic 64-bit little-endian container: one UUID command
    let mut data = header_64le(1, 24);
    put_u32(&mut data, true, 0x1b);
    put_u32(&mut data, true, 24);
    let uuid: u128 = 0xcafef00ddeadbeef0123456789abcdef;
    data.extend_from_slice(&uuid.to_le_bytes());
    let m = MachO::from_reader(&data).unwrap();
    assert_eq!(m.header.magic, Magic::LittleEndian64);
    assert_eq!(m.header.cputype, CpuType::X86_64);
    assert_eq!(m.header.filetype, Filetype::Execute);
    assert_eq!(m.header.ncmds, 1);
    assert_eq!(m.commands.len(), 1);
    match &m.commands[0] {
        LoadCommand::Uuid(u) => assert_eq!(u.uuid, uuid),
        other => panic!("expected a uuid command, got {:?}", other),
    }
}

#[test]
fn container_commands_keep_file_order() {
    let mut data = header_64le(2, 24 + 16);
    put_u32(&mut data, true, 0x1b);
    put_u32(&mut data, true, 24);
    data.extend_from_slice(&[0x11; 16]);
    put_u32(&mut data, true, 0x7777); // unknown tag follows the uuid
    put_u32(&mut data, true, 16);
    data.extend_from_slice(&[0x22; 8]);
    let m = MachO::from_reader(&data).unwrap();
    assert_eq!(m.commands.len(), 2);
    assert!(matches!(m.commands[0], LoadCommand::Uuid(_)));
    assert_eq!(
        m.commands[1],
        LoadCommand::Unknown { cmd: 0x7777, data: vec![0x22; 8] }
    );
}

#[test]
fn container_with_no_commands() {
    let data = header_64le(0, 0);
    let m = MachO::from_reader(&data).unwrap();
    assert_eq!(m.commands.len(), 0);
}

#[test]
fn first_bad_command_aborts_whole_decode() {
    let mut data = header_64le(2, 32);
    put_u32(&mut data, true, 0x99);
    put_u32(&mut data, true, 12); // 12 is not a multiple of 8
    data.extend_from_slice(&[0; 16]);
    assert_eq!(
        MachO::from_reader(&data),
        Err(Error::InvalidLoadCommandSize(12))
    );
}

#[test]
fn second_bad_command_aborts_whole_decode() {
    let mut data = header_64le(2, 16 + 8);
    put_u32(&mut data, true, 0x99);
    put_u32(&mut data, true, 16);
    data.extend_from_slice(&[0; 8]);
    put_u32(&mut data, true, 0x98);
    put_u32(&mut data, true, 5);
    assert_eq!(
        MachO::from_reader(&data),
        Err(Error::InvalidLoadCommandSize(5))
    );
}

#[test]
fn missing_command_is_io_failure() {
    // ncmds promises one command but none follows the header
    let data = header_64le(1, 0);
    assert_eq!(MachO::from_reader(&data), Err(Error::IoFailure));
}

#[test]
fn container_bad_magic() {
    let mut data = header_64le(0, 0);
    data[0] = 0x00;
    assert_eq!(MachO::from_reader(&data), Err(Error::InvalidMagic(0xfeedfa00)));
}

#[test]
fn big_endian_32_bit_container() {
    let mut data = Vec::new();
    data.extend_from_slice(&0xcefaedfeu32.to_le_bytes()); // selects 32-bit big-endian
    for v in [18u32, 0xffffffff, 0x1, 1, 16, 0] {
        put_u32(&mut data, false, v);
    }
    put_u32(&mut data, false, 0x5555); // unknown tag, big-endian
    put_u32(&mut data, false, 16);
    data.extend_from_slice(&[1, 2, 3, 4, 5, 6, 7, 8]);
    let m = MachO::from_reader(&data).unwrap();
    assert_eq!(m.header.magic, Magic::BigEndian);
    assert_eq!(m.header.cputype, CpuType::PowerPC);
    assert_eq!(m.header.filetype, Filetype::Object);
    assert_eq!(
        m.commands[0],
        LoadCommand::Unknown { cmd: 0x5555, data: vec![1, 2, 3, 4, 5, 6, 7, 8] }
    );
}

#[test]
fn trailing_bytes_after_commands_are_left_alone() {
    let mut data = header_64le(1, 16);
    put_u32(&mut data, true, 0x99);
    put_u32(&mut data, true, 16);
    data.extend_from_slice(&[0; 8]);
    data.extend_from_slice(&[0xfe; 100]); // not part of any command
    let m = MachO::from_reader(&data).unwrap();
    assert_eq!(m.commands.len(), 1);
}
