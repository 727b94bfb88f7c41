use mach_o_man::command::NameString;
use mach_o_man::error::Error;
use mach_o_man::extractor::Extractor;

fn slot(bytes: &[u8]) -> Vec<u8> {
    let mut d = bytes.to_vec();
    while d.len() < 16 {
        d.push(0);
    }
    d
}

#[test]
fn name_text_decodes() {
    let data = slot(b"__TEXT");
    let mut e = Extractor::little_endian(0);
    let ns = NameString::parse(&data, &mut e).unwrap();
    assert_eq!(ns.as_str(), "__TEXT");
    assert_eq!(e.pos, 16);
}

#[test]
fn name_full_sixteen_bytes_without_nul() {
    let data = b"ABCDEFGHIJKLMNOP".to_vec();
    let mut e = Extractor::little_endian(0);
    let ns = NameString::parse(&data, &mut e).unwrap();
    assert_eq!(ns.as_str(), "ABCDEFGHIJKLMNOP");
}

#[test]
fn name_empty_slot_decodes_empty() {
    let data = vec![0u8; 16];
    let mut e = Extractor::big_endian(0);
    let ns = NameString::parse(&data, &mut e).unwrap();
    assert_eq!(ns.as_str(), "");
}

#[test]
fn name_bytes_after_nul_are_ignored() {
    let mut data = slot(b"OK");
    data[5] = 0xff; // junk after the terminator is never looked at
    let mut e = Extractor::little_endian(0);
    let ns = NameString::parse(&data, &mut e).unwrap();
    assert_eq!(ns.as_str(), "OK");
}

#[test]
fn name_short_input_is_io_failure() {
    let data = b"__TEXT".to_vec(); // only 6 bytes in the source
    let mut e = Extractor::little_endian(0);
    assert_eq!(NameString::parse(&data, &mut e), Err(Error::IoFailure));
    assert_eq!(e.pos, 0);
}

#[test]
fn name_non_ascii_byte_fails_decode() {
    let mut data = slot(b"bad");
    data[1] = 0xc3;
    let mut e = Extractor::little_endian(0);
    assert_eq!(
        NameString::parse(&data, &mut e),
        Err(Error::InvalidFixedString)
    );
    assert_eq!(e.pos, 0);
}

#[test]
fn name_from_string_round_trips() {
    let ns = NameString::from_string(String::from("__DATA")).unwrap();
    assert_eq!(ns.as_str(), "__DATA");
    assert_eq!(ns.to_string(), String::from("__DATA"));
}

#[test]
fn name_from_string_sixteen_bytes_is_accepted() {
    let ns = NameString::from_string(String::from("0123456789abcdef")).unwrap();
    assert_eq!(ns.as_str(), "0123456789abcdef");
}

#[test]
fn name_longer_than_sixteen_fails_encode() {
    assert_eq!(
        NameString::from_string(String::from("0123456789abcdefg")),
        Err(Error::InvalidFixedString)
    );
}

#[test]
fn name_non_ascii_fails_encode() {
    assert_eq!(
        NameString::from_string(String::from("caf\u{e9}")),
        Err(Error::InvalidFixedString)
    );
}
