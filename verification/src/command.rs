use crate::constants;
use crate::error::Error;
use crate::extractor::{spec_u32_bytes, u128_at, u32_at, u64_at, Endianness, Extractor};
use crate::header::{endian_of, is_64bit, Header};
use vstd::prelude::*;

verus! {

// ---------------------------------------------------------------------------
// Fixed 16-byte name slots
// ---------------------------------------------------------------------------
/// Index of the first NUL byte of `b`, or `b.len()` if there is none.
pub open spec fn nul_index(b: Seq<u8>) -> int
    decreases b.len(),
{
    if b.len() == 0 {
        0
    } else if b.first() == 0 {
        0
    } else {
        1 + nul_index(b.drop_first())
    }
}

/// A position before which no byte is NUL, and which holds a NUL or is the
/// end, is exactly where the first NUL search stops.
pub proof fn lemma_nul_index_is(b: Seq<u8>, i: int)
    requires
        0 <= i <= b.len(),
        forall|j: int| 0 <= j < i ==> b[j] != 0,
        i < b.len() ==> b[i] == 0,
    ensures
        nul_index(b) == i,
    decreases i,
{
    if i > 0 {
        assert(b[0] != 0);
        assert forall|j: int| 0 <= j < i - 1 implies b.drop_first()[j] != 0 by {
            assert(b.drop_first()[j] == b[j + 1]);
        }
        if i - 1 < b.drop_first().len() {
            assert(b.drop_first()[i - 1] == b[i]);
        }
        lemma_nul_index_is(b.drop_first(), i - 1);
    }
}

/// The text a 16-byte name slot denotes: its bytes up to the first NUL,
/// each read as one character.
pub open spec fn name_chars(b: Seq<u8>) -> Seq<char> {
    Seq::new(nul_index(b) as nat, |i: int| b[i] as char)
}

/// Whether the slot holds plain text: every byte before the first NUL is
/// ASCII.
pub open spec fn name_ok(b: Seq<u8>) -> bool {
    forall|i: int| 0 <= i < nul_index(b) ==> b[i] < 128
}

/// The first failure, if any, of decoding the 16-byte name slot at `p`.
pub open spec fn spec_name_err(d: Seq<u8>, p: int) -> Option<Error> {
    if p + 16 > d.len() {
        Some(Error::IoFailure)
    } else if !name_ok(d.subrange(p, p + 16)) {
        Some(Error::InvalidFixedString)
    } else {
        None
    }
}

/// Relies on `String::from_utf8`: ASCII bytes are valid UTF-8 and decode
/// one-to-one to the characters with the same code points.
#[verifier::external_body]
fn string_from_ascii(v: Vec<u8>) -> (r: String)
    requires
        forall|i: int| 0 <= i < v@.len() ==> v@[i] < 128,
    ensures
        r@.len() == v@.len(),
        forall|i: int| 0 <= i < v@.len() ==> r@[i] == v@[i] as char,
{
    match String::from_utf8(v) {
        Ok(s) => s,
        Err(_) => String::new(),
    }
}

/// A fixed 16-byte on-disk slot interpreted as a NUL-terminated ASCII
/// string.
#[derive(Debug, PartialEq, Eq)]
pub struct NameString {
    name: String,
}

impl View for NameString {
    type V = Seq<char>;

    closed spec fn view(&self) -> Seq<char> {
        self.name@
    }
}

impl NameString {
    /// The owned text of the name.
    pub fn to_string(self) -> (r: String)
        ensures
            r@ == self@,
    {
        self.name
    }

    /// The text of the name, borrowed.
    pub fn as_str(&self) -> (r: &str)
        ensures
            r@ == self@,
    {
        self.name.as_str()
    }

    /// Decode the 16-byte name slot at the cursor. On failure the cursor
    /// does not move.
    #[verifier::loop_isolation(false)]
    pub fn parse(data: &Vec<u8>, e: &mut Extractor) -> (r: Result<NameString, Error>)
        ensures
            final(e).endianness == old(e).endianness,
            match r {
                Ok(ns) => {
                    &&& spec_name_err(data@, old(e).pos as int) == None::<Error>
                    &&& ns@ == name_chars(data@.subrange(old(e).pos as int, old(e).pos + 16))
                    &&& final(e).pos == old(e).pos + 16
                },
                Err(er) => {
                    &&& Some(er) == spec_name_err(data@, old(e).pos as int)
                    &&& *final(e) == *old(e)
                },
            },
    {
        let len = data.len();
        if e.pos > len || 16 > len - e.pos {
            return Err(Error::IoFailure);
        }
        let base = e.pos;
        let ghost field = data@.subrange(base as int, base as int + 16);
        let mut k: usize = 0;
        while k < 16 && data[base + k] != 0
            invariant
                k <= 16,
                len == data@.len(),
                base + 16 <= len,
                field == data@.subrange(base as int, base as int + 16),
                forall|j: int| 0 <= j < k ==> field[j] != 0,
            decreases 16 - k,
        {
            k = k + 1;
        }
        proof {
            lemma_nul_index_is(field, k as int);
        }
        let mut prefix: Vec<u8> = Vec::new();
        let mut i: usize = 0;
        while i < k
            invariant
                i <= k,
                k <= 16,
                len == data@.len(),
                base + 16 <= len,
                field == data@.subrange(base as int, base as int + 16),
                nul_index(field) == k,
                prefix@.len() == i,
                forall|j: int| 0 <= j < i ==> prefix@[j] == field[j] && field[j] < 128,
            decreases k - i,
        {
            let b = data[base + i];
            if b >= 128 {
                proof {
                    assert(!name_ok(field)) by {
                        assert(0 <= i < nul_index(field) && field[i as int] >= 128);
                    }
                }
                return Err(Error::InvalidFixedString);
            }
            prefix.push(b);
            i = i + 1;
        }
        proof {
            assert forall|j: int| 0 <= j < prefix@.len() implies prefix@[j] < 128 by {
                assert(prefix@[j] == field[j]);
            }
        }
        let name = string_from_ascii(prefix);
        proof {
            assert forall|j: int| 0 <= j < nul_index(field) implies field[j] < 128 by {
                assert(prefix@[j] == field[j]);
            }
            assert(name_ok(field));
            assert(name@ =~= name_chars(field));
        }
        e.pos = base + 16;
        Ok(NameString { name })
    }

    /// Encode logical text into a name: fails if the text exceeds 16 bytes
    /// or contains a non-ASCII character.
    pub fn from_string(name: String) -> (r: Result<NameString, Error>)
        ensures
            match r {
                Ok(ns) => {
                    &&& vstd::utf8::is_ascii_chars(name@)
                    &&& name@.len() <= 16
                    &&& ns@ == name@
                },
                Err(er) => {
                    &&& er == Error::InvalidFixedString
                    &&& !(vstd::utf8::is_ascii_chars(name@) && name@.len() <= 16)
                },
            },
    {
        let s: &str = name.as_str();
        if !s.is_ascii() {
            return Err(Error::InvalidFixedString);
        }
        let bytes: &[u8] = s.as_bytes();
        proof {
            vstd::slice::axiom_spec_len(bytes);
            vstd::string::is_ascii_spec_bytes(s);
        }
        if bytes.len() > 16 {
            return Err(Error::InvalidFixedString);
        }
        Ok(NameString { name })
    }
}

// ---------------------------------------------------------------------------
// Fixed-shape records
// ---------------------------------------------------------------------------
/// Payload of a UUID command: 16 raw bytes read as one 128-bit field.
#[derive(Debug, PartialEq, Eq, Structural)]
pub struct UuidCommand {
    pub uuid: u128,
}

pub open spec fn uuid_matches(en: Endianness, d: Seq<u8>, p: int, c: UuidCommand) -> bool {
    c.uuid == u128_at(en, d, p)
}

impl UuidCommand {
    pub fn parse(data: &Vec<u8>, e: &mut Extractor) -> (r: Result<UuidCommand, Error>)
        ensures
            final(e).endianness == old(e).endianness,
            match r {
                Ok(c) => {
                    &&& old(e).pos + 16 <= data@.len()
                    &&& uuid_matches(old(e).endianness, data@, old(e).pos as int, c)
                    &&& final(e).pos == old(e).pos + 16
                },
                Err(er) => {
                    &&& er == Error::IoFailure
                    &&& old(e).pos + 16 > data@.len()
                },
            },
    {
        let uuid = match e.read_u128(data) {
            Ok(v) => v,
            Err(er) => { return Err(er) },
        };
        Ok(UuidCommand { uuid })
    }
}

/// Payload of a symbol-table command.
#[derive(Debug, PartialEq, Eq, Structural)]
pub struct SymtabCommand {
    pub symoff: u32,
    pub nsyms: u32,
    pub stroff: u32,
    pub strsize: u32,
}

pub open spec fn symtab_matches(en: Endianness, d: Seq<u8>, p: int, c: SymtabCommand) -> bool {
    &&& c.symoff == u32_at(en, d, p)
    &&& c.nsyms == u32_at(en, d, p + 4)
    &&& c.stroff == u32_at(en, d, p + 8)
    &&& c.strsize == u32_at(en, d, p + 12)
}

impl SymtabCommand {
    pub fn parse(data: &Vec<u8>, e: &mut Extractor) -> (r: Result<SymtabCommand, Error>)
        ensures
            final(e).endianness == old(e).endianness,
            match r {
                Ok(c) => {
                    &&& old(e).pos + 16 <= data@.len()
                    &&& symtab_matches(old(e).endianness, data@, old(e).pos as int, c)
                    &&& final(e).pos == old(e).pos + 16
                },
                Err(er) => {
                    &&& er == Error::IoFailure
                    &&& old(e).pos + 16 > data@.len()
                },
            },
    {
        let symoff = match e.read_u32(data) {
            Ok(v) => v,
            Err(er) => { return Err(er) },
        };
        let nsyms = match e.read_u32(data) {
            Ok(v) => v,
            Err(er) => { return Err(er) },
        };
        let stroff = match e.read_u32(data) {
            Ok(v) => v,
            Err(er) => { return Err(er) },
        };
        let strsize = match e.read_u32(data) {
            Ok(v) => v,
            Err(er) => { return Err(er) },
        };
        Ok(SymtabCommand { symoff, nsyms, stroff, strsize })
    }
}

/// Payload of a dynamic symbol-table command.
#[derive(Debug, PartialEq, Eq, Structural)]
pub struct DysymtabCommand {
    pub ilocalsym: u32,
    pub nlocalsym: u32,
    pub iextdefsym: u32,
    pub nextdefsym: u32,
    pub iundefsym: u32,
    pub nundefsym: u32,
    pub tocoff: u32,
    pub ntoc: u32,
    pub modtaboff: u32,
    pub nmodtab: u32,
    pub extrefsymoff: u32,
    pub nextrefsyms: u32,
    pub indirectsymoff: u32,
    pub nindirectsyms: u32,
    pub extreloff: u32,
    pub nextrel: u32,
    pub locreloff: u32,
    pub nlocrel: u32,
}

pub open spec fn dysymtab_matches(en: Endianness, d: Seq<u8>, p: int, c: DysymtabCommand) -> bool {
    &&& c.ilocalsym == u32_at(en, d, p)
    &&& c.nlocalsym == u32_at(en, d, p + 4)
    &&& c.iextdefsym == u32_at(en, d, p + 8)
    &&& c.nextdefsym == u32_at(en, d, p + 12)
    &&& c.iundefsym == u32_at(en, d, p + 16)
    &&& c.nundefsym == u32_at(en, d, p + 20)
    &&& c.tocoff == u32_at(en, d, p + 24)
    &&& c.ntoc == u32_at(en, d, p + 28)
    &&& c.modtaboff == u32_at(en, d, p + 32)
    &&& c.nmodtab == u32_at(en, d, p + 36)
    &&& c.extrefsymoff == u32_at(en, d, p + 40)
    &&& c.nextrefsyms == u32_at(en, d, p + 44)
    &&& c.indirectsymoff == u32_at(en, d, p + 48)
    &&& c.nindirectsyms == u32_at(en, d, p + 52)
    &&& c.extreloff == u32_at(en, d, p + 56)
    &&& c.nextrel == u32_at(en, d, p + 60)
    &&& c.locreloff == u32_at(en, d, p + 64)
    &&& c.nlocrel == u32_at(en, d, p + 68)
}

impl DysymtabCommand {
    pub fn parse(data: &Vec<u8>, e: &mut Extractor) -> (r: Result<DysymtabCommand, Error>)
        ensures
            final(e).endianness == old(e).endianness,
            match r {
                Ok(c) => {
                    &&& old(e).pos + 72 <= data@.len()
                    &&& dysymtab_matches(old(e).endianness, data@, old(e).pos as int, c)
                    &&& final(e).pos == old(e).pos + 72
                },
                Err(er) => {
                    &&& er == Error::IoFailure
                    &&& old(e).pos + 72 > data@.len()
                },
            },
    {
        let ilocalsym = match e.read_u32(data) {
            Ok(v) => v,
            Err(er) => { return Err(er) },
        };
        let nlocalsym = match e.read_u32(data) {
            Ok(v) => v,
            Err(er) => { return Err(er) },
        };
        let iextdefsym = match e.read_u32(data) {
            Ok(v) => v,
            Err(er) => { return Err(er) },
        };
        let nextdefsym = match e.read_u32(data) {
            Ok(v) => v,
            Err(er) => { return Err(er) },
        };
        let iundefsym = match e.read_u32(data) {
            Ok(v) => v,
            Err(er) => { return Err(er) },
        };
        let nundefsym = match e.read_u32(data) {
            Ok(v) => v,
            Err(er) => { return Err(er) },
        };
        let tocoff = match e.read_u32(data) {
            Ok(v) => v,
            Err(er) => { return Err(er) },
        };
        let ntoc = match e.read_u32(data) {
            Ok(v) => v,
            Err(er) => { return Err(er) },
        };
        let modtaboff = match e.read_u32(data) {
            Ok(v) => v,
            Err(er) => { return Err(er) },
        };
        let nmodtab = match e.read_u32(data) {
            Ok(v) => v,
            Err(er) => { return Err(er) },
        };
        let extrefsymoff = match e.read_u32(data) {
            Ok(v) => v,
            Err(er) => { return Err(er) },
        };
        let nextrefsyms = match e.read_u32(data) {
            Ok(v) => v,
            Err(er) => { return Err(er) },
        };
        let indirectsymoff = match e.read_u32(data) {
            Ok(v) => v,
            Err(er) => { return Err(er) },
        };
        let nindirectsyms = match e.read_u32(data) {
            Ok(v) => v,
            Err(er) => { return Err(er) },
        };
        let extreloff = match e.read_u32(data) {
            Ok(v) => v,
            Err(er) => { return Err(er) },
        };
        let nextrel = match e.read_u32(data) {
            Ok(v) => v,
            Err(er) => { return Err(er) },
        };
        let locreloff = match e.read_u32(data) {
            Ok(v) => v,
            Err(er) => { return Err(er) },
        };
        let nlocrel = match e.read_u32(data) {
            Ok(v) => v,
            Err(er) => { return Err(er) },
        };
        Ok(DysymtabCommand {
            ilocalsym,
            nlocalsym,
            iextdefsym,
            nextdefsym,
            iundefsym,
            nundefsym,
            tocoff,
            ntoc,
            modtaboff,
            nmodtab,
            extrefsymoff,
            nextrefsyms,
            indirectsymoff,
            nindirectsyms,
            extreloff,
            nextrel,
            locreloff,
            nlocrel,
        })
    }
}

/// Payload of a two-level namespace hints command.
#[derive(Debug, PartialEq, Eq, Structural)]
pub struct TwoLevelHintsCommand {
    pub offset: u32,
    pub nhints: u32,
}

pub open spec fn two_level_hints_matches(
    en: Endianness,
    d: Seq<u8>,
    p: int,
    c: TwoLevelHintsCommand,
) -> bool {
    &&& c.offset == u32_at(en, d, p)
    &&& c.nhints == u32_at(en, d, p + 4)
}

impl TwoLevelHintsCommand {
    pub fn parse(data: &Vec<u8>, e: &mut Extractor) -> (r: Result<TwoLevelHintsCommand, Error>)
        ensures
            final(e).endianness == old(e).endianness,
            match r {
                Ok(c) => {
                    &&& old(e).pos + 8 <= data@.len()
                    &&& two_level_hints_matches(old(e).endianness, data@, old(e).pos as int, c)
                    &&& final(e).pos == old(e).pos + 8
                },
                Err(er) => {
                    &&& er == Error::IoFailure
                    &&& old(e).pos + 8 > data@.len()
                },
            },
    {
        let offset = match e.read_u32(data) {
            Ok(v) => v,
            Err(er) => { return Err(er) },
        };
        let nhints = match e.read_u32(data) {
            Ok(v) => v,
            Err(er) => { return Err(er) },
        };
        Ok(TwoLevelHintsCommand { offset, nhints })
    }
}

/// Payload of a dyld rebase/bind/export information command.
#[derive(Debug, PartialEq, Eq, Structural)]
pub struct DyldInfoCommand {
    pub rebase_off: u32,
    pub rebase_size: u32,
    pub bind_off: u32,
    pub bind_size: u32,
    pub weak_bind_off: u32,
    pub weak_bind_size: u32,
    pub lazy_bind_off: u32,
    pub lazy_bind_size: u32,
    pub export_off: u32,
    pub export_size: u32,
}

pub open spec fn dyld_info_matches(en: Endianness, d: Seq<u8>, p: int, c: DyldInfoCommand) -> bool {
    &&& c.rebase_off == u32_at(en, d, p)
    &&& c.rebase_size == u32_at(en, d, p + 4)
    &&& c.bind_off == u32_at(en, d, p + 8)
    &&& c.bind_size == u32_at(en, d, p + 12)
    &&& c.weak_bind_off == u32_at(en, d, p + 16)
    &&& c.weak_bind_size == u32_at(en, d, p + 20)
    &&& c.lazy_bind_off == u32_at(en, d, p + 24)
    &&& c.lazy_bind_size == u32_at(en, d, p + 28)
    &&& c.export_off == u32_at(en, d, p + 32)
    &&& c.export_size == u32_at(en, d, p + 36)
}

impl DyldInfoCommand {
    pub fn parse(data: &Vec<u8>, e: &mut Extractor) -> (r: Result<DyldInfoCommand, Error>)
        ensures
            final(e).endianness == old(e).endianness,
            match r {
                Ok(c) => {
                    &&& old(e).pos + 40 <= data@.len()
                    &&& dyld_info_matches(old(e).endianness, data@, old(e).pos as int, c)
                    &&& final(e).pos == old(e).pos + 40
                },
                Err(er) => {
                    &&& er == Error::IoFailure
                    &&& old(e).pos + 40 > data@.len()
                },
            },
    {
        let rebase_off = match e.read_u32(data) {
            Ok(v) => v,
            Err(er) => { return Err(er) },
        };
        let rebase_size = match e.read_u32(data) {
            Ok(v) => v,
            Err(er) => { return Err(er) },
        };
        let bind_off = match e.read_u32(data) {
            Ok(v) => v,
            Err(er) => { return Err(er) },
        };
        let bind_size = match e.read_u32(data) {
            Ok(v) => v,
            Err(er) => { return Err(er) },
        };
        let weak_bind_off = match e.read_u32(data) {
            Ok(v) => v,
            Err(er) => { return Err(er) },
        };
        let weak_bind_size = match e.read_u32(data) {
            Ok(v) => v,
            Err(er) => { return Err(er) },
        };
        let lazy_bind_off = match e.read_u32(data) {
            Ok(v) => v,
            Err(er) => { return Err(er) },
        };
        let lazy_bind_size = match e.read_u32(data) {
            Ok(v) => v,
            Err(er) => { return Err(er) },
        };
        let export_off = match e.read_u32(data) {
            Ok(v) => v,
            Err(er) => { return Err(er) },
        };
        let export_size = match e.read_u32(data) {
            Ok(v) => v,
            Err(er) => { return Err(er) },
        };
        Ok(DyldInfoCommand {
            rebase_off,
            rebase_size,
            bind_off,
            bind_size,
            weak_bind_off,
            weak_bind_size,
            lazy_bind_off,
            lazy_bind_size,
            export_off,
            export_size,
        })
    }
}

/// Payload shared by the link-edit-data family of commands: one byte range
/// inside the link-edit segment.
#[derive(Debug, PartialEq, Eq, Structural)]
pub struct LinkeditDataCommand {
    pub dataoff: u32,
    pub datasize: u32,
}

pub open spec fn linkedit_data_matches(
    en: Endianness,
    d: Seq<u8>,
    p: int,
    c: LinkeditDataCommand,
) -> bool {
    &&& c.dataoff == u32_at(en, d, p)
    &&& c.datasize == u32_at(en, d, p + 4)
}

impl LinkeditDataCommand {
    pub fn parse(data: &Vec<u8>, e: &mut Extractor) -> (r: Result<LinkeditDataCommand, Error>)
        ensures
            final(e).endianness == old(e).endianness,
            match r {
                Ok(c) => {
                    &&& old(e).pos + 8 <= data@.len()
                    &&& linkedit_data_matches(old(e).endianness, data@, old(e).pos as int, c)
                    &&& final(e).pos == old(e).pos + 8
                },
                Err(er) => {
                    &&& er == Error::IoFailure
                    &&& old(e).pos + 8 > data@.len()
                },
            },
    {
        let dataoff = match e.read_u32(data) {
            Ok(v) => v,
            Err(er) => { return Err(er) },
        };
        let datasize = match e.read_u32(data) {
            Ok(v) => v,
            Err(er) => { return Err(er) },
        };
        Ok(LinkeditDataCommand { dataoff, datasize })
    }
}

// ---------------------------------------------------------------------------
// Sections and segments
// ---------------------------------------------------------------------------
/// A sub-region of a 32-bit segment, with its own file offset, size and
/// alignment.
#[derive(Debug, PartialEq, Eq)]
pub struct Section {
    pub sectname: NameString,
    pub segname: NameString,
    pub addr: u32,
    pub size: u32,
    pub offset: u32,
    pub align: u32,
    pub reloff: u32,
    pub nreloc: u32,
    pub flags: u32,
    pub reserved1: u32,
    pub reserved2: u32,
}

/// A sub-region of a 64-bit segment.
#[derive(Debug, PartialEq, Eq)]
pub struct Section64 {
    pub sectname: NameString,
    pub segname: NameString,
    pub addr: u64,
    pub size: u64,
    pub offset: u32,
    pub align: u32,
    pub reloff: u32,
    pub nreloc: u32,
    pub flags: u32,
    pub reserved1: u32,
    pub reserved2: u32,
    pub reserved3: u32,
}

/// How many bytes one section record occupies for the given bit-width.
pub open spec fn section_width(is64: bool) -> int {
    if is64 {
        80
    } else {
        68
    }
}

/// The first failure, if any, of decoding one section record at `p`: two
/// name slots, then the fixed fields.
pub open spec fn section_err(d: Seq<u8>, p: int, is64: bool) -> Option<Error> {
    if p + 16 > d.len() {
        Some(Error::IoFailure)
    } else if !name_ok(d.subrange(p, p + 16)) {
        Some(Error::InvalidFixedString)
    } else if p + 32 > d.len() {
        Some(Error::IoFailure)
    } else if !name_ok(d.subrange(p + 16, p + 32)) {
        Some(Error::InvalidFixedString)
    } else if p + section_width(is64) > d.len() {
        Some(Error::IoFailure)
    } else {
        None
    }
}

pub open spec fn section_matches(en: Endianness, d: Seq<u8>, p: int, s: Section) -> bool {
    &&& s.sectname@ == name_chars(d.subrange(p, p + 16))
    &&& s.segname@ == name_chars(d.subrange(p + 16, p + 32))
    &&& s.addr == u32_at(en, d, p + 32)
    &&& s.size == u32_at(en, d, p + 36)
    &&& s.offset == u32_at(en, d, p + 40)
    &&& s.align == u32_at(en, d, p + 44)
    &&& s.reloff == u32_at(en, d, p + 48)
    &&& s.nreloc == u32_at(en, d, p + 52)
    &&& s.flags == u32_at(en, d, p + 56)
    &&& s.reserved1 == u32_at(en, d, p + 60)
    &&& s.reserved2 == u32_at(en, d, p + 64)
}

pub open spec fn section64_matches(en: Endianness, d: Seq<u8>, p: int, s: Section64) -> bool {
    &&& s.sectname@ == name_chars(d.subrange(p, p + 16))
    &&& s.segname@ == name_chars(d.subrange(p + 16, p + 32))
    &&& s.addr == u64_at(en, d, p + 32)
    &&& s.size == u64_at(en, d, p + 40)
    &&& s.offset == u32_at(en, d, p + 48)
    &&& s.align == u32_at(en, d, p + 52)
    &&& s.reloff == u32_at(en, d, p + 56)
    &&& s.nreloc == u32_at(en, d, p + 60)
    &&& s.flags == u32_at(en, d, p + 64)
    &&& s.reserved1 == u32_at(en, d, p + 68)
    &&& s.reserved2 == u32_at(en, d, p + 72)
    &&& s.reserved3 == u32_at(en, d, p + 76)
}

impl Section {
    pub fn parse(data: &Vec<u8>, e: &mut Extractor) -> (r: Result<Section, Error>)
        ensures
            final(e).endianness == old(e).endianness,
            match r {
                Ok(s) => {
                    &&& section_err(data@, old(e).pos as int, false) == None::<Error>
                    &&& section_matches(old(e).endianness, data@, old(e).pos as int, s)
                    &&& final(e).pos == old(e).pos + 68
                },
                Err(er) => Some(er) == section_err(data@, old(e).pos as int, false),
            },
    {
        let sectname = match NameString::parse(data, e) {
            Ok(v) => v,
            Err(er) => { return Err(er) },
        };
        let segname = match NameString::parse(data, e) {
            Ok(v) => v,
            Err(er) => { return Err(er) },
        };
        let addr = match e.read_u32(data) {
            Ok(v) => v,
            Err(er) => { return Err(er) },
        };
        let size = match e.read_u32(data) {
            Ok(v) => v,
            Err(er) => { return Err(er) },
        };
        let offset = match e.read_u32(data) {
            Ok(v) => v,
            Err(er) => { return Err(er) },
        };
        let align = match e.read_u32(data) {
            Ok(v) => v,
            Err(er) => { return Err(er) },
        };
        let reloff = match e.read_u32(data) {
            Ok(v) => v,
            Err(er) => { return Err(er) },
        };
        let nreloc = match e.read_u32(data) {
            Ok(v) => v,
            Err(er) => { return Err(er) },
        };
        let flags = match e.read_u32(data) {
            Ok(v) => v,
            Err(er) => { return Err(er) },
        };
        let reserved1 = match e.read_u32(data) {
            Ok(v) => v,
            Err(er) => { return Err(er) },
        };
        let reserved2 = match e.read_u32(data) {
            Ok(v) => v,
            Err(er) => { return Err(er) },
        };
        Ok(Section {
            sectname,
            segname,
            addr,
            size,
            offset,
            align,
            reloff,
            nreloc,
            flags,
            reserved1,
            reserved2,
        })
    }
}

impl Section64 {
    pub fn parse(data: &Vec<u8>, e: &mut Extractor) -> (r: Result<Section64, Error>)
        ensures
            final(e).endianness == old(e).endianness,
            match r {
                Ok(s) => {
                    &&& section_err(data@, old(e).pos as int, true) == None::<Error>
                    &&& section64_matches(old(e).endianness, data@, old(e).pos as int, s)
                    &&& final(e).pos == old(e).pos + 80
                },
                Err(er) => Some(er) == section_err(data@, old(e).pos as int, true),
            },
    {
        let sectname = match NameString::parse(data, e) {
            Ok(v) => v,
            Err(er) => { return Err(er) },
        };
        let segname = match NameString::parse(data, e) {
            Ok(v) => v,
            Err(er) => { return Err(er) },
        };
        let addr = match e.read_u64(data) {
            Ok(v) => v,
            Err(er) => { return Err(er) },
        };
        let size = match e.read_u64(data) {
            Ok(v) => v,
            Err(er) => { return Err(er) },
        };
        let offset = match e.read_u32(data) {
            Ok(v) => v,
            Err(er) => { return Err(er) },
        };
        let align = match e.read_u32(data) {
            Ok(v) => v,
            Err(er) => { return Err(er) },
        };
        let reloff = match e.read_u32(data) {
            Ok(v) => v,
            Err(er) => { return Err(er) },
        };
        let nreloc = match e.read_u32(data) {
            Ok(v) => v,
            Err(er) => { return Err(er) },
        };
        let flags = match e.read_u32(data) {
            Ok(v) => v,
            Err(er) => { return Err(er) },
        };
        let reserved1 = match e.read_u32(data) {
            Ok(v) => v,
            Err(er) => { return Err(er) },
        };
        let reserved2 = match e.read_u32(data) {
            Ok(v) => v,
            Err(er) => { return Err(er) },
        };
        let reserved3 = match e.read_u32(data) {
            Ok(v) => v,
            Err(er) => { return Err(er) },
        };
        Ok(Section64 {
            sectname,
            segname,
            addr,
            size,
            offset,
            align,
            reloff,
            nreloc,
            flags,
            reserved1,
            reserved2,
            reserved3,
        })
    }
}

/// The first failure, if any, of decoding `n` consecutive section records
/// starting at `p`.
pub open spec fn sections_err(d: Seq<u8>, p: int, n: nat, is64: bool) -> Option<Error>
    decreases n,
{
    if n == 0 {
        None
    } else {
        match section_err(d, p, is64) {
            Some(er) => Some(er),
            None => sections_err(d, p + section_width(is64), (n - 1) as nat, is64),
        }
    }
}

/// A record describing one contiguous region of a 32-bit address space,
/// owning the section records that follow it.
#[derive(Debug, PartialEq, Eq)]
pub struct SegmentCommand {
    pub segname: NameString,
    pub vmaddr: u32,
    pub vmsize: u32,
    pub fileoff: u32,
    pub filesize: u32,
    pub maxprot: u32,
    pub initprot: u32,
    pub nsects: u32,
    pub flags: u32,
    pub sections: Vec<Section>,
}

/// A record describing one contiguous region of a 64-bit address space.
#[derive(Debug, PartialEq, Eq)]
pub struct SegmentCommand64 {
    pub segname: NameString,
    pub vmaddr: u64,
    pub vmsize: u64,
    pub fileoff: u64,
    pub filesize: u64,
    pub maxprot: u32,
    pub initprot: u32,
    pub nsects: u32,
    pub flags: u32,
    pub sections: Vec<Section64>,
}

/// The first failure, if any, of decoding a 32-bit segment payload at `q`:
/// the name slot, the fixed fields, then `nsects` section records. The
/// declared section count alone bounds the section loop; it is not
/// cross-checked against the command's own size field.
pub open spec fn segment_payload_err(en: Endianness, d: Seq<u8>, q: int) -> Option<Error> {
    if q + 16 > d.len() {
        Some(Error::IoFailure)
    } else if !name_ok(d.subrange(q, q + 16)) {
        Some(Error::InvalidFixedString)
    } else if q + 48 > d.len() {
        Some(Error::IoFailure)
    } else {
        sections_err(d, q + 48, u32_at(en, d, q + 40) as nat, false)
    }
}

pub open spec fn segment_payload_matches(
    en: Endianness,
    d: Seq<u8>,
    q: int,
    c: SegmentCommand,
) -> bool {
    &&& c.segname@ == name_chars(d.subrange(q, q + 16))
    &&& c.vmaddr == u32_at(en, d, q + 16)
    &&& c.vmsize == u32_at(en, d, q + 20)
    &&& c.fileoff == u32_at(en, d, q + 24)
    &&& c.filesize == u32_at(en, d, q + 28)
    &&& c.maxprot == u32_at(en, d, q + 32)
    &&& c.initprot == u32_at(en, d, q + 36)
    &&& c.nsects == u32_at(en, d, q + 40)
    &&& c.flags == u32_at(en, d, q + 44)
    &&& c.sections@.len() == c.nsects
    &&& forall|j: int|
        0 <= j < c.nsects ==> section_matches(en, d, q + 48 + 68 * j, #[trigger] c.sections@[j])
}

/// The first failure, if any, of decoding a 64-bit segment payload at `q`.
pub open spec fn segment64_payload_err(en: Endianness, d: Seq<u8>, q: int) -> Option<Error> {
    if q + 16 > d.len() {
        Some(Error::IoFailure)
    } else if !name_ok(d.subrange(q, q + 16)) {
        Some(Error::InvalidFixedString)
    } else if q + 64 > d.len() {
        Some(Error::IoFailure)
    } else {
        sections_err(d, q + 64, u32_at(en, d, q + 56) as nat, true)
    }
}

pub open spec fn segment64_payload_matches(
    en: Endianness,
    d: Seq<u8>,
    q: int,
    c: SegmentCommand64,
) -> bool {
    &&& c.segname@ == name_chars(d.subrange(q, q + 16))
    &&& c.vmaddr == u64_at(en, d, q + 16)
    &&& c.vmsize == u64_at(en, d, q + 24)
    &&& c.fileoff == u64_at(en, d, q + 32)
    &&& c.filesize == u64_at(en, d, q + 40)
    &&& c.maxprot == u32_at(en, d, q + 48)
    &&& c.initprot == u32_at(en, d, q + 52)
    &&& c.nsects == u32_at(en, d, q + 56)
    &&& c.flags == u32_at(en, d, q + 60)
    &&& c.sections@.len() == c.nsects
    &&& forall|j: int|
        0 <= j < c.nsects ==> section64_matches(en, d, q + 64 + 80 * j, #[trigger] c.sections@[j])
}

impl SegmentCommand {
    /// Decode a 32-bit segment payload: the fixed fields, then exactly
    /// `nsects` section records appended in file order.
    #[verifier::loop_isolation(false)]
    pub fn parse(data: &Vec<u8>, e: &mut Extractor) -> (r: Result<SegmentCommand, Error>)
        ensures
            final(e).endianness == old(e).endianness,
            match r {
                Ok(c) => {
                    &&& segment_payload_err(old(e).endianness, data@, old(e).pos as int)
                        == None::<Error>
                    &&& segment_payload_matches(old(e).endianness, data@, old(e).pos as int, c)
                    &&& final(e).pos == old(e).pos + 48 + 68 * (c.nsects as int)
                },
                Err(er) => Some(er) == segment_payload_err(
                    old(e).endianness,
                    data@,
                    old(e).pos as int,
                ),
            },
    {
        let segname = match NameString::parse(data, e) {
            Ok(v) => v,
            Err(er) => { return Err(er) },
        };
        let vmaddr = match e.read_u32(data) {
            Ok(v) => v,
            Err(er) => { return Err(er) },
        };
        let vmsize = match e.read_u32(data) {
            Ok(v) => v,
            Err(er) => { return Err(er) },
        };
        let fileoff = match e.read_u32(data) {
            Ok(v) => v,
            Err(er) => { return Err(er) },
        };
        let filesize = match e.read_u32(data) {
            Ok(v) => v,
            Err(er) => { return Err(er) },
        };
        let maxprot = match e.read_u32(data) {
            Ok(v) => v,
            Err(er) => { return Err(er) },
        };
        let initprot = match e.read_u32(data) {
            Ok(v) => v,
            Err(er) => { return Err(er) },
        };
        let nsects = match e.read_u32(data) {
            Ok(v) => v,
            Err(er) => { return Err(er) },
        };
        let flags = match e.read_u32(data) {
            Ok(v) => v,
            Err(er) => { return Err(er) },
        };
        let mut sections: Vec<Section> = Vec::new();
        let mut i: u32 = 0;
        while i < nsects
            invariant
                i <= nsects,
                e.endianness == old(e).endianness,
                e.pos as int == old(e).pos + 48 + 68 * (i as int),
                sections@.len() == i as int,
                forall|j: int|
                    0 <= j < i ==> section_matches(
                        old(e).endianness,
                        data@,
                        old(e).pos + 48 + 68 * j,
                        #[trigger] sections@[j],
                    ),
                sections_err(data@, old(e).pos + 48, nsects as nat, false) == sections_err(
                    data@,
                    e.pos as int,
                    (nsects - i) as nat,
                    false,
                ),
            decreases nsects - i,
        {
            let s = match Section::parse(data, e) {
                Ok(v) => v,
                Err(er) => { return Err(er) },
            };
            sections.push(s);
            i = i + 1;
        }
        Ok(SegmentCommand {
            segname,
            vmaddr,
            vmsize,
            fileoff,
            filesize,
            maxprot,
            initprot,
            nsects,
            flags,
            sections,
        })
    }
}

impl SegmentCommand64 {
    /// Decode a 64-bit segment payload: the fixed fields, then exactly
    /// `nsects` section records appended in file order.
    #[verifier::loop_isolation(false)]
    pub fn parse(data: &Vec<u8>, e: &mut Extractor) -> (r: Result<SegmentCommand64, Error>)
        ensures
            final(e).endianness == old(e).endianness,
            match r {
                Ok(c) => {
                    &&& segment64_payload_err(old(e).endianness, data@, old(e).pos as int)
                        == None::<Error>
                    &&& segment64_payload_matches(old(e).endianness, data@, old(e).pos as int, c)
                    &&& final(e).pos == old(e).pos + 64 + 80 * (c.nsects as int)
                },
                Err(er) => Some(er) == segment64_payload_err(
                    old(e).endianness,
                    data@,
                    old(e).pos as int,
                ),
            },
    {
        let segname = match NameString::parse(data, e) {
            Ok(v) => v,
            Err(er) => { return Err(er) },
        };
        let vmaddr = match e.read_u64(data) {
            Ok(v) => v,
            Err(er) => { return Err(er) },
        };
        let vmsize = match e.read_u64(data) {
            Ok(v) => v,
            Err(er) => { return Err(er) },
        };
        let fileoff = match e.read_u64(data) {
            Ok(v) => v,
            Err(er) => { return Err(er) },
        };
        let filesize = match e.read_u64(data) {
            Ok(v) => v,
            Err(er) => { return Err(er) },
        };
        let maxprot = match e.read_u32(data) {
            Ok(v) => v,
            Err(er) => { return Err(er) },
        };
        let initprot = match e.read_u32(data) {
            Ok(v) => v,
            Err(er) => { return Err(er) },
        };
        let nsects = match e.read_u32(data) {
            Ok(v) => v,
            Err(er) => { return Err(er) },
        };
        let flags = match e.read_u32(data) {
            Ok(v) => v,
            Err(er) => { return Err(er) },
        };
        let mut sections: Vec<Section64> = Vec::new();
        let mut i: u32 = 0;
        while i < nsects
            invariant
                i <= nsects,
                e.endianness == old(e).endianness,
                e.pos as int == old(e).pos + 64 + 80 * (i as int),
                sections@.len() == i as int,
                forall|j: int|
                    0 <= j < i ==> section64_matches(
                        old(e).endianness,
                        data@,
                        old(e).pos + 64 + 80 * j,
                        #[trigger] sections@[j],
                    ),
                sections_err(data@, old(e).pos + 64, nsects as nat, true) == sections_err(
                    data@,
                    e.pos as int,
                    (nsects - i) as nat,
                    true,
                ),
            decreases nsects - i,
        {
            let s = match Section64::parse(data, e) {
                Ok(v) => v,
                Err(er) => { return Err(er) },
            };
            sections.push(s);
            i = i + 1;
        }
        Ok(SegmentCommand64 {
            segname,
            vmaddr,
            vmsize,
            fileoff,
            filesize,
            maxprot,
            initprot,
            nsects,
            flags,
            sections,
        })
    }
}

// ---------------------------------------------------------------------------
// The load-command union
// ---------------------------------------------------------------------------
/// One decoded load command: the closed set of recognized record kinds,
/// plus a catch-all variant that preserves an unrecognized command's tag
/// and raw payload bytes verbatim.
#[derive(Debug, PartialEq, Eq)]
pub enum LoadCommand {
    Uuid(UuidCommand),
    Segment(SegmentCommand),
    Segment64(SegmentCommand64),
    Symtab(SymtabCommand),
    Dysymtab(DysymtabCommand),
    TwoLevelHints(TwoLevelHintsCommand),
    DyldInfo(DyldInfoCommand),
    DyldInfoOnly(DyldInfoCommand),
    CodeSignature(LinkeditDataCommand),
    SegmentSplitInfo(LinkeditDataCommand),
    FunctionStarts(LinkeditDataCommand),
    DataInCode(LinkeditDataCommand),
    DylibCodeSignDrs(LinkeditDataCommand),
    LinkerOptimizationHint(LinkeditDataCommand),
    Unknown { cmd: u32, data: Vec<u8> },
}

/// The tags that share the link-edit-data payload shape. Each stays a
/// distinct logical variant so a caller can tell which flavor was present.
pub open spec fn is_linkedit_data_tag(tag: u32) -> bool {
    ||| tag == constants::LC_CODE_SIGNATURE
    ||| tag == constants::LC_SEGMENT_SPLIT_INFO
    ||| tag == constants::LC_FUNCTION_STARTS
    ||| tag == constants::LC_DATA_IN_CODE
    ||| tag == constants::LC_DYLIB_CODE_SIGN_DRS
    ||| tag == constants::LC_LINKER_OPTIMIZATION_HINT
}

/// The declared-size rule: at least the 8 bytes of tag and size, and a
/// multiple of the container's word width.
pub open spec fn size_rule_ok(is64: bool, size: u32) -> bool {
    &&& size >= 8
    &&& (if is64 {
        size % 8 == 0
    } else {
        size % 4 == 0
    })
}

/// Failure of a fixed-shape payload read of `n` bytes at `p`: only running
/// out of input.
pub open spec fn fixed_err(d: Seq<u8>, p: int, n: int) -> Option<Error> {
    if p + n > d.len() {
        Some(Error::IoFailure)
    } else {
        None
    }
}

/// The first failure, if any, of decoding one load command starting at
/// `start`: the 8-byte tag and size prefix, the declared-size rule, then
/// the payload of the shape the tag selects. An unrecognized tag is not an
/// error: its `size - 8` payload bytes are read verbatim.
pub open spec fn spec_command_err(en: Endianness, is64: bool, d: Seq<u8>, start: int) -> Option<
    Error,
> {
    if start + 8 > d.len() {
        Some(Error::IoFailure)
    } else {
        let tag = u32_at(en, d, start);
        let size = u32_at(en, d, start + 4);
        if !size_rule_ok(is64, size) {
            Some(Error::InvalidLoadCommandSize(size))
        } else if tag == constants::LC_UUID {
            fixed_err(d, start + 8, 16)
        } else if tag == constants::LC_SEGMENT {
            segment_payload_err(en, d, start + 8)
        } else if tag == constants::LC_SEGMENT_64 {
            segment64_payload_err(en, d, start + 8)
        } else if tag == constants::LC_SYMTAB {
            fixed_err(d, start + 8, 16)
        } else if tag == constants::LC_DYSYMTAB {
            fixed_err(d, start + 8, 72)
        } else if tag == constants::LC_TWOLEVEL_HINTS {
            fixed_err(d, start + 8, 8)
        } else if tag == constants::LC_DYLD_INFO || tag == constants::LC_DYLD_INFO_ONLY {
            fixed_err(d, start + 8, 40)
        } else if is_linkedit_data_tag(tag) {
            fixed_err(d, start + 8, 8)
        } else if start + size > d.len() {
            Some(Error::IoFailure)
        } else {
            None
        }
    }
}

/// What a successfully decoded load command holds, in terms of the bytes
/// of the record that starts at `start`.
pub open spec fn command_matches(
    en: Endianness,
    is64: bool,
    d: Seq<u8>,
    start: int,
    c: LoadCommand,
) -> bool {
    let tag = u32_at(en, d, start);
    let size = u32_at(en, d, start + 4);
    if tag == constants::LC_UUID {
        c matches LoadCommand::Uuid(u) && uuid_matches(en, d, start + 8, u)
    } else if tag == constants::LC_SEGMENT {
        c matches LoadCommand::Segment(s) && segment_payload_matches(en, d, start + 8, s)
    } else if tag == constants::LC_SEGMENT_64 {
        c matches LoadCommand::Segment64(s) && segment64_payload_matches(en, d, start + 8, s)
    } else if tag == constants::LC_SYMTAB {
        c matches LoadCommand::Symtab(s) && symtab_matches(en, d, start + 8, s)
    } else if tag == constants::LC_DYSYMTAB {
        c matches LoadCommand::Dysymtab(s) && dysymtab_matches(en, d, start + 8, s)
    } else if tag == constants::LC_TWOLEVEL_HINTS {
        c matches LoadCommand::TwoLevelHints(s) && two_level_hints_matches(en, d, start + 8, s)
    } else if tag == constants::LC_DYLD_INFO {
        c matches LoadCommand::DyldInfo(s) && dyld_info_matches(en, d, start + 8, s)
    } else if tag == constants::LC_DYLD_INFO_ONLY {
        c matches LoadCommand::DyldInfoOnly(s) && dyld_info_matches(en, d, start + 8, s)
    } else if tag == constants::LC_CODE_SIGNATURE {
        c matches LoadCommand::CodeSignature(s) && linkedit_data_matches(en, d, start + 8, s)
    } else if tag == constants::LC_SEGMENT_SPLIT_INFO {
        c matches LoadCommand::SegmentSplitInfo(s) && linkedit_data_matches(en, d, start + 8, s)
    } else if tag == constants::LC_FUNCTION_STARTS {
        c matches LoadCommand::FunctionStarts(s) && linkedit_data_matches(en, d, start + 8, s)
    } else if tag == constants::LC_DATA_IN_CODE {
        c matches LoadCommand::DataInCode(s) && linkedit_data_matches(en, d, start + 8, s)
    } else if tag == constants::LC_DYLIB_CODE_SIGN_DRS {
        c matches LoadCommand::DylibCodeSignDrs(s) && linkedit_data_matches(en, d, start + 8, s)
    } else if tag == constants::LC_LINKER_OPTIMIZATION_HINT {
        c matches LoadCommand::LinkerOptimizationHint(s) && linkedit_data_matches(
            en,
            d,
            start + 8,
            s,
        )
    } else {
        c matches LoadCommand::Unknown { cmd, data } && cmd == tag && data@ == d.subrange(
            start + 8,
            start + size,
        )
    }
}

impl LoadCommand {
    /// Decode exactly one load command starting at the cursor, leaving the
    /// cursor at the start of the next one — `start + size`, whatever the
    /// tag and however many bytes its decoder consumed — regardless of
    /// whether the tag was recognized. On failure the cursor does not move.
    pub fn from_reader(header: &Header, data: &Vec<u8>, pos: &mut usize) -> (r: Result<
        LoadCommand,
        Error,
    >)
        requires
            data@.len() + 0x1_0000_0000 <= usize::MAX,
        ensures
            ({
                let en = endian_of(header.magic);
                let is64 = is_64bit(header.magic);
                let start = *old(pos) as int;
                match r {
                    Ok(c) => {
                        &&& spec_command_err(en, is64, data@, start) == None::<Error>
                        &&& command_matches(en, is64, data@, start, c)
                        &&& *final(pos) == start + u32_at(en, data@, start + 4)
                    },
                    Err(er) => {
                        &&& Some(er) == spec_command_err(en, is64, data@, start)
                        &&& *final(pos) == *old(pos)
                    },
                }
            }),
    {
        let start = *pos;
        let mut e = header.magic.get_extractor(start);
        let cmd = match e.read_u32(data) {
            Ok(v) => v,
            Err(er) => { return Err(er) },
        };
        let size = match e.read_u32(data) {
            Ok(v) => v,
            Err(er) => { return Err(er) },
        };
        if (size < 8) || (header.is_32_bit() && size % 4 != 0) || (header.is_64_bit() && size % 8
            != 0) {
            return Err(Error::InvalidLoadCommandSize(size));
        }
        let command = if cmd == constants::LC_UUID {
            match UuidCommand::parse(data, &mut e) {
                Ok(c) => LoadCommand::Uuid(c),
                Err(er) => { return Err(er) },
            }
        } else if cmd == constants::LC_SEGMENT {
            match SegmentCommand::parse(data, &mut e) {
                Ok(c) => LoadCommand::Segment(c),
                Err(er) => { return Err(er) },
            }
        } else if cmd == constants::LC_SEGMENT_64 {
            match SegmentCommand64::parse(data, &mut e) {
                Ok(c) => LoadCommand::Segment64(c),
                Err(er) => { return Err(er) },
            }
        } else if cmd == constants::LC_SYMTAB {
            match SymtabCommand::parse(data, &mut e) {
                Ok(c) => LoadCommand::Symtab(c),
                Err(er) => { return Err(er) },
            }
        } else if cmd == constants::LC_DYSYMTAB {
            match DysymtabCommand::parse(data, &mut e) {
                Ok(c) => LoadCommand::Dysymtab(c),
                Err(er) => { return Err(er) },
            }
        } else if cmd == constants::LC_TWOLEVEL_HINTS {
            match TwoLevelHintsCommand::parse(data, &mut e) {
                Ok(c) => LoadCommand::TwoLevelHints(c),
                Err(er) => { return Err(er) },
            }
        } else if cmd == constants::LC_DYLD_INFO {
            match DyldInfoCommand::parse(data, &mut e) {
                Ok(c) => LoadCommand::DyldInfo(c),
                Err(er) => { return Err(er) },
            }
        } else if cmd == constants::LC_DYLD_INFO_ONLY {
            match DyldInfoCommand::parse(data, &mut e) {
                Ok(c) => LoadCommand::DyldInfoOnly(c),
                Err(er) => { return Err(er) },
            }
        } else if cmd == constants::LC_CODE_SIGNATURE {
            match LinkeditDataCommand::parse(data, &mut e) {
                Ok(c) => LoadCommand::CodeSignature(c),
                Err(er) => { return Err(er) },
            }
        } else if cmd == constants::LC_SEGMENT_SPLIT_INFO {
            match LinkeditDataCommand::parse(data, &mut e) {
                Ok(c) => LoadCommand::SegmentSplitInfo(c),
                Err(er) => { return Err(er) },
            }
        } else if cmd == constants::LC_FUNCTION_STARTS {
            match LinkeditDataCommand::parse(data, &mut e) {
                Ok(c) => LoadCommand::FunctionStarts(c),
                Err(er) => { return Err(er) },
            }
        } else if cmd == constants::LC_DATA_IN_CODE {
            match LinkeditDataCommand::parse(data, &mut e) {
                Ok(c) => LoadCommand::DataInCode(c),
                Err(er) => { return Err(er) },
            }
        } else if cmd == constants::LC_DYLIB_CODE_SIGN_DRS {
            match LinkeditDataCommand::parse(data, &mut e) {
                Ok(c) => LoadCommand::DylibCodeSignDrs(c),
                Err(er) => { return Err(er) },
            }
        } else if cmd == constants::LC_LINKER_OPTIMIZATION_HINT {
            match LinkeditDataCommand::parse(data, &mut e) {
                Ok(c) => LoadCommand::LinkerOptimizationHint(c),
                Err(er) => { return Err(er) },
            }
        } else {
            match e.read_bytes(data, (size - 8) as usize) {
                Ok(raw) => LoadCommand::Unknown { cmd, data: raw },
                Err(er) => { return Err(er) },
            }
        };
        // the declared size is authoritative over the command's own layout
        *pos = start + (size as usize);
        Ok(command)
    }

    /// Re-encode an `Unknown` command: its tag, its declared size (the
    /// payload length plus the 8-byte prefix), and its payload bytes,
    /// exactly as they stood on disk. Only the `Unknown` variant supports
    /// this; any other variant, or a payload too large for a 32-bit size
    /// field, yields `None`.
    pub fn encode(&self, endianness: Endianness) -> (r: Option<Vec<u8>>)
        ensures
            match r {
                Some(v) => {
                    &&& self is Unknown
                    &&& self->data@.len() + 8 <= u32::MAX
                    &&& v@ == spec_u32_bytes(endianness, self->cmd) + spec_u32_bytes(
                        endianness,
                        (self->data@.len() + 8) as u32,
                    ) + self->data@
                },
                None => self !is Unknown || self->data@.len() + 8 > u32::MAX,
            },
    {
        match self {
            LoadCommand::Unknown { cmd, data } => {
                if data.len() > 0xffff_fff7 {
                    return None;
                }
                let size: u32 = (data.len() as u32) + 8;
                let mut out = crate::extractor::u32_to_bytes(endianness, *cmd);
                let mut size_bytes = crate::extractor::u32_to_bytes(endianness, size);
                out.append(&mut size_bytes);
                let mut i: usize = 0;
                while i < data.len()
                    invariant
                        i <= data@.len(),
                        out@ == spec_u32_bytes(endianness, self->cmd) + spec_u32_bytes(
                            endianness,
                            (self->data@.len() + 8) as u32,
                        ) + data@.subrange(0, i as int),
                        self is Unknown && *cmd == self->cmd && *data == self->data,
                    decreases data@.len() - i,
                {
                    out.push(data[i]);
                    proof {
                        assert(data@.subrange(0, i + 1) =~= data@.subrange(0, i as int).push(
                            data@[i as int],
                        ));
                    }
                    i = i + 1;
                }
                proof {
                    assert(data@.subrange(0, data@.len() as int) =~= data@);
                }
                Some(out)
            }
            _ => None,
        }
    }
}

/// Decoding an unrecognized command preserves its tag and its exact raw
/// payload bytes: re-encoding the tag, the declared size and that payload
/// reproduces the original byte range of the record, byte for byte.
pub proof fn lemma_unknown_round_trip(
    en: Endianness,
    is64: bool,
    d: Seq<u8>,
    start: int,
    c: LoadCommand,
)
    requires
        0 <= start,
        spec_command_err(en, is64, d, start) == None::<Error>,
        command_matches(en, is64, d, start, c),
        c is Unknown,
    ensures
        ({
            let size = u32_at(en, d, start + 4) as int;
            spec_u32_bytes(en, c->cmd) + spec_u32_bytes(en, u32_at(en, d, start + 4)) + c->data@
                == d.subrange(start, start + size)
        }),
{
    let tag = u32_at(en, d, start);
    let size = u32_at(en, d, start + 4);
    crate::extractor::lemma_u32_bytes_roundtrip(en, d.subrange(start, start + 4));
    crate::extractor::lemma_u32_bytes_roundtrip(en, d.subrange(start + 4, start + 8));
    assert(spec_u32_bytes(en, tag) + spec_u32_bytes(en, size) + d.subrange(start + 8, start + size)
        =~= d.subrange(start, start + size));
}

} // verus!
