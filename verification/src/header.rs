use crate::constants;
use crate::error::Error;
use crate::extractor::{u32_at, Endianness, Extractor};
use vstd::prelude::*;

verus! {

/// The four recognized header encodings: {32,64}-bit x {little,big}-endian.
/// Bit-width and byte order are fixed for the lifetime of one decoded
/// container, derived once from the 4-byte magic value.
#[derive(Debug, Clone, Copy, PartialEq, Eq, Structural)]
pub enum Magic {
    LittleEndian,
    BigEndian,
    LittleEndian64,
    BigEndian64,
}

/// Which header encoding a 4-byte magic value selects, if any.
pub open spec fn spec_magic(v: u32) -> Option<Magic> {
    if v == constants::MH_MAGIC {
        Some(Magic::LittleEndian)
    } else if v == constants::MH_CIGAM {
        Some(Magic::BigEndian)
    } else if v == constants::MH_MAGIC_64 {
        Some(Magic::LittleEndian64)
    } else if v == constants::MH_CIGAM_64 {
        Some(Magic::BigEndian64)
    } else {
        None
    }
}

/// The magic value that stands for this encoding on disk.
pub open spec fn spec_magic_value(m: Magic) -> u32 {
    match m {
        Magic::LittleEndian => constants::MH_MAGIC,
        Magic::BigEndian => constants::MH_CIGAM,
        Magic::LittleEndian64 => constants::MH_MAGIC_64,
        Magic::BigEndian64 => constants::MH_CIGAM_64,
    }
}

/// The byte order this encoding fixes for the rest of the container.
pub open spec fn endian_of(m: Magic) -> Endianness {
    match m {
        Magic::LittleEndian | Magic::LittleEndian64 => Endianness::Little,
        Magic::BigEndian | Magic::BigEndian64 => Endianness::Big,
    }
}

/// Whether this encoding is one of the 64-bit variants.
pub open spec fn is_64bit(m: Magic) -> bool {
    m is LittleEndian64 || m is BigEndian64
}

/// How many bytes the fixed header occupies: the 64-bit layout carries one
/// extra reserved 32-bit field after the flags.
pub open spec fn spec_header_size(m: Magic) -> int {
    if is_64bit(m) {
        32
    } else {
        28
    }
}

impl Magic {
    /// The extractor configured with the byte order this magic selects.
    pub fn get_extractor(&self, pos: usize) -> (r: Extractor)
        ensures
            r.endianness == endian_of(*self),
            r.pos == pos,
    {
        match self {
            Magic::LittleEndian | Magic::LittleEndian64 => Extractor::little_endian(pos),
            Magic::BigEndian | Magic::BigEndian64 => Extractor::big_endian(pos),
        }
    }

    pub fn from_u32(v: u32) -> (r: Result<Magic, Error>)
        ensures
            match spec_magic(v) {
                Some(m) => r == Ok::<Magic, Error>(m),
                None => r == Err::<Magic, Error>(Error::InvalidMagic(v)),
            },
    {
        if v == constants::MH_MAGIC {
            Ok(Magic::LittleEndian)
        } else if v == constants::MH_CIGAM {
            Ok(Magic::BigEndian)
        } else if v == constants::MH_MAGIC_64 {
            Ok(Magic::LittleEndian64)
        } else if v == constants::MH_CIGAM_64 {
            Ok(Magic::BigEndian64)
        } else {
            Err(Error::InvalidMagic(v))
        }
    }

    pub fn to_u32(&self) -> (r: u32)
        ensures
            r == spec_magic_value(*self),
    {
        match self {
            Magic::LittleEndian => constants::MH_MAGIC,
            Magic::BigEndian => constants::MH_CIGAM,
            Magic::LittleEndian64 => constants::MH_MAGIC_64,
            Magic::BigEndian64 => constants::MH_CIGAM_64,
        }
    }
}

/// Each of the four magic values selects its (bit-width, byte-order) pair,
/// and every other 4-byte value selects nothing, so header decoding rejects
/// it with `InvalidMagic` carrying that exact value.
pub proof fn lemma_magic_selects()
    ensures
        spec_magic(constants::MH_MAGIC) == Some(Magic::LittleEndian),
        endian_of(Magic::LittleEndian) == Endianness::Little && !is_64bit(Magic::LittleEndian),
        spec_magic(constants::MH_CIGAM) == Some(Magic::BigEndian),
        endian_of(Magic::BigEndian) == Endianness::Big && !is_64bit(Magic::BigEndian),
        spec_magic(constants::MH_MAGIC_64) == Some(Magic::LittleEndian64),
        endian_of(Magic::LittleEndian64) == Endianness::Little && is_64bit(Magic::LittleEndian64),
        spec_magic(constants::MH_CIGAM_64) == Some(Magic::BigEndian64),
        endian_of(Magic::BigEndian64) == Endianness::Big && is_64bit(Magic::BigEndian64),
        forall|v: u32|
            v != constants::MH_MAGIC && v != constants::MH_CIGAM && v != constants::MH_MAGIC_64
                && v != constants::MH_CIGAM_64 ==> spec_magic(v) == None::<Magic>,
{
}

/// Instruction-set architecture codes, with an unknown fallback carrying
/// the raw code.
#[derive(Debug, Clone, Copy, PartialEq, Eq, Structural)]
pub enum CpuType {
    X86,
    X86_64,
    Arm,
    Arm64,
    Arm64_32,
    PowerPC,
    PowerPC64,
    Unknown(u32),
}

pub open spec fn spec_cpu_type(v: u32) -> CpuType {
    if v == constants::CPU_TYPE_I386 {
        CpuType::X86
    } else if v == constants::CPU_TYPE_X86_64 {
        CpuType::X86_64
    } else if v == constants::CPU_TYPE_ARM {
        CpuType::Arm
    } else if v == constants::CPU_TYPE_ARM64 {
        CpuType::Arm64
    } else if v == constants::CPU_TYPE_ARM64_32 {
        CpuType::Arm64_32
    } else if v == constants::CPU_TYPE_POWERPC {
        CpuType::PowerPC
    } else if v == constants::CPU_TYPE_POWERPC64 {
        CpuType::PowerPC64
    } else {
        CpuType::Unknown(v)
    }
}

pub open spec fn spec_cpu_type_value(t: CpuType) -> u32 {
    match t {
        CpuType::X86 => constants::CPU_TYPE_I386,
        CpuType::X86_64 => constants::CPU_TYPE_X86_64,
        CpuType::Arm => constants::CPU_TYPE_ARM,
        CpuType::Arm64 => constants::CPU_TYPE_ARM64,
        CpuType::Arm64_32 => constants::CPU_TYPE_ARM64_32,
        CpuType::PowerPC => constants::CPU_TYPE_POWERPC,
        CpuType::PowerPC64 => constants::CPU_TYPE_POWERPC64,
        CpuType::Unknown(value) => value,
    }
}

impl CpuType {
    pub fn from_u32(v: u32) -> (r: CpuType)
        ensures
            r == spec_cpu_type(v),
    {
        if v == constants::CPU_TYPE_I386 {
            CpuType::X86
        } else if v == constants::CPU_TYPE_X86_64 {
            CpuType::X86_64
        } else if v == constants::CPU_TYPE_ARM {
            CpuType::Arm
        } else if v == constants::CPU_TYPE_ARM64 {
            CpuType::Arm64
        } else if v == constants::CPU_TYPE_ARM64_32 {
            CpuType::Arm64_32
        } else if v == constants::CPU_TYPE_POWERPC {
            CpuType::PowerPC
        } else if v == constants::CPU_TYPE_POWERPC64 {
            CpuType::PowerPC64
        } else {
            CpuType::Unknown(v)
        }
    }

    pub fn to_u32(&self) -> (r: u32)
        ensures
            r == spec_cpu_type_value(*self),
    {
        match self {
            CpuType::X86 => constants::CPU_TYPE_I386,
            CpuType::X86_64 => constants::CPU_TYPE_X86_64,
            CpuType::Arm => constants::CPU_TYPE_ARM,
            CpuType::Arm64 => constants::CPU_TYPE_ARM64,
            CpuType::Arm64_32 => constants::CPU_TYPE_ARM64_32,
            CpuType::PowerPC => constants::CPU_TYPE_POWERPC,
            CpuType::PowerPC64 => constants::CPU_TYPE_POWERPC64,
            CpuType::Unknown(value) => *value,
        }
    }
}

/// Architecture variant codes, with an unknown fallback carrying the raw
/// code.
#[derive(Debug, Clone, Copy, PartialEq, Eq, Structural)]
pub enum CpuSubType {
    Multiple,
    X86,
    X86_64,
    Unknown(u32),
}

pub open spec fn spec_cpu_sub_type(v: u32) -> CpuSubType {
    if v == constants::CPU_SUBTYPE_MULTIPLE {
        CpuSubType::Multiple
    } else if v == constants::CPU_SUBTYPE_X86_ALL {
        CpuSubType::X86
    } else if v == constants::CPU_SUBTYPE_X86_64_ALL {
        CpuSubType::X86_64
    } else {
        CpuSubType::Unknown(v)
    }
}

pub open spec fn spec_cpu_sub_type_value(t: CpuSubType) -> u32 {
    match t {
        CpuSubType::Multiple => constants::CPU_SUBTYPE_MULTIPLE,
        CpuSubType::X86 => constants::CPU_SUBTYPE_X86_ALL,
        CpuSubType::X86_64 => constants::CPU_SUBTYPE_X86_64_ALL,
        CpuSubType::Unknown(value) => value,
    }
}

impl CpuSubType {
    pub fn from_u32(v: u32) -> (r: CpuSubType)
        ensures
            r == spec_cpu_sub_type(v),
    {
        if v == constants::CPU_SUBTYPE_MULTIPLE {
            CpuSubType::Multiple
        } else if v == constants::CPU_SUBTYPE_X86_ALL {
            CpuSubType::X86
        } else if v == constants::CPU_SUBTYPE_X86_64_ALL {
            CpuSubType::X86_64
        } else {
            CpuSubType::Unknown(v)
        }
    }

    pub fn to_u32(&self) -> (r: u32)
        ensures
            r == spec_cpu_sub_type_value(*self),
    {
        match self {
            CpuSubType::Multiple => constants::CPU_SUBTYPE_MULTIPLE,
            CpuSubType::X86 => constants::CPU_SUBTYPE_X86_ALL,
            CpuSubType::X86_64 => constants::CPU_SUBTYPE_X86_64_ALL,
            CpuSubType::Unknown(value) => *value,
        }
    }
}

/// What kind of container this is, with an unknown fallback carrying the
/// raw code.
#[derive(Debug, Clone, Copy, PartialEq, Eq, Structural)]
pub enum Filetype {
    Object,
    Execute,
    Fvmlib,
    Core,
    Preload,
    Dylib,
    Dylinker,
    Bundle,
    DylinkStub,
    Dsym,
    KextBundle,
    Unknown(u32),
}

pub open spec fn spec_filetype(v: u32) -> Filetype {
    if v == constants::MH_OBJECT {
        Filetype::Object
    } else if v == constants::MH_EXECUTE {
        Filetype::Execute
    } else if v == constants::MH_FVMLIB {
        Filetype::Fvmlib
    } else if v == constants::MH_CORE {
        Filetype::Core
    } else if v == constants::MH_PRELOAD {
        Filetype::Preload
    } else if v == constants::MH_DYLIB {
        Filetype::Dylib
    } else if v == constants::MH_DYLINKER {
        Filetype::Dylinker
    } else if v == constants::MH_BUNDLE {
        Filetype::Bundle
    } else if v == constants::MH_DYLINK_STUB {
        Filetype::DylinkStub
    } else if v == constants::MH_DSYM {
        Filetype::Dsym
    } else if v == constants::MH_KEXT_BUNDLE {
        Filetype::KextBundle
    } else {
        Filetype::Unknown(v)
    }
}

pub open spec fn spec_filetype_value(t: Filetype) -> u32 {
    match t {
        Filetype::Object => constants::MH_OBJECT,
        Filetype::Execute => constants::MH_EXECUTE,
        Filetype::Fvmlib => constants::MH_FVMLIB,
        Filetype::Core => constants::MH_CORE,
        Filetype::Preload => constants::MH_PRELOAD,
        Filetype::Dylib => constants::MH_DYLIB,
        Filetype::Dylinker => constants::MH_DYLINKER,
        Filetype::Bundle => constants::MH_BUNDLE,
        Filetype::DylinkStub => constants::MH_DYLINK_STUB,
        Filetype::Dsym => constants::MH_DSYM,
        Filetype::KextBundle => constants::MH_KEXT_BUNDLE,
        Filetype::Unknown(value) => value,
    }
}

impl Filetype {
    pub fn from_u32(v: u32) -> (r: Filetype)
        ensures
            r == spec_filetype(v),
    {
        if v == constants::MH_OBJECT {
            Filetype::Object
        } else if v == constants::MH_EXECUTE {
            Filetype::Execute
        } else if v == constants::MH_FVMLIB {
            Filetype::Fvmlib
        } else if v == constants::MH_CORE {
            Filetype::Core
        } else if v == constants::MH_PRELOAD {
            Filetype::Preload
        } else if v == constants::MH_DYLIB {
            Filetype::Dylib
        } else if v == constants::MH_DYLINKER {
            Filetype::Dylinker
        } else if v == constants::MH_BUNDLE {
            Filetype::Bundle
        } else if v == constants::MH_DYLINK_STUB {
            Filetype::DylinkStub
        } else if v == constants::MH_DSYM {
            Filetype::Dsym
        } else if v == constants::MH_KEXT_BUNDLE {
            Filetype::KextBundle
        } else {
            Filetype::Unknown(v)
        }
    }

    pub fn to_u32(&self) -> (r: u32)
        ensures
            r == spec_filetype_value(*self),
    {
        match self {
            Filetype::Object => constants::MH_OBJECT,
            Filetype::Execute => constants::MH_EXECUTE,
            Filetype::Fvmlib => constants::MH_FVMLIB,
            Filetype::Core => constants::MH_CORE,
            Filetype::Preload => constants::MH_PRELOAD,
            Filetype::Dylib => constants::MH_DYLIB,
            Filetype::Dylinker => constants::MH_DYLINKER,
            Filetype::Bundle => constants::MH_BUNDLE,
            Filetype::DylinkStub => constants::MH_DYLINK_STUB,
            Filetype::Dsym => constants::MH_DSYM,
            Filetype::KextBundle => constants::MH_KEXT_BUNDLE,
            Filetype::Unknown(value) => *value,
        }
    }
}

/// The fixed-size container header.
#[derive(Debug, Clone, Copy, PartialEq, Eq, Structural)]
pub struct Header {
    pub magic: Magic,
    pub cputype: CpuType,
    pub cpusubtype: CpuSubType,
    pub filetype: Filetype,
    pub ncmds: u32,
    pub sizeofcmds: u32,
    pub flags: u32,
}

/// The first failure, if any, of decoding a header at offset `p` of `d`:
/// the magic is read first with a fixed little-endian interpretation, then
/// six 32-bit fields in the selected byte order.
pub open spec fn spec_header_err(d: Seq<u8>, p: int) -> Option<Error> {
    if p + 4 > d.len() {
        Some(Error::IoFailure)
    } else {
        let mv = u32_at(Endianness::Little, d, p);
        match spec_magic(mv) {
            None => Some(Error::InvalidMagic(mv)),
            Some(_) => if p + 28 > d.len() {
                Some(Error::IoFailure)
            } else {
                None
            },
        }
    }
}

/// What a successfully decoded header holds, field by field, in terms of
/// the bytes at offset `p` of `d`.
pub open spec fn header_matches(d: Seq<u8>, p: int, h: Header) -> bool {
    &&& spec_magic(u32_at(Endianness::Little, d, p)) == Some(h.magic)
    &&& ({
        let en = endian_of(h.magic);
        &&& h.cputype == spec_cpu_type(u32_at(en, d, p + 4))
        &&& h.cpusubtype == spec_cpu_sub_type(u32_at(en, d, p + 8))
        &&& h.filetype == spec_filetype(u32_at(en, d, p + 12))
        &&& h.ncmds == u32_at(en, d, p + 16)
        &&& h.sizeofcmds == u32_at(en, d, p + 20)
        &&& h.flags == u32_at(en, d, p + 24)
    })
}

impl Header {
    /// Decode the fixed header at the cursor. On success the cursor is left
    /// exactly at the first load-command record (the 64-bit layout skips one
    /// reserved 32-bit field); on failure it does not move.
    pub fn from_reader(data: &Vec<u8>, pos: &mut usize) -> (r: Result<Header, Error>)
        requires
            data@.len() + 4 <= usize::MAX,
        ensures
            match r {
                Ok(h) => {
                    &&& spec_header_err(data@, *old(pos) as int) == None::<Error>
                    &&& header_matches(data@, *old(pos) as int, h)
                    &&& *final(pos) == *old(pos) + spec_header_size(h.magic)
                },
                Err(er) => {
                    &&& Some(er) == spec_header_err(data@, *old(pos) as int)
                    &&& *final(pos) == *old(pos)
                },
            },
    {
        let start = *pos;
        let mut little = Extractor::little_endian(start);
        let magic_value = match little.read_u32(data) {
            Ok(v) => v,
            Err(er) => { return Err(er) },
        };
        let magic = match Magic::from_u32(magic_value) {
            Ok(m) => m,
            Err(er) => { return Err(er) },
        };
        let mut e = magic.get_extractor(little.pos);
        let cputype_value = match e.read_u32(data) {
            Ok(v) => v,
            Err(er) => { return Err(er) },
        };
        let cpusubtype_value = match e.read_u32(data) {
            Ok(v) => v,
            Err(er) => { return Err(er) },
        };
        let filetype_value = match e.read_u32(data) {
            Ok(v) => v,
            Err(er) => { return Err(er) },
        };
        let ncmds = match e.read_u32(data) {
            Ok(v) => v,
            Err(er) => { return Err(er) },
        };
        let sizeofcmds = match e.read_u32(data) {
            Ok(v) => v,
            Err(er) => { return Err(er) },
        };
        let flags = match e.read_u32(data) {
            Ok(v) => v,
            Err(er) => { return Err(er) },
        };
        let header = Header {
            magic,
            cputype: CpuType::from_u32(cputype_value),
            cpusubtype: CpuSubType::from_u32(cpusubtype_value),
            filetype: Filetype::from_u32(filetype_value),
            ncmds,
            sizeofcmds,
            flags,
        };
        if header.is_64_bit() {
            // skip the reserved field; seeking past the end is not an error
            *pos = start + 32;
        } else {
            *pos = start + 28;
        }
        Ok(header)
    }

    pub fn is_32_bit(&self) -> (r: bool)
        ensures
            r == !is_64bit(self.magic),
    {
        self.magic == Magic::LittleEndian || self.magic == Magic::BigEndian
    }

    pub fn is_64_bit(&self) -> (r: bool)
        ensures
            r == is_64bit(self.magic),
    {
        self.magic == Magic::LittleEndian64 || self.magic == Magic::BigEndian64
    }

    pub fn is_little_endian(&self) -> (r: bool)
        ensures
            r == (endian_of(self.magic) == Endianness::Little),
    {
        self.magic == Magic::LittleEndian || self.magic == Magic::LittleEndian64
    }

    pub fn is_big_endian(&self) -> (r: bool)
        ensures
            r == (endian_of(self.magic) == Endianness::Big),
    {
        self.magic == Magic::BigEndian || self.magic == Magic::BigEndian64
    }
}

} // verus!
