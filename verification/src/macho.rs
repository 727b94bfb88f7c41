use crate::command::{command_matches, spec_command_err, LoadCommand};
use crate::error::Error;
use crate::extractor::{u32_at, Endianness};
use crate::header::{
    endian_of, header_matches, is_64bit, spec_header_err, spec_header_size, spec_magic, Header,
};
use vstd::prelude::*;

verus! {

/// The first failure, if any, of decoding `n` consecutive load commands,
/// the first of which starts at `p`; each one's declared size places the
/// next.
pub open spec fn spec_cmds_err(en: Endianness, is64: bool, d: Seq<u8>, p: int, n: nat) -> Option<
    Error,
>
    decreases n,
{
    if n == 0 {
        None
    } else {
        match spec_command_err(en, is64, d, p) {
            Some(er) => Some(er),
            None => spec_cmds_err(en, is64, d, p + u32_at(en, d, p + 4), (n - 1) as nat),
        }
    }
}

/// What a successfully decoded command sequence holds: `n` commands in
/// file order, each matching its own record's bytes.
pub open spec fn cmds_match(
    en: Endianness,
    is64: bool,
    d: Seq<u8>,
    p: int,
    n: nat,
    s: Seq<LoadCommand>,
) -> bool
    decreases n,
{
    &&& s.len() == n
    &&& (n > 0 ==> command_matches(en, is64, d, p, s[0]) && cmds_match(
        en,
        is64,
        d,
        p + u32_at(en, d, p + 4),
        (n - 1) as nat,
        s.drop_first(),
    ))
}

/// Where the record after `n` commands starts, when the first starts at
/// `p`: the sum of the declared sizes.
pub open spec fn pos_after(en: Endianness, d: Seq<u8>, p: int, n: nat) -> int
    decreases n,
{
    if n == 0 {
        p
    } else {
        pos_after(en, d, p + u32_at(en, d, p + 4), (n - 1) as nat)
    }
}

/// Stepping the position once more adds the declared size of the command
/// that follows the first `n`.
proof fn lemma_pos_after_step(en: Endianness, d: Seq<u8>, p: int, n: nat)
    ensures
        pos_after(en, d, p, n + 1) == pos_after(en, d, p, n) + u32_at(
            en,
            d,
            pos_after(en, d, p, n) + 4,
        ),
    decreases n,
{
    if n == 0 {
        assert(pos_after(en, d, p + u32_at(en, d, p + 4), 0) == p + u32_at(en, d, p + 4));
    } else {
        lemma_pos_after_step(en, d, p + u32_at(en, d, p + 4), (n - 1) as nat);
        assert(pos_after(en, d, p, n + 1) == pos_after(en, d, p + u32_at(en, d, p + 4), n));
        assert(pos_after(en, d, p, n) == pos_after(
            en,
            d,
            p + u32_at(en, d, p + 4),
            (n - 1) as nat,
        ));
    }
}

/// A matching command appended after `n` matching commands gives `n + 1`
/// matching commands.
proof fn lemma_cmds_match_push(
    en: Endianness,
    is64: bool,
    d: Seq<u8>,
    p: int,
    n: nat,
    s: Seq<LoadCommand>,
    c: LoadCommand,
)
    requires
        cmds_match(en, is64, d, p, n, s),
        command_matches(en, is64, d, pos_after(en, d, p, n), c),
    ensures
        cmds_match(en, is64, d, p, n + 1, s.push(c)),
    decreases n,
{
    if n == 0 {
        assert(s.push(c)[0] == c);
        assert(s.push(c).drop_first() =~= Seq::<LoadCommand>::empty());
        assert(cmds_match(en, is64, d, p + u32_at(en, d, p + 4), 0, s.push(c).drop_first()));
    } else {
        lemma_cmds_match_push(
            en,
            is64,
            d,
            p + u32_at(en, d, p + 4),
            (n - 1) as nat,
            s.drop_first(),
            c,
        );
        assert(s.push(c)[0] == s[0]);
        assert(s.push(c).drop_first() =~= s.drop_first().push(c));
        assert(cmds_match(en, is64, d, p + u32_at(en, d, p + 4), n, s.push(c).drop_first()));
    }
}

/// Likewise, a first error found after `n` clean commands is the first
/// error of the whole sequence.
proof fn lemma_cmds_err_extend(en: Endianness, is64: bool, d: Seq<u8>, p: int, n: nat, m: nat)
    requires
        spec_cmds_err(en, is64, d, p, n) == None::<Error>,
        n <= m,
    ensures
        spec_cmds_err(en, is64, d, p, m) == spec_cmds_err(
            en,
            is64,
            d,
            pos_after(en, d, p, n),
            (m - n) as nat,
        ),
    decreases n,
{
    if n > 0 {
        lemma_cmds_err_extend(en, is64, d, p + u32_at(en, d, p + 4), (n - 1) as nat, (m
            - 1) as nat);
    }
}

/// The whole decoded container: its header and its load commands, in file
/// order. Constructed once per decode; immutable thereafter.
#[derive(Debug, PartialEq, Eq)]
pub struct MachO {
    pub header: Header,
    pub commands: Vec<LoadCommand>,
}

impl MachO {
    /// Decode a whole container from the start of `data`: the header once,
    /// then exactly `ncmds` load commands. The first error aborts the whole
    /// decode; no partial container is returned.
    #[verifier::loop_isolation(false)]
    pub fn from_reader(data: &Vec<u8>) -> (r: Result<MachO, Error>)
        requires
            data@.len() + 0x1_0000_0000 <= usize::MAX,
        ensures
            ({
                let d = data@;
                match r {
                    Ok(m) => {
                        let en = endian_of(m.header.magic);
                        let is64 = is_64bit(m.header.magic);
                        let first = spec_header_size(m.header.magic);
                        &&& spec_header_err(d, 0) == None::<Error>
                        &&& header_matches(d, 0, m.header)
                        &&& spec_cmds_err(en, is64, d, first, m.header.ncmds as nat)
                            == None::<Error>
                        &&& cmds_match(en, is64, d, first, m.header.ncmds as nat, m.commands@)
                    },
                    Err(er) => match spec_header_err(d, 0) {
                        Some(e2) => er == e2,
                        None => match spec_magic(u32_at(Endianness::Little, d, 0)) {
                            Some(mg) => {
                                let en = endian_of(mg);
                                Some(er) == spec_cmds_err(
                                    en,
                                    is_64bit(mg),
                                    d,
                                    spec_header_size(mg),
                                    u32_at(en, d, 16) as nat,
                                )
                            },
                            None => false,
                        },
                    },
                }
            }),
    {
        let mut pos: usize = 0;
        let header = match Header::from_reader(data, &mut pos) {
            Ok(h) => h,
            Err(er) => { return Err(er) },
        };
        let ghost d = data@;
        let ghost en = endian_of(header.magic);
        let ghost is64 = is_64bit(header.magic);
        let ghost first = spec_header_size(header.magic);
        let mut commands: Vec<LoadCommand> = Vec::new();
        let mut i: u32 = 0;
        while i < header.ncmds
            invariant
                i <= header.ncmds,
                pos as int == pos_after(en, d, first, i as nat),
                cmds_match(en, is64, d, first, i as nat, commands@),
                spec_cmds_err(en, is64, d, first, i as nat) == None::<Error>,
            decreases header.ncmds - i,
        {
            let ghost pos0 = pos as int;
            match LoadCommand::from_reader(&header, data, &mut pos) {
                Ok(c) => {
                    proof {
                        lemma_cmds_match_push(en, is64, d, first, i as nat, commands@, c);
                        lemma_cmds_err_extend(en, is64, d, first, i as nat, (i + 1) as nat);
                        lemma_pos_after_step(en, d, first, i as nat);
                        assert(spec_cmds_err(
                            en,
                            is64,
                            d,
                            pos0 + u32_at(en, d, pos0 + 4),
                            0,
                        ) == None::<Error>);
                        assert(spec_cmds_err(en, is64, d, pos0, 1) == None::<Error>);
                    }
                    commands.push(c);
                },
                Err(er) => {
                    proof {
                        lemma_cmds_err_extend(en, is64, d, first, i as nat, header.ncmds as nat);
                    }
                    return Err(er);
                },
            }
            i = i + 1;
        }
        proof {
            lemma_cmds_err_extend(en, is64, d, first, i as nat, header.ncmds as nat);
        }
        Ok(MachO { header, commands })
    }
}

} // verus!
