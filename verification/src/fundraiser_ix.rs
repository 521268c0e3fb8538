//! The fundraiser's instructions: which one is asked for, and the data that
//! each carries.
use vstd::prelude::*;
use vstd::bytes::{spec_u64_to_le_bytes, lemma_auto_spec_u64_to_from_le_bytes, u64_to_le_bytes};
use crate::error::ProgramError;
use crate::layout::{le_u64, read_u64, split_instruction};

verus! {

/// The instructions of the fundraiser program, by the first byte of the
/// instruction data: 0, 1, 2, 3 in the order declared.
#[derive(Clone, Copy, Debug, PartialEq, Eq, Structural)]
pub enum ProgramInstruction {
    Initialize,
    Contribute,
    CheckContribution,
    Refund,
}

impl ProgramInstruction {
    /// The byte that selects the instruction.
    pub open spec fn spec_tag(self) -> u8 {
        match self {
            ProgramInstruction::Initialize => 0,
            ProgramInstruction::Contribute => 1,
            ProgramInstruction::CheckContribution => 2,
            ProgramInstruction::Refund => 3,
        }
    }

    /// The byte that selects the instruction.
    pub fn tag(&self) -> (t: u8)
        ensures
            t == self.spec_tag(),
    {
        match self {
            ProgramInstruction::Initialize => 0,
            ProgramInstruction::Contribute => 1,
            ProgramInstruction::CheckContribution => 2,
            ProgramInstruction::Refund => 3,
        }
    }

    /// The instruction that the byte `tag` selects; any byte above 3 is
    /// invalid instruction data.
    pub fn decode(tag: u8) -> (r: Result<ProgramInstruction, ProgramError>)
        ensures
            match r {
                Ok(i) => i.spec_tag() == tag,
                Err(e) => tag > 3 && e == ProgramError::InvalidInstructionData,
            },
    {
        match tag {
            0 => Ok(ProgramInstruction::Initialize),
            1 => Ok(ProgramInstruction::Contribute),
            2 => Ok(ProgramInstruction::CheckContribution),
            3 => Ok(ProgramInstruction::Refund),
            _ => Err(ProgramError::InvalidInstructionData),
        }
    }
}

/// Splits the fundraiser's instruction data into the instruction its first
/// byte selects and the rest: empty data, or a first byte above 3, is
/// invalid instruction data.
pub fn decode_instruction(data: &[u8]) -> (r: Result<(ProgramInstruction, &[u8]), ProgramError>)
    ensures
        match r {
            Ok((i, rest)) => data@.len() > 0 && data@ == seq![i.spec_tag()] + rest@,
            Err(e) => e == ProgramError::InvalidInstructionData && (data@.len() == 0 || data@[0]
                > 3),
        },
{
    let (tag, rest) = split_instruction(data)?;
    let i = ProgramInstruction::decode(tag)?;
    Ok((i, rest))
}

/// The byte of an instruction reads back as that instruction.
pub proof fn lemma_instruction_tag_roundtrip(i: ProgramInstruction, j: ProgramInstruction)
    requires
        i.spec_tag() == j.spec_tag(),
    ensures
        i == j,
{
}

/// Data of the instruction that sets up a fundraiser.
///
/// Layout (16 bytes): `amount` at 0..8, `duration` at 8, `bump` at 9, then
/// padding.
#[derive(Clone, Copy, Debug, PartialEq, Eq, Structural)]
pub struct InitializeIxData {
    pub amount: u64,
    pub duration: u8,
    pub bump: u8,
}

/// Data of the instruction that contributes to a fundraiser.
///
/// Layout (16 bytes): `amount` at 0..8, `fundraiser_bump` at 8,
/// `contributor_bump` at 9, then padding.
#[derive(Clone, Copy, Debug, PartialEq, Eq, Structural)]
pub struct ContributeIxData {
    pub amount: u64,
    pub fundraiser_bump: u8,
    pub contributor_bump: u8,
}

/// The canonical bytes of a layout made of a `u64` and two bytes: the
/// padding is zero.
pub open spec fn u64_two_bytes(x: u64, a: u8, b: u8) -> Seq<u8> {
    spec_u64_to_le_bytes(x) + seq![a, b, 0u8, 0u8, 0u8, 0u8, 0u8, 0u8]
}

fn encode_u64_two_bytes(x: u64, a: u8, b: u8) -> (v: Vec<u8>)
    ensures
        v@ == u64_two_bytes(x, a, b),
        v@.len() == 16,
        le_u64(v@, 0) == x,
        v@[8] == a,
        v@[9] == b,
{
    proof {
        lemma_auto_spec_u64_to_from_le_bytes();
    }
    let mut v = u64_to_le_bytes(x);
    v.push(a);
    v.push(b);
    let mut i: usize = 0;
    while i < 6
        invariant
            0 <= i <= 6,
            v@ == spec_u64_to_le_bytes(x) + seq![a, b] + Seq::new(i as nat, |k: int| 0u8),
        decreases 6 - i,
    {
        v.push(0);
        proof {
            assert(spec_u64_to_le_bytes(x) + seq![a, b] + Seq::new((i + 1) as nat, |k: int| 0u8)
                =~= (spec_u64_to_le_bytes(x) + seq![a, b] + Seq::new(i as nat, |k: int| 0u8)).push(
                0u8,
            ));
        }
        i = i + 1;
    }
    proof {
        assert(v@ =~= u64_two_bytes(x, a, b));
        assert(v@.subrange(0, 8) =~= spec_u64_to_le_bytes(x));
    }
    v
}

impl Default for InitializeIxData {
    /// All fields zero.
    fn default() -> (r: InitializeIxData)
        ensures
            r == (InitializeIxData { amount: 0, duration: 0, bump: 0 }),
    {
        InitializeIxData { amount: 0, duration: 0, bump: 0 }
    }
}

impl Default for ContributeIxData {
    /// All fields zero.
    fn default() -> (r: ContributeIxData)
        ensures
            r == (ContributeIxData { amount: 0, fundraiser_bump: 0, contributor_bump: 0 }),
    {
        ContributeIxData { amount: 0, fundraiser_bump: 0, contributor_bump: 0 }
    }
}

impl InitializeIxData {
    /// Size of the instruction data.
    pub const LEN: usize = 16;

    /// `bytes` holds exactly this instruction data in its layout.
    pub open spec fn stored_in(self, bytes: Seq<u8>) -> bool {
        &&& bytes.len() == Self::LEN
        &&& self.amount == le_u64(bytes, 0)
        &&& self.duration == bytes[8]
        &&& self.bump == bytes[9]
    }

    /// Reads the instruction data, which must be exactly 16 bytes long.
    pub fn parse(data: &[u8]) -> (r: Result<InitializeIxData, ProgramError>)
        ensures
            match r {
                Ok(d) => d.stored_in(data@),
                Err(e) => data@.len() != Self::LEN && e == ProgramError::InvalidInstructionData,
            },
    {
        if data.len() != Self::LEN {
            return Err(ProgramError::InvalidInstructionData);
        }
        Ok(InitializeIxData { amount: read_u64(data, 0), duration: data[8], bump: data[9] })
    }

    /// The instruction data as bytes, with zero padding.
    pub fn to_bytes(&self) -> (v: Vec<u8>)
        ensures
            v@ == u64_two_bytes(self.amount, self.duration, self.bump),
            self.stored_in(v@),
    {
        encode_u64_two_bytes(self.amount, self.duration, self.bump)
    }
}

impl ContributeIxData {
    /// Size of the instruction data.
    pub const LEN: usize = 16;

    /// `bytes` holds exactly this instruction data in its layout.
    pub open spec fn stored_in(self, bytes: Seq<u8>) -> bool {
        &&& bytes.len() == Self::LEN
        &&& self.amount == le_u64(bytes, 0)
        &&& self.fundraiser_bump == bytes[8]
        &&& self.contributor_bump == bytes[9]
    }

    /// Reads the instruction data, which must be exactly 16 bytes long.
    pub fn parse(data: &[u8]) -> (r: Result<ContributeIxData, ProgramError>)
        ensures
            match r {
                Ok(d) => d.stored_in(data@),
                Err(e) => data@.len() != Self::LEN && e == ProgramError::InvalidInstructionData,
            },
    {
        if data.len() != Self::LEN {
            return Err(ProgramError::InvalidInstructionData);
        }
        Ok(
            ContributeIxData {
                amount: read_u64(data, 0),
                fundraiser_bump: data[8],
                contributor_bump: data[9],
            },
        )
    }

    /// The instruction data as bytes, with zero padding.
    pub fn to_bytes(&self) -> (v: Vec<u8>)
        ensures
            v@ == u64_two_bytes(self.amount, self.fundraiser_bump, self.contributor_bump),
            self.stored_in(v@),
    {
        encode_u64_two_bytes(self.amount, self.fundraiser_bump, self.contributor_bump)
    }
}

/// Instruction data read back from bytes that held it is that data.
pub proof fn lemma_initialize_data_roundtrip(
    written: InitializeIxData,
    read: InitializeIxData,
    bytes: Seq<u8>,
)
    requires
        written.stored_in(bytes),
        read.stored_in(bytes),
    ensures
        read == written,
{
}

/// Instruction data read back from bytes that held it is that data.
pub proof fn lemma_contribute_data_roundtrip(
    written: ContributeIxData,
    read: ContributeIxData,
    bytes: Seq<u8>,
)
    requires
        written.stored_in(bytes),
        read.stored_in(bytes),
    ensures
        read == written,
{
}

} // verus!
