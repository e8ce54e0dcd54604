//! The instruction surface: a one-byte operation tag and one fixed-layout
//! payload per operation.

use vstd::prelude::*;
use crate::error::FundraiserError;

pub mod initialize;
pub mod contribute;
pub mod checker;
pub mod refund;

pub use initialize::{process_initialize, InitializeIxData};
pub use contribute::{process_contribute, ContributeIxData};
pub use checker::process_check_contribution;
pub use refund::process_refund;

verus! {

/// The four operations, selected by the leading instruction byte.
#[derive(Clone, Copy, Debug, PartialEq, Eq, Structural)]
pub enum ProgramInstruction {
    /// Open a campaign.
    Initialize,
    /// Deposit into a campaign's pooled custody.
    Contribute,
    /// Validate the target and pay the pool out to the owner.
    CheckContribution,
    /// Pay a contributor back after a failed campaign.
    Refund,
}

/// The operation a tag byte selects, if any.
pub open spec fn instruction_for_tag(tag: u8) -> Result<ProgramInstruction, FundraiserError> {
    if tag == 0 {
        Ok(ProgramInstruction::Initialize)
    } else if tag == 1 {
        Ok(ProgramInstruction::Contribute)
    } else if tag == 2 {
        Ok(ProgramInstruction::CheckContribution)
    } else if tag == 3 {
        Ok(ProgramInstruction::Refund)
    } else {
        Err(FundraiserError::InvalidInstructionData)
    }
}

impl ProgramInstruction {
    /// Map a tag byte to its operation; an unrecognized tag is invalid
    /// instruction data.
    pub fn try_from(value: &u8) -> (r: Result<ProgramInstruction, FundraiserError>)
        ensures
            r == instruction_for_tag(*value),
    {
        if *value == 0 {
            Ok(ProgramInstruction::Initialize)
        } else if *value == 1 {
            Ok(ProgramInstruction::Contribute)
        } else if *value == 2 {
            Ok(ProgramInstruction::CheckContribution)
        } else if *value == 3 {
            Ok(ProgramInstruction::Refund)
        } else {
            Err(FundraiserError::InvalidInstructionData)
        }
    }
}

/// Split raw instruction data into its operation and payload: the first
/// byte selects the operation and the rest is the operation's payload.
/// Empty data and unrecognized tags are invalid instruction data.
pub fn parse_instruction(data: &[u8]) -> (r: Result<(ProgramInstruction, Vec<u8>), FundraiserError>)
    ensures
        data@.len() == 0 ==> r == Result::<(ProgramInstruction, Vec<u8>), FundraiserError>::Err(
            FundraiserError::InvalidInstructionData,
        ),
        data@.len() > 0 ==> match instruction_for_tag(data@[0]) {
            Ok(ix) => r matches Ok(p) && p.0 == ix && p.1@ == data@.skip(1),
            Err(e) => r matches Err(re) && re == e,
        },
{
    if data.len() == 0 {
        return Err(FundraiserError::InvalidInstructionData);
    }
    let ix = match ProgramInstruction::try_from(&data[0]) {
        Ok(ix) => ix,
        Err(e) => {
            return Err(e);
        },
    };
    let mut payload: Vec<u8> = Vec::new();
    let mut i: usize = 1;
    while i < data.len()
        invariant
            1 <= i <= data@.len(),
            payload@ == data@.subrange(1, i as int),
        decreases data@.len() - i,
    {
        payload.push(data[i]);
        proof {
            assert(payload@ =~= data@.subrange(1, i + 1 as int));
        }
        i += 1;
    }
    proof {
        assert(payload@ =~= data@.skip(1));
    }
    Ok((ix, payload))
}

} // verus!
