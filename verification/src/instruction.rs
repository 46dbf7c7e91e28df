use vstd::prelude::*;
use vstd::bytes::{spec_u64_from_le_bytes, u64_from_le_bytes};
use vstd::slice::slice_subrange;

use crate::error::EscrowError;

verus! {

/// The actions a caller can request. Only initialization is supported.
#[derive(Debug)]
pub enum EscrowInstruction {
    /// Start the trade by storing its terms and handing custody of the
    /// locked asset to the derived authority.
    InitEscrow {
        /// Quantity of the counterparty's asset the initializer expects.
        amount: u64,
    },
}

/// The amount carried by a well-formed instruction payload: a zero
/// discriminant byte followed by at least eight little-endian amount bytes.
pub open spec fn spec_unpack_instruction(data: Seq<u8>) -> Option<u64> {
    if data.len() < 9 {
        None
    } else if data[0] != 0 {
        None
    } else {
        Some(spec_u64_from_le_bytes(data.subrange(1, 9)))
    }
}

impl EscrowInstruction {
    /// Decodes an instruction payload. Succeeds exactly when the payload is
    /// at least nine bytes long and its first byte selects initialization.
    pub fn unpack(input: &[u8]) -> (r: Result<EscrowInstruction, EscrowError>)
        ensures
            r is Ok <==> spec_unpack_instruction(input@) is Some,
            r matches Ok(i) ==> (i matches EscrowInstruction::InitEscrow { amount }
                && spec_unpack_instruction(input@) == Some(amount)),
            r matches Err(e) ==> e == EscrowError::InvalidInstruction,
    {
        if input.len() < 9 {
            return Err(EscrowError::InvalidInstruction);
        }
        let tag: u8 = input[0];
        if tag != 0 {
            return Err(EscrowError::InvalidInstruction);
        }
        let amount = u64_from_le_bytes(slice_subrange(input, 1, 9));
        Ok(EscrowInstruction::InitEscrow { amount })
    }
}

} // verus!
