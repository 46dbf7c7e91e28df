use vstd::prelude::*;
use vstd::bytes::{
    lemma_auto_spec_u64_to_from_le_bytes, spec_u64_from_le_bytes, spec_u64_to_le_bytes,
    u64_from_le_bytes, u64_to_le_bytes,
};
use vstd::slice::slice_subrange;

use crate::error::EscrowError;

verus! {

broadcast use vstd::array::group_array_axioms;

/// Serialized size of an escrow record: 1 + 32 + 32 + 32 + 8 bytes.
pub const ESCROW_LEN: usize = 105;

/// The terms of one pending swap, addressed by a dedicated storage account.
#[derive(Clone, Copy, Debug, PartialEq, Eq)]
pub struct Escrow {
    /// Lifecycle flag; `false` means the slot is unused.
    pub is_initialized: bool,
    /// Party who created the escrow and may later cancel it.
    pub initializer_pubkey: [u8; 32],
    /// Intermediary account holding the locked asset.
    pub temp_token_account_pubkey: [u8; 32],
    /// Account into which the initializer expects the counterparty's asset.
    pub initializer_token_to_receive_account_pubkey: [u8; 32],
    /// Quantity the counterparty must supply to complete the swap.
    pub expected_amount: u64,
}

/// Mathematical image of an [`Escrow`]: the identity fields as byte
/// sequences.
pub ghost struct EscrowModel {
    pub is_initialized: bool,
    pub initializer_pubkey: Seq<u8>,
    pub temp_token_account_pubkey: Seq<u8>,
    pub initializer_token_to_receive_account_pubkey: Seq<u8>,
    pub expected_amount: u64,
}

impl EscrowModel {
    /// Each identity is exactly 32 bytes, as the fixed layout demands.
    pub open spec fn wf(self) -> bool {
        &&& self.initializer_pubkey.len() == 32
        &&& self.temp_token_account_pubkey.len() == 32
        &&& self.initializer_token_to_receive_account_pubkey.len() == 32
    }
}

impl View for Escrow {
    type V = EscrowModel;

    open spec fn view(&self) -> EscrowModel {
        EscrowModel {
            is_initialized: self.is_initialized,
            initializer_pubkey: self.initializer_pubkey@,
            temp_token_account_pubkey: self.temp_token_account_pubkey@,
            initializer_token_to_receive_account_pubkey:
                self.initializer_token_to_receive_account_pubkey@,
            expected_amount: self.expected_amount,
        }
    }
}

/// The single byte that encodes the lifecycle flag.
pub open spec fn spec_bool_byte(b: bool) -> u8 {
    if b {
        1u8
    } else {
        0u8
    }
}

/// The 105-byte wire form of a record: flag, the three identities, then the
/// expected amount in little-endian order.
pub open spec fn spec_pack(m: EscrowModel) -> Seq<u8> {
    seq![spec_bool_byte(m.is_initialized)] + m.initializer_pubkey + m.temp_token_account_pubkey
        + m.initializer_token_to_receive_account_pubkey + spec_u64_to_le_bytes(m.expected_amount)
}

/// Decoding of a byte sequence: defined exactly on 105-byte inputs whose
/// first byte is 0 or 1; any 32-byte identity pattern and any 8-byte amount
/// pattern is accepted.
pub open spec fn spec_unpack(s: Seq<u8>) -> Option<EscrowModel> {
    if s.len() != ESCROW_LEN {
        None
    } else if s[0] != 0 && s[0] != 1 {
        None
    } else {
        Some(
            EscrowModel {
                is_initialized: s[0] == 1,
                initializer_pubkey: s.subrange(1, 33),
                temp_token_account_pubkey: s.subrange(33, 65),
                initializer_token_to_receive_account_pubkey: s.subrange(65, 97),
                expected_amount: spec_u64_from_le_bytes(s.subrange(97, 105)),
            },
        )
    }
}

/// Fixed-size law: a record's encoding is always exactly 105 bytes.
pub proof fn lemma_pack_len(m: EscrowModel)
    requires
        m.wf(),
    ensures
        spec_pack(m).len() == ESCROW_LEN,
{
    lemma_auto_spec_u64_to_from_le_bytes();
}

/// Round-trip law: every well-formed record is recovered exactly from its
/// own encoding.
pub proof fn lemma_unpack_pack(m: EscrowModel)
    requires
        m.wf(),
    ensures
        spec_unpack(spec_pack(m)) == Some(m),
{
    lemma_auto_spec_u64_to_from_le_bytes();
    let s = spec_pack(m);
    assert(s.subrange(1, 33) =~= m.initializer_pubkey);
    assert(s.subrange(33, 65) =~= m.temp_token_account_pubkey);
    assert(s.subrange(65, 97) =~= m.initializer_token_to_receive_account_pubkey);
    assert(s.subrange(97, 105) =~= spec_u64_to_le_bytes(m.expected_amount));
}

/// Copies the 32 bytes of `src` that start at `start` into an array.
fn read32(src: &[u8], start: usize) -> (r: [u8; 32])
    requires
        start + 32 <= src@.len(),
    ensures
        r@ == src@.subrange(start as int, start + 32),
{
    let n: usize = src.len();
    let mut out: [u8; 32] = [0u8; 32];
    let mut i: usize = 0;
    while i < 32
        invariant
            i <= 32,
            start + 32 <= n == src@.len(),
            forall|j: int| 0 <= j < i ==> out@[j] == src@[start + j],
        decreases 32 - i,
    {
        out[i] = src[start + i];
        i += 1;
    }
    proof {
        assert(out@ =~= src@.subrange(start as int, start + 32));
    }
    out
}

impl Escrow {
    /// Lifecycle accessor.
    pub fn is_initialized(&self) -> (r: bool)
        ensures
            r == self.is_initialized,
    {
        self.is_initialized
    }

    /// Decodes a stored record. Succeeds exactly on 105-byte inputs whose
    /// flag byte is 0 or 1, and then returns the record the bytes encode.
    pub fn unpack_from_slice(src: &[u8]) -> (r: Result<Escrow, EscrowError>)
        ensures
            r is Ok <==> spec_unpack(src@) is Some,
            r matches Ok(e) ==> spec_unpack(src@) == Some(e@),
            r matches Err(e) ==> e == EscrowError::InvalidEncoding,
    {
        if src.len() != ESCROW_LEN {
            return Err(EscrowError::InvalidEncoding);
        }
        let flag: u8 = src[0];
        let is_initialized: bool = match flag {
            0 => false,
            1 => true,
            _ => {
                return Err(EscrowError::InvalidEncoding);
            },
        };
        let initializer_pubkey = read32(src, 1);
        let temp_token_account_pubkey = read32(src, 33);
        let initializer_token_to_receive_account_pubkey = read32(src, 65);
        let expected_amount = u64_from_le_bytes(slice_subrange(src, 97, 105));
        let e = Escrow {
            is_initialized,
            initializer_pubkey,
            temp_token_account_pubkey,
            initializer_token_to_receive_account_pubkey,
            expected_amount,
        };
        proof {
            assert(spec_unpack(src@) == Some(e@));
        }
        Ok(e)
    }

    /// Encodes the record into a fresh 105-byte buffer.
    pub fn pack(&self) -> (r: Vec<u8>)
        ensures
            r@ == spec_pack(self@),
            r@.len() == ESCROW_LEN,
    {
        let mut out: Vec<u8> = Vec::new();
        out.push(if self.is_initialized {
            1
        } else {
            0
        });
        out.extend_from_slice(self.initializer_pubkey.as_slice());
        out.extend_from_slice(self.temp_token_account_pubkey.as_slice());
        out.extend_from_slice(self.initializer_token_to_receive_account_pubkey.as_slice());
        let amount_bytes = u64_to_le_bytes(self.expected_amount);
        out.extend_from_slice(amount_bytes.as_slice());
        proof {
            lemma_auto_spec_u64_to_from_le_bytes();
            assert(out@ =~= spec_pack(self@));
        }
        out
    }

    /// Overwrites a 105-byte buffer with the record's encoding.
    pub fn pack_into_slice(&self, dst: &mut Vec<u8>)
        requires
            old(dst)@.len() == ESCROW_LEN,
        ensures
            final(dst)@ == spec_pack(self@),
            final(dst)@.len() == ESCROW_LEN,
    {
        let packed = self.pack();
        *dst = packed;
    }
}

} // verus!
