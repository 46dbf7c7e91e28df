//! The trusted boundary to the Solana SDK: the token program's address, the
//! derived custody authority, and the rent-exemption oracle. Every claim made
//! here is a claim about the named SDK function, believed without proof.

use vstd::prelude::*;

use solana_program::account_info::AccountInfo;
use solana_program::pubkey::Pubkey;
use solana_program::rent::Rent;
use solana_program::sysvar::Sysvar;

verus! {

/// The token program's fixed address, byte for byte: the base58 form is
/// `TokenkegQfeZyiNwAJbNbGKPFXCWuBvf9Ss623VQ5DA`.
pub open spec fn spec_token_program_id() -> Seq<u8> {
    seq![
        6u8, 221u8, 246u8, 225u8, 215u8, 101u8, 161u8, 147u8, 217u8, 203u8, 225u8, 70u8, 206u8,
        235u8, 121u8, 172u8, 28u8, 180u8, 133u8, 237u8, 95u8, 91u8, 55u8, 145u8, 58u8, 140u8,
        245u8, 133u8, 126u8, 255u8, 0u8, 169u8,
    ]
}

/// Relies on `spl_token::id`: the token program's constant address, whose
/// byte form is stated in `spec_token_program_id`.
#[verifier::external_body]
pub(crate) fn token_program_id() -> (r: [u8; 32])
    ensures
        r@ == spec_token_program_id(),
{
    spl_token::id().to_bytes()
}

/// The custody authority that the runtime derives from the fixed seed
/// `escrow` and a program identity: a deterministic function of the program
/// identity alone, `None` only when no viable derivation exists for it.
pub uninterp spec fn custody_authority_of(program_id: Seq<u8>) -> Option<Seq<u8>>;

/// Relies on `Pubkey::try_find_program_address` with the single seed
/// `escrow`: its result depends on the program identity alone.
#[verifier::external_body]
pub(crate) fn derive_custody_authority(program_id: &[u8; 32]) -> (r: Option<[u8; 32]>)
    ensures
        (match r {
            Some(a) => custody_authority_of(program_id@) == Some(a@),
            None => custody_authority_of(program_id@) is None,
        }),
{
    let pid = Pubkey::new_from_array(*program_id);
    match Pubkey::try_find_program_address(&[b"escrow"], &pid) {
        Some((authority, _bump)) => Some(authority.to_bytes()),
        None => None,
    }
}

/// The rent oracle's verdict on a balance and a data size: a deterministic
/// function of the oracle account's identity and data, the balance, and the
/// size alone. `None` when the oracle account cannot be read, or when its
/// parameters are so large that the exemption rule's arithmetic would not
/// evaluate.
pub uninterp spec fn rent_verdict_of(
    identity: Seq<u8>,
    data: Seq<u8>,
    balance: u64,
    size: usize,
) -> Option<bool>;

/// Relies on `Rent::from_account_info` and `Rent::is_exempt`: the first
/// reads the oracle's parameters out of the rent sysvar account, and looks
/// only at that account's identity and data; the second compares the balance
/// against the minimum for the data size, a pure computation over those
/// parameters. The checked arithmetic leaves out oracle parameters on which
/// `Rent::minimum_balance` would overflow its multiplication and panic.
#[verifier::external_body]
pub(crate) fn rent_verdict(identity: &[u8; 32], data: &Vec<u8>, balance: u64, size: usize) -> (r:
    Option<bool>)
    ensures
        r == rent_verdict_of(identity@, data@, balance, size),
{
    let key = Pubkey::new_from_array(*identity);
    let owner_key = Pubkey::default();
    let mut lamports = 0u64;
    let mut bytes = data.clone();
    let info = AccountInfo::new(&key, false, false, &mut lamports, &mut bytes, &owner_key, false, 0);
    let rent = match Rent::from_account_info(&info) {
        Ok(rent) => rent,
        Err(_) => return None,
    };
    (size as u64)
        .checked_add(solana_program::rent::ACCOUNT_STORAGE_OVERHEAD)
        .and_then(|total| total.checked_mul(rent.lamports_per_byte_year))
        .map(|_| rent.is_exempt(balance, size))
}

} // verus!
