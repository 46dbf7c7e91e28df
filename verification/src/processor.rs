//! The initialization transition: validate the caller-supplied accounts,
//! fill the escrow record, and describe the custody hand-over for the
//! runtime to perform.

use vstd::prelude::*;

use crate::error::EscrowError;
use crate::instruction::{spec_unpack_instruction, EscrowInstruction};
use crate::solana::{
    custody_authority_of, derive_custody_authority, rent_verdict, rent_verdict_of,
    spec_token_program_id, token_program_id,
};
use crate::state::{spec_pack, spec_unpack, Escrow, EscrowModel};

verus! {

broadcast use vstd::array::group_array_axioms;

/// One caller-supplied account reference, reduced to the values the
/// transition reads.
pub struct Account {
    /// The account's address.
    pub identity: [u8; 32],
    /// Whether the transaction carries this account's signature.
    pub is_signer: bool,
    /// The program that owns the account.
    pub owner: [u8; 32],
    /// The account's balance.
    pub lamports: u64,
    /// The account's stored data.
    pub data: Vec<u8>,
}

/// Mathematical image of an [`Account`].
pub ghost struct AccountModel {
    pub identity: Seq<u8>,
    pub is_signer: bool,
    pub owner: Seq<u8>,
    pub lamports: u64,
    pub data: Seq<u8>,
}

impl AccountModel {
    /// Addresses are exactly 32 bytes.
    pub open spec fn wf(self) -> bool {
        &&& self.identity.len() == 32
        &&& self.owner.len() == 32
    }
}

impl View for Account {
    type V = AccountModel;

    open spec fn view(&self) -> AccountModel {
        AccountModel {
            identity: self.identity@,
            is_signer: self.is_signer,
            owner: self.owner@,
            lamports: self.lamports,
            data: self.data@,
        }
    }
}

/// The models of a run of accounts.
pub open spec fn account_models(accounts: Seq<Account>) -> Seq<AccountModel> {
    accounts.map_values(|a: Account| a@)
}

/// Everything a successful initialization asks the runtime to do: overwrite
/// the storage account's data, and have the token program reassign the
/// custody account's owning authority.
#[derive(Debug)]
pub struct InitEffect {
    /// The new 105-byte content of the escrow storage account.
    pub escrow_data: Vec<u8>,
    /// The account whose owning authority must change.
    pub custody_account: [u8; 32],
    /// The authority that signs the reassignment: the initializer.
    pub current_authority: [u8; 32],
    /// The derived custody authority that takes ownership.
    pub new_authority: [u8; 32],
    /// The token program asked to perform the reassignment.
    pub token_program: [u8; 32],
}

/// Mathematical image of an [`InitEffect`].
pub ghost struct InitEffectModel {
    pub escrow_data: Seq<u8>,
    pub custody_account: Seq<u8>,
    pub current_authority: Seq<u8>,
    pub new_authority: Seq<u8>,
    pub token_program: Seq<u8>,
}

impl View for InitEffect {
    type V = InitEffectModel;

    open spec fn view(&self) -> InitEffectModel {
        InitEffectModel {
            escrow_data: self.escrow_data@,
            custody_account: self.custody_account@,
            current_authority: self.current_authority@,
            new_authority: self.new_authority@,
            token_program: self.token_program@,
        }
    }
}

/// The model of a transition result.
pub open spec fn result_model(r: Result<InitEffect, EscrowError>) -> Result<
    InitEffectModel,
    EscrowError,
> {
    match r {
        Ok(eff) => Ok(eff@),
        Err(e) => Err(e),
    }
}

/// The whole transition as a function of its inputs. The accounts arrive in
/// the wire order: initializer, custody account, receiving account, escrow
/// storage, rent oracle, token program. `rent_exempt` is the oracle's
/// verdict on the storage account, `None` when the oracle could not be read.
/// Checks run in this order and the first failure decides the error.
pub open spec fn spec_init_escrow(
    accounts: Seq<AccountModel>,
    amount: u64,
    program_id: Seq<u8>,
    rent_exempt: Option<bool>,
) -> Result<InitEffectModel, EscrowError> {
    if accounts.len() < 1 {
        Err(EscrowError::NotEnoughAccounts)
    } else if !accounts[0].is_signer {
        Err(EscrowError::MissingSignature)
    } else if accounts.len() < 3 {
        Err(EscrowError::NotEnoughAccounts)
    } else if accounts[2].owner != spec_token_program_id() {
        Err(EscrowError::WrongOwner)
    } else if accounts.len() < 5 {
        Err(EscrowError::NotEnoughAccounts)
    } else {
        match rent_exempt {
            None => Err(EscrowError::InvalidRentOracle),
            Some(false) => Err(EscrowError::NotRentExempt),
            Some(true) => match spec_unpack(accounts[3].data) {
                None => Err(EscrowError::InvalidEncoding),
                Some(stored) => if stored.is_initialized {
                    Err(EscrowError::AlreadyInitialized)
                } else {
                    match custody_authority_of(program_id) {
                        None => Err(EscrowError::AuthorityUnavailable),
                        Some(authority) => if accounts.len() < 6 {
                            Err(EscrowError::NotEnoughAccounts)
                        } else {
                            Ok(
                                InitEffectModel {
                                    escrow_data: spec_pack(
                                        EscrowModel {
                                            is_initialized: true,
                                            initializer_pubkey: accounts[0].identity,
                                            temp_token_account_pubkey: accounts[1].identity,
                                            initializer_token_to_receive_account_pubkey:
                                                accounts[2].identity,
                                            expected_amount: amount,
                                        },
                                    ),
                                    custody_account: accounts[1].identity,
                                    current_authority: accounts[0].identity,
                                    new_authority: authority,
                                    token_program: accounts[5].identity,
                                },
                            )
                        },
                    }
                },
            },
        }
    }
}

/// Byte-for-byte comparison of two addresses.
fn bytes32_eq(a: &[u8; 32], b: &[u8; 32]) -> (r: bool)
    ensures
        r == (a@ == b@),
{
    let mut i: usize = 0;
    while i < 32
        invariant
            i <= 32,
            forall|j: int| 0 <= j < i ==> a@[j] == b@[j],
        decreases 32 - i,
    {
        if a[i] != b[i] {
            return false;
        }
        i += 1;
    }
    proof {
        assert(a@ =~= b@);
    }
    true
}

/// The initialization processor.
pub struct Processor;

impl Processor {
    /// The transition with the rent oracle's verdict supplied by the caller:
    /// the returned result is exactly [`spec_init_escrow`] of the inputs.
    pub fn init_escrow_checked(
        accounts: &[Account],
        amount: u64,
        program_id: &[u8; 32],
        rent_exempt: Option<bool>,
    ) -> (r: Result<InitEffect, EscrowError>)
        ensures
            result_model(r) == spec_init_escrow(
                account_models(accounts@),
                amount,
                program_id@,
                rent_exempt,
            ),
    {
        let n = accounts.len();
        if n < 1 {
            return Err(EscrowError::NotEnoughAccounts);
        }
        let initializer = &accounts[0];
        if !initializer.is_signer {
            return Err(EscrowError::MissingSignature);
        }
        if n < 3 {
            return Err(EscrowError::NotEnoughAccounts);
        }
        let temp_token_account = &accounts[1];
        let token_to_receive_account = &accounts[2];
        let expected_owner = token_program_id();
        if !bytes32_eq(&token_to_receive_account.owner, &expected_owner) {
            return Err(EscrowError::WrongOwner);
        }
        if n < 5 {
            return Err(EscrowError::NotEnoughAccounts);
        }
        let escrow_account = &accounts[3];
        let rent_ok = match rent_exempt {
            Some(b) => b,
            None => {
                return Err(EscrowError::InvalidRentOracle);
            },
        };
        if !rent_ok {
            return Err(EscrowError::NotRentExempt);
        }
        let escrow_info = match Escrow::unpack_from_slice(escrow_account.data.as_slice()) {
            Ok(e) => e,
            Err(err) => {
                return Err(err);
            },
        };
        if escrow_info.is_initialized() {
            return Err(EscrowError::AlreadyInitialized);
        }
        let record = Escrow {
            is_initialized: true,
            initializer_pubkey: initializer.identity,
            temp_token_account_pubkey: temp_token_account.identity,
            initializer_token_to_receive_account_pubkey: token_to_receive_account.identity,
            expected_amount: amount,
        };
        let escrow_data = record.pack();
        let new_authority = match derive_custody_authority(program_id) {
            Some(a) => a,
            None => {
                return Err(EscrowError::AuthorityUnavailable);
            },
        };
        if n < 6 {
            return Err(EscrowError::NotEnoughAccounts);
        }
        let token_program = &accounts[5];
        let eff = InitEffect {
            escrow_data,
            custody_account: temp_token_account.identity,
            current_authority: initializer.identity,
            new_authority,
            token_program: token_program.identity,
        };
        Ok(eff)
    }

    /// The transition as the caller sees it: the rent oracle is consulted on
    /// the storage account's balance and data size, and the result is
    /// [`spec_init_escrow`] under the oracle's verdict [`rent_verdict_of`]
    /// (under no verdict when there is no oracle account to consult).
    pub fn process_init_escrow(accounts: &[Account], amount: u64, program_id: &[u8; 32]) -> (r:
        Result<InitEffect, EscrowError>)
        ensures
            accounts@.len() >= 5 ==> result_model(r) == spec_init_escrow(
                account_models(accounts@),
                amount,
                program_id@,
                rent_verdict_of(
                    accounts@[4]@.identity,
                    accounts@[4]@.data,
                    accounts@[3]@.lamports,
                    accounts@[3]@.data.len() as usize,
                ),
            ),
            accounts@.len() < 5 ==> result_model(r) == spec_init_escrow(
                account_models(accounts@),
                amount,
                program_id@,
                None,
            ),
    {
        let rent_exempt: Option<bool> = if accounts.len() >= 5 {
            let oracle = &accounts[4];
            let storage = &accounts[3];
            rent_verdict(&oracle.identity, &oracle.data, storage.lamports, storage.data.len())
        } else {
            None
        };
        Self::init_escrow_checked(accounts, amount, program_id, rent_exempt)
    }

    /// Entry point of the core: decode the requested action, then run the
    /// initialization transition.
    pub fn process(program_id: &[u8; 32], accounts: &[Account], instruction_data: &[u8]) -> (r:
        Result<InitEffect, EscrowError>)
        ensures
            spec_unpack_instruction(instruction_data@) is None ==> r == Err::<
                InitEffect,
                EscrowError,
            >(EscrowError::InvalidInstruction),
            spec_unpack_instruction(instruction_data@) is Some && accounts@.len() >= 5
                ==> result_model(r) == spec_init_escrow(
                account_models(accounts@),
                spec_unpack_instruction(instruction_data@).unwrap(),
                program_id@,
                rent_verdict_of(
                    accounts@[4]@.identity,
                    accounts@[4]@.data,
                    accounts@[3]@.lamports,
                    accounts@[3]@.data.len() as usize,
                ),
            ),
            spec_unpack_instruction(instruction_data@) is Some && accounts@.len() < 5
                ==> result_model(r) == spec_init_escrow(
                account_models(accounts@),
                spec_unpack_instruction(instruction_data@).unwrap(),
                program_id@,
                None,
            ),
    {
        let instruction = match EscrowInstruction::unpack(instruction_data) {
            Ok(i) => i,
            Err(e) => {
                return Err(e);
            },
        };
        match instruction {
            EscrowInstruction::InitEscrow { amount } => {
                let r = Self::process_init_escrow(accounts, amount, program_id);
                proof {
                    assert(spec_unpack_instruction(instruction_data@) == Some(amount));
                }
                r
            },
        }
    }
}

/// Signer enforcement: with the initializer not a signer, the transition
/// fails with `MissingSignature`, whatever else the inputs hold.
pub proof fn lemma_signer_enforced(
    accounts: Seq<AccountModel>,
    amount: u64,
    program_id: Seq<u8>,
    rent_exempt: Option<bool>,
)
    requires
        accounts.len() >= 1,
        !accounts[0].is_signer,
    ensures
        spec_init_escrow(accounts, amount, program_id, rent_exempt) == Err::<
            InitEffectModel,
            EscrowError,
        >(EscrowError::MissingSignature),
{
}

/// Owner enforcement: with the receiving account owned by anything but the
/// token program, the transition fails with `WrongOwner`.
pub proof fn lemma_owner_enforced(
    accounts: Seq<AccountModel>,
    amount: u64,
    program_id: Seq<u8>,
    rent_exempt: Option<bool>,
)
    requires
        accounts.len() >= 3,
        accounts[0].is_signer,
        accounts[2].owner != spec_token_program_id(),
    ensures
        spec_init_escrow(accounts, amount, program_id, rent_exempt) == Err::<
            InitEffectModel,
            EscrowError,
        >(EscrowError::WrongOwner),
{
}

/// Rent gate: with the earlier checks passing and the oracle denying
/// exemption, the transition fails with `NotRentExempt`.
pub proof fn lemma_rent_gate(
    accounts: Seq<AccountModel>,
    amount: u64,
    program_id: Seq<u8>,
)
    requires
        accounts.len() >= 5,
        accounts[0].is_signer,
        accounts[2].owner == spec_token_program_id(),
    ensures
        spec_init_escrow(accounts, amount, program_id, Some(false)) == Err::<
            InitEffectModel,
            EscrowError,
        >(EscrowError::NotRentExempt),
{
}

/// No double initialization: after a successful transition has written its
/// record, running the transition again on the same accounts fails with
/// `AlreadyInitialized`, whatever amount the second call asks for.
pub proof fn lemma_no_double_init(
    accounts: Seq<AccountModel>,
    accounts2: Seq<AccountModel>,
    amount: u64,
    amount2: u64,
    program_id: Seq<u8>,
    rent_exempt: Option<bool>,
    eff: InitEffectModel,
)
    requires
        forall|i: int| 0 <= i < accounts.len() ==> (#[trigger] accounts[i]).wf(),
        spec_init_escrow(accounts, amount, program_id, rent_exempt) == Ok::<
            InitEffectModel,
            EscrowError,
        >(eff),
        accounts2.len() == accounts.len(),
        forall|i: int| 0 <= i < accounts.len() && i != 3 ==> #[trigger] accounts2[i] == accounts[i],
        accounts2[3] == (AccountModel { data: eff.escrow_data, ..accounts[3] }),
    ensures
        spec_init_escrow(accounts2, amount2, program_id, rent_exempt) == Err::<
            InitEffectModel,
            EscrowError,
        >(EscrowError::AlreadyInitialized),
{
    let record = EscrowModel {
        is_initialized: true,
        initializer_pubkey: accounts[0].identity,
        temp_token_account_pubkey: accounts[1].identity,
        initializer_token_to_receive_account_pubkey: accounts[2].identity,
        expected_amount: amount,
    };
    assert(accounts[0].wf());
    assert(accounts[1].wf());
    assert(accounts[2].wf());
    crate::state::lemma_unpack_pack(record);
    assert(accounts2[0] == accounts[0]);
    assert(accounts2[2] == accounts[2]);
}

/// Contents of a successful transition: the written record is the initialized
/// slot holding exactly the requested terms, and the authority change names
/// the custody account, the initializer, and the derived authority.
pub proof fn lemma_init_effect_contents(
    accounts: Seq<AccountModel>,
    amount: u64,
    program_id: Seq<u8>,
    rent_exempt: Option<bool>,
    eff: InitEffectModel,
)
    requires
        forall|i: int| 0 <= i < accounts.len() ==> (#[trigger] accounts[i]).wf(),
        spec_init_escrow(accounts, amount, program_id, rent_exempt) == Ok::<
            InitEffectModel,
            EscrowError,
        >(eff),
    ensures
        spec_unpack(eff.escrow_data) == Some(
            EscrowModel {
                is_initialized: true,
                initializer_pubkey: accounts[0].identity,
                temp_token_account_pubkey: accounts[1].identity,
                initializer_token_to_receive_account_pubkey: accounts[2].identity,
                expected_amount: amount,
            },
        ),
        eff.custody_account == accounts[1].identity,
        eff.current_authority == accounts[0].identity,
        Some(eff.new_authority) == custody_authority_of(program_id),
        eff.token_program == accounts[5].identity,
{
    let record = EscrowModel {
        is_initialized: true,
        initializer_pubkey: accounts[0].identity,
        temp_token_account_pubkey: accounts[1].identity,
        initializer_token_to_receive_account_pubkey: accounts[2].identity,
        expected_amount: amount,
    };
    assert(accounts[0].wf());
    assert(accounts[1].wf());
    assert(accounts[2].wf());
    crate::state::lemma_unpack_pack(record);
}

/// Authority determinism: the custody authority is a function of the program
/// identity alone, so two derivations from the same identity agree.
pub proof fn lemma_authority_deterministic(
    program_id: Seq<u8>,
    first: Option<Seq<u8>>,
    second: Option<Seq<u8>>,
)
    requires
        first == custody_authority_of(program_id),
        second == custody_authority_of(program_id),
    ensures
        first == second,
{
}

} // verus!

