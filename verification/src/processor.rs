//! The instruction processor: decodes an instruction, reads its storage slots
//! in positional order, validates, and writes records back.

use vstd::prelude::*;

use crate::error::{token_err, ProgramError, TokenError};
use crate::instructions::{spec_unpack, TokenInstruction};
use crate::state::{
    account_record_bytes, account_record_of, mint_record_bytes, mint_record_of, Account,
    AccountModel, Mint, Slot, SlotModel, ACCOUNT_LEN, ADDRESS_LEN, MINT_LEN,
};

verus! {

/// The views of all slots in a list.
pub open spec fn slot_views(slots: Vec<Slot>) -> Seq<SlotModel> {
    slots@.map_values(|s: Slot| s@)
}

/// Whether a slot carries an address of the fixed address length.
pub open spec fn slot_wf(s: SlotModel) -> bool {
    s.address.len() == ADDRESS_LEN
}

/// Whether every slot in the list carries a well-formed address.
pub open spec fn slots_wf(slots: Seq<SlotModel>) -> bool {
    forall|i: int| 0 <= i < slots.len() ==> slot_wf(#[trigger] slots[i])
}

/// `slots` with slot `i`'s byte region replaced.
pub open spec fn with_slot_data(slots: Seq<SlotModel>, i: int, data: Seq<u8>) -> Seq<SlotModel> {
    slots.update(i, SlotModel { data, ..slots[i] })
}

/// What initializing the mint record held in `data` yields: the new bytes and
/// the result. A record already initialized is left unchanged and rejected.
pub open spec fn mint_init_outcome(data: Seq<u8>) -> (Seq<u8>, Result<(), ProgramError>) {
    if data.len() < MINT_LEN {
        (data, Err(ProgramError::InvalidAccountData))
    } else if mint_record_of(data).is_initialized {
        (data, Err(token_err(TokenError::AlreadyInUse)))
    } else {
        (mint_record_bytes(Mint { is_initialized: true }) + data.skip(MINT_LEN as int), Ok(()))
    }
}

/// What the shared account-initialization sub-procedure yields on `data`,
/// seeding the given mint address, owner address, and amount. A record
/// already initialized is left unchanged and rejected.
pub open spec fn account_init_outcome(
    data: Seq<u8>,
    mint_address: Seq<u8>,
    owner_address: Seq<u8>,
    amount: u8,
) -> (Seq<u8>, Result<(), ProgramError>) {
    if data.len() < ACCOUNT_LEN {
        (data, Err(ProgramError::InvalidAccountData))
    } else if account_record_of(data).is_initialized {
        (data, Err(token_err(TokenError::AlreadyInUse)))
    } else {
        let rec = AccountModel {
            mint: mint_address,
            owner: owner_address,
            amount,
            is_initialized: true,
        };
        (account_record_bytes(rec) + data.skip(ACCOUNT_LEN as int), Ok(()))
    }
}

/// What `InitializeMint` yields on slots `[mint, account, owner]`: the mint
/// record is initialized first and committed, then the account record is
/// seeded with one unit, the mint slot's address, and the owner slot's
/// address. When the account step fails, the committed mint write remains:
/// the two writes are deliberately not atomic.
pub open spec fn initialize_mint_outcome(slots: Seq<SlotModel>) -> (
    Seq<SlotModel>,
    Result<(), ProgramError>,
) {
    if slots.len() < 3 {
        (slots, Err(ProgramError::NotEnoughAccountKeys))
    } else {
        let (mint_data, mint_res) = mint_init_outcome(slots[0].data);
        if mint_res is Err {
            (slots, mint_res)
        } else {
            let committed = with_slot_data(slots, 0, mint_data);
            let (account_data, account_res) = account_init_outcome(
                slots[1].data,
                slots[0].address,
                slots[2].address,
                1,
            );
            if account_res is Err {
                (committed, account_res)
            } else {
                (with_slot_data(committed, 1, account_data), Ok(()))
            }
        }
    }
}

/// What `InitializeAccount` yields on slots `[account, mint, owner]`: the
/// account record is seeded empty, with the mint slot's address and the owner
/// slot's address.
pub open spec fn initialize_account_outcome(slots: Seq<SlotModel>) -> (
    Seq<SlotModel>,
    Result<(), ProgramError>,
) {
    if slots.len() < 3 {
        (slots, Err(ProgramError::NotEnoughAccountKeys))
    } else {
        let (account_data, account_res) = account_init_outcome(
            slots[0].data,
            slots[1].address,
            slots[2].address,
            0,
        );
        if account_res is Err {
            (slots, account_res)
        } else {
            (with_slot_data(slots, 0, account_data), Ok(()))
        }
    }
}

/// What validating the signer against a recorded owner yields: the signer
/// slot's address must equal the recorded owner, and the slot must carry an
/// authorization proof; the address is checked first.
pub open spec fn validate_owner_outcome(expected_owner: Seq<u8>, signer: SlotModel) -> Result<
    (),
    ProgramError,
> {
    if expected_owner != signer.address {
        Err(token_err(TokenError::OwnerMismatch))
    } else if !signer.is_signer {
        Err(ProgramError::MissingRequiredSignature)
    } else {
        Ok(())
    }
}

/// What `Transfer` yields on slots `[source, destination, signer]`. The
/// checks run in a fixed order: source decoded and initialized, signer
/// address equal to the source's recorded owner, authorization proof present,
/// destination decoded and initialized, source amount nonzero, mint addresses
/// equal. Only then does the whole unit move; every failure leaves all slots
/// unchanged.
pub open spec fn transfer_outcome(slots: Seq<SlotModel>) -> (
    Seq<SlotModel>,
    Result<(), ProgramError>,
) {
    if slots.len() < 3 {
        (slots, Err(ProgramError::NotEnoughAccountKeys))
    } else if slots[0].data.len() < ACCOUNT_LEN {
        (slots, Err(ProgramError::InvalidAccountData))
    } else {
        let source = account_record_of(slots[0].data);
        let owner_check = validate_owner_outcome(source.owner, slots[2]);
        if !source.is_initialized {
            (slots, Err(token_err(TokenError::NotInitialized)))
        } else if owner_check is Err {
            (slots, owner_check)
        } else if slots[1].data.len() < ACCOUNT_LEN {
            (slots, Err(ProgramError::InvalidAccountData))
        } else {
            let destination = account_record_of(slots[1].data);
            if !destination.is_initialized {
                (slots, Err(token_err(TokenError::NotInitialized)))
            } else if source.amount == 0 {
                (slots, Err(token_err(TokenError::InsufficientFunds)))
            } else if source.mint != destination.mint {
                (slots, Err(token_err(TokenError::MintMismatch)))
            } else {
                let drained = AccountModel { amount: 0, ..source };
                let filled = AccountModel { amount: 1, ..destination };
                let after_source = with_slot_data(
                    slots,
                    0,
                    account_record_bytes(drained) + slots[0].data.skip(ACCOUNT_LEN as int),
                );
                let after_both = with_slot_data(
                    after_source,
                    1,
                    account_record_bytes(filled) + slots[1].data.skip(ACCOUNT_LEN as int),
                );
                (after_both, Ok(()))
            }
        }
    }
}

/// What one invocation yields: the instruction named by `input` applied to
/// `slots`, or `InvalidInstruction` with the slots unchanged.
pub open spec fn process_outcome(slots: Seq<SlotModel>, input: Seq<u8>) -> (
    Seq<SlotModel>,
    Result<(), ProgramError>,
) {
    match spec_unpack(input) {
        Err(e) => (slots, Err(e)),
        Ok(TokenInstruction::InitializeMint) => initialize_mint_outcome(slots),
        Ok(TokenInstruction::InitializeAccount) => initialize_account_outcome(slots),
        Ok(TokenInstruction::Transfer) => transfer_outcome(slots),
    }
}

/// Copies a byte string.
fn clone_bytes(src: &Vec<u8>) -> (r: Vec<u8>)
    ensures
        r@ == src@,
{
    let mut r: Vec<u8> = Vec::new();
    let mut i: usize = 0;
    while i < src.len()
        invariant
            i <= src@.len(),
            r@ == src@.subrange(0, i as int),
        decreases src@.len() - i,
    {
        r.push(src[i]);
        i = i + 1;
        proof {
            assert(r@ =~= src@.subrange(0, i as int));
        }
    }
    proof {
        assert(r@ =~= src@);
    }
    r
}

/// Compares two byte strings for equality.
fn bytes_eq(a: &Vec<u8>, b: &Vec<u8>) -> (r: bool)
    ensures
        r == (a@ == b@),
{
    if a.len() != b.len() {
        return false;
    }
    let mut i: usize = 0;
    while i < a.len()
        invariant
            i <= a@.len(),
            a@.len() == b@.len(),
            forall|k: int| 0 <= k < i ==> a@[k] == b@[k],
        decreases a@.len() - i,
    {
        if a[i] != b[i] {
            return false;
        }
        i = i + 1;
    }
    proof {
        assert(a@ =~= b@);
    }
    true
}

/// Initializes the mint record held in `data`, rejecting a record that is
/// already in use.
fn init_mint_record(data: &mut Vec<u8>) -> (r: Result<(), ProgramError>)
    ensures
        final(data)@ == mint_init_outcome(old(data)@).0,
        r == mint_init_outcome(old(data)@).1,
{
    let mint = match Mint::unpack_from_slice(data.as_slice()) {
        Ok(m) => m,
        Err(e) => {
            return Err(e);
        },
    };
    if mint.is_initialized() {
        return Err(ProgramError::from(TokenError::AlreadyInUse));
    }
    let updated = Mint { is_initialized: true };
    updated.pack_into_slice(data.as_mut_slice());
    Ok(())
}

/// Runs the shared account-initialization sub-procedure on the record held in
/// `data`, seeding the given mint address, owner address, and amount.
fn init_account_record(
    amount: u8,
    data: &mut Vec<u8>,
    mint_address: &Vec<u8>,
    owner_address: &Vec<u8>,
) -> (r: Result<(), ProgramError>)
    requires
        mint_address@.len() == ADDRESS_LEN,
        owner_address@.len() == ADDRESS_LEN,
    ensures
        final(data)@ == account_init_outcome(old(data)@, mint_address@, owner_address@, amount).0,
        r == account_init_outcome(old(data)@, mint_address@, owner_address@, amount).1,
{
    let account = match Account::unpack_from_slice(data.as_slice()) {
        Ok(a) => a,
        Err(e) => {
            return Err(e);
        },
    };
    if account.is_initialized() {
        return Err(ProgramError::from(TokenError::AlreadyInUse));
    }
    let updated = Account {
        mint: clone_bytes(mint_address),
        owner: clone_bytes(owner_address),
        amount,
        is_initialized: true,
    };
    updated.pack_into_slice(data.as_mut_slice());
    Ok(())
}

/// Validates the signer of a transfer: the signer slot must carry the
/// source's recorded owner address and an authorization proof.
fn validate_owner(expected_owner: &Vec<u8>, signer: &Slot) -> (r: Result<(), ProgramError>)
    ensures
        r == validate_owner_outcome(expected_owner@, signer@),
{
    if !bytes_eq(expected_owner, &signer.address) {
        return Err(ProgramError::from(TokenError::OwnerMismatch));
    }
    if !signer.is_signer {
        return Err(ProgramError::MissingRequiredSignature);
    }
    Ok(())
}

/// Applies `InitializeMint` to slots `[mint, account, owner]`.
pub fn process_initialize_mint(slots: &mut Vec<Slot>) -> (r: Result<(), ProgramError>)
    requires
        slots_wf(slot_views(*old(slots))),
    ensures
        slot_views(*final(slots)) == initialize_mint_outcome(slot_views(*old(slots))).0,
        r == initialize_mint_outcome(slot_views(*old(slots))).1,
{
    if slots.len() < 3 {
        return Err(ProgramError::NotEnoughAccountKeys);
    }
    let mint_address = clone_bytes(&slots[0].address);
    let owner_address = clone_bytes(&slots[2].address);
    match init_mint_record(&mut slots[0].data) {
        Ok(()) => {},
        Err(e) => {
            proof {
                assert(slot_views(*slots) =~~= slot_views(*old(slots)));
            }
            return Err(e);
        },
    }
    proof {
        assert(slot_views(*slots) =~~= with_slot_data(
            slot_views(*old(slots)),
            0,
            mint_init_outcome(slot_views(*old(slots))[0].data).0,
        ));
    }
    match init_account_record(1, &mut slots[1].data, &mint_address, &owner_address) {
        Ok(()) => {},
        Err(e) => {
            proof {
                assert(slot_views(*slots) =~~= initialize_mint_outcome(slot_views(*old(slots))).0);
            }
            return Err(e);
        },
    }
    proof {
        assert(slot_views(*slots) =~~= initialize_mint_outcome(slot_views(*old(slots))).0);
    }
    Ok(())
}

/// Applies `InitializeAccount` to slots `[account, mint, owner]`.
pub fn process_initialize_account(slots: &mut Vec<Slot>) -> (r: Result<(), ProgramError>)
    requires
        slots_wf(slot_views(*old(slots))),
    ensures
        slot_views(*final(slots)) == initialize_account_outcome(slot_views(*old(slots))).0,
        r == initialize_account_outcome(slot_views(*old(slots))).1,
{
    if slots.len() < 3 {
        return Err(ProgramError::NotEnoughAccountKeys);
    }
    let mint_address = clone_bytes(&slots[1].address);
    let owner_address = clone_bytes(&slots[2].address);
    match init_account_record(0, &mut slots[0].data, &mint_address, &owner_address) {
        Ok(()) => {},
        Err(e) => {
            proof {
                assert(slot_views(*slots) =~~= slot_views(*old(slots)));
            }
            return Err(e);
        },
    }
    proof {
        assert(slot_views(*slots) =~~= initialize_account_outcome(slot_views(*old(slots))).0);
    }
    Ok(())
}

/// Applies `Transfer` to slots `[source, destination, signer]`.
pub fn process_transfer(slots: &mut Vec<Slot>) -> (r: Result<(), ProgramError>)
    ensures
        slot_views(*final(slots)) == transfer_outcome(slot_views(*old(slots))).0,
        r == transfer_outcome(slot_views(*old(slots))).1,
{
    if slots.len() < 3 {
        return Err(ProgramError::NotEnoughAccountKeys);
    }
    let source = match Account::unpack_from_slice(slots[0].data.as_slice()) {
        Ok(a) => a,
        Err(e) => {
            return Err(e);
        },
    };
    if !source.is_initialized() {
        return Err(ProgramError::from(TokenError::NotInitialized));
    }
    match validate_owner(&source.owner, &slots[2]) {
        Ok(()) => {},
        Err(e) => {
            return Err(e);
        },
    }
    let destination = match Account::unpack_from_slice(slots[1].data.as_slice()) {
        Ok(a) => a,
        Err(e) => {
            return Err(e);
        },
    };
    if !destination.is_initialized() {
        return Err(ProgramError::from(TokenError::NotInitialized));
    }
    if source.amount == 0 {
        return Err(ProgramError::from(TokenError::InsufficientFunds));
    }
    if !bytes_eq(&source.mint, &destination.mint) {
        return Err(ProgramError::from(TokenError::MintMismatch));
    }
    let mut source = source;
    let mut destination = destination;
    source.amount = 0;
    destination.amount = 1;
    source.pack_into_slice(slots[0].data.as_mut_slice());
    destination.pack_into_slice(slots[1].data.as_mut_slice());
    proof {
        assert(slot_views(*slots) =~~= transfer_outcome(slot_views(*old(slots))).0);
    }
    Ok(())
}

/// Applies the instruction encoded in `input` to `slots`.
pub fn process(slots: &mut Vec<Slot>, input: &[u8]) -> (r: Result<(), ProgramError>)
    requires
        slots_wf(slot_views(*old(slots))),
    ensures
        slot_views(*final(slots)) == process_outcome(slot_views(*old(slots)), input@).0,
        r == process_outcome(slot_views(*old(slots)), input@).1,
{
    let instruction = match TokenInstruction::unpack(input) {
        Ok(i) => i,
        Err(e) => {
            return Err(e);
        },
    };
    match instruction {
        TokenInstruction::InitializeMint => process_initialize_mint(slots),
        TokenInstruction::InitializeAccount => process_initialize_account(slots),
        TokenInstruction::Transfer => process_transfer(slots),
    }
}

} // verus!
