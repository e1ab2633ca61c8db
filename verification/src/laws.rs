//! Laws of the ledger, stated over the processor's transition functions and
//! proved once for all inputs.

use vstd::prelude::*;

use crate::error::{token_err, ProgramError, TokenError};
use crate::processor::{
    account_init_outcome, initialize_account_outcome, initialize_mint_outcome, mint_init_outcome,
    slot_wf, slots_wf, transfer_outcome,
};
use crate::state::{
    account_record_bytes, account_record_of, flag_byte, mint_record_of, AccountModel, SlotModel,
    ACCOUNT_LEN, ADDRESS_LEN, MINT_LEN,
};

verus! {

/// Decoding an encoded account record gives the record back, whatever bytes
/// follow it in the buffer.
pub proof fn lemma_account_record_round_trip(rec: AccountModel, tail: Seq<u8>)
    requires
        rec.mint.len() == ADDRESS_LEN,
        rec.owner.len() == ADDRESS_LEN,
    ensures
        account_record_of(account_record_bytes(rec) + tail) == rec,
{
    let b = account_record_bytes(rec) + tail;
    assert(b.subrange(0, 32) =~= rec.mint);
    assert(b.subrange(32, 64) =~= rec.owner);
    assert(b[64] == rec.amount);
    assert(b[65] == flag_byte(rec.is_initialized));
}

/// Law: an uninitialized mint record is initialized exactly once. The first
/// initialization succeeds and sets the flag; a second attempt fails with
/// `AlreadyInUse` and leaves the record's bytes unchanged.
pub proof fn lemma_mint_init_exactly_once(data: Seq<u8>)
    requires
        data.len() >= MINT_LEN,
        !mint_record_of(data).is_initialized,
    ensures
        mint_init_outcome(data).1 == Ok::<(), ProgramError>(()),
        mint_record_of(mint_init_outcome(data).0).is_initialized,
        mint_init_outcome(mint_init_outcome(data).0).1 == Err::<(), ProgramError>(
            token_err(TokenError::AlreadyInUse),
        ),
        mint_init_outcome(mint_init_outcome(data).0).0 == mint_init_outcome(data).0,
{
    let d1 = mint_init_outcome(data).0;
    assert(d1[0] == 1u8);
    assert(d1.len() == data.len());
}

/// Law: an uninitialized account record is initialized exactly once. The
/// first initialization succeeds and sets the flag; a second attempt, with
/// whatever seed values, fails with `AlreadyInUse` and leaves the record's
/// bytes unchanged.
pub proof fn lemma_account_init_exactly_once(
    data: Seq<u8>,
    mint_address: Seq<u8>,
    owner_address: Seq<u8>,
    amount: u8,
    mint_address2: Seq<u8>,
    owner_address2: Seq<u8>,
    amount2: u8,
)
    requires
        data.len() >= ACCOUNT_LEN,
        !account_record_of(data).is_initialized,
        mint_address.len() == ADDRESS_LEN,
        owner_address.len() == ADDRESS_LEN,
    ensures
        account_init_outcome(data, mint_address, owner_address, amount).1 == Ok::<
            (),
            ProgramError,
        >(()),
        account_record_of(
            account_init_outcome(data, mint_address, owner_address, amount).0,
        ).is_initialized,
        account_init_outcome(
            account_init_outcome(data, mint_address, owner_address, amount).0,
            mint_address2,
            owner_address2,
            amount2,
        ).1 == Err::<(), ProgramError>(token_err(TokenError::AlreadyInUse)),
        account_init_outcome(
            account_init_outcome(data, mint_address, owner_address, amount).0,
            mint_address2,
            owner_address2,
            amount2,
        ).0 == account_init_outcome(data, mint_address, owner_address, amount).0,
{
    let rec = AccountModel {
        mint: mint_address,
        owner: owner_address,
        amount,
        is_initialized: true,
    };
    let d1 = account_init_outcome(data, mint_address, owner_address, amount).0;
    lemma_account_record_round_trip(rec, data.skip(ACCOUNT_LEN as int));
    assert(d1.len() == data.len());
    assert(account_record_of(d1) == rec);
}

/// Law: a successful `InitializeMint` on slots `[mint, account, owner]`
/// leaves the seeded account initialized, holding one unit, associated with
/// the mint slot's address and owned by the owner slot's address.
pub proof fn lemma_initialize_mint_seeds_account(slots: Seq<SlotModel>)
    requires
        slots.len() >= 3,
        slots_wf(slots),
        initialize_mint_outcome(slots).1 == Ok::<(), ProgramError>(()),
    ensures
        ({
            let seeded = account_record_of(initialize_mint_outcome(slots).0[1].data);
            &&& seeded.is_initialized
            &&& seeded.amount == 1
            &&& seeded.mint == slots[0].address
            &&& seeded.owner == slots[2].address
        }),
{
    let rec = AccountModel {
        mint: slots[0].address,
        owner: slots[2].address,
        amount: 1,
        is_initialized: true,
    };
    assert(slot_wf(slots[0]));
    assert(slot_wf(slots[2]));
    lemma_account_record_round_trip(rec, slots[1].data.skip(ACCOUNT_LEN as int));
}

/// Law: a successful `InitializeAccount` on slots `[account, mint, owner]`
/// leaves the account initialized, empty, associated with the mint slot's
/// address and owned by the owner slot's address.
pub proof fn lemma_initialize_account_seeds_account(slots: Seq<SlotModel>)
    requires
        slots.len() >= 3,
        slots_wf(slots),
        initialize_account_outcome(slots).1 == Ok::<(), ProgramError>(()),
    ensures
        ({
            let seeded = account_record_of(initialize_account_outcome(slots).0[0].data);
            &&& seeded.is_initialized
            &&& seeded.amount == 0
            &&& seeded.mint == slots[1].address
            &&& seeded.owner == slots[2].address
        }),
{
    let rec = AccountModel {
        mint: slots[1].address,
        owner: slots[2].address,
        amount: 0,
        is_initialized: true,
    };
    assert(slot_wf(slots[1]));
    assert(slot_wf(slots[2]));
    lemma_account_record_round_trip(rec, slots[0].data.skip(ACCOUNT_LEN as int));
}

/// Law: a transfer from an initialized source holding the unit to an
/// initialized destination of the same mint, signed by the source's recorded
/// owner, succeeds and moves the whole unit: the source is left with zero and
/// the destination with one.
pub proof fn lemma_transfer_moves_unit(slots: Seq<SlotModel>)
    requires
        slots.len() >= 3,
        slots[0].data.len() >= ACCOUNT_LEN,
        slots[1].data.len() >= ACCOUNT_LEN,
        account_record_of(slots[0].data).is_initialized,
        account_record_of(slots[1].data).is_initialized,
        account_record_of(slots[0].data).amount == 1,
        account_record_of(slots[1].data).amount == 0,
        account_record_of(slots[0].data).mint == account_record_of(slots[1].data).mint,
        account_record_of(slots[0].data).owner == slots[2].address,
        slots[2].is_signer,
    ensures
        transfer_outcome(slots).1 == Ok::<(), ProgramError>(()),
        account_record_of(transfer_outcome(slots).0[0].data).amount == 0,
        account_record_of(transfer_outcome(slots).0[1].data).amount == 1,
{
    let source = account_record_of(slots[0].data);
    let destination = account_record_of(slots[1].data);
    assert(source.mint.len() == ADDRESS_LEN);
    assert(source.owner.len() == ADDRESS_LEN);
    assert(destination.mint.len() == ADDRESS_LEN);
    assert(destination.owner.len() == ADDRESS_LEN);
    lemma_account_record_round_trip(
        AccountModel { amount: 0, ..source },
        slots[0].data.skip(ACCOUNT_LEN as int),
    );
    lemma_account_record_round_trip(
        AccountModel { amount: 1, ..destination },
        slots[1].data.skip(ACCOUNT_LEN as int),
    );
}

/// Law: a transfer whose source holds no unit fails with `InsufficientFunds`
/// and leaves every slot byte-for-byte unchanged, whatever the mint fields
/// hold. The checks that run earlier must pass: both endpoints decoded and
/// initialized, and the signer equal to the source's recorded owner with
/// proof present.
pub proof fn lemma_transfer_insufficient_funds(slots: Seq<SlotModel>)
    requires
        slots.len() >= 3,
        slots[0].data.len() >= ACCOUNT_LEN,
        slots[1].data.len() >= ACCOUNT_LEN,
        account_record_of(slots[0].data).is_initialized,
        account_record_of(slots[1].data).is_initialized,
        account_record_of(slots[0].data).owner == slots[2].address,
        slots[2].is_signer,
        account_record_of(slots[0].data).amount == 0,
    ensures
        transfer_outcome(slots).1 == Err::<(), ProgramError>(
            token_err(TokenError::InsufficientFunds),
        ),
        transfer_outcome(slots).0 == slots,
{
}

/// Law: a transfer whose signer address differs from the source's recorded
/// owner fails with `OwnerMismatch` and leaves every slot unchanged, even
/// when the signer carries a valid authorization proof for its own (wrong)
/// address. Only the earlier checks must pass: the source decoded and
/// initialized.
pub proof fn lemma_transfer_owner_mismatch(slots: Seq<SlotModel>)
    requires
        slots.len() >= 3,
        slots[0].data.len() >= ACCOUNT_LEN,
        account_record_of(slots[0].data).is_initialized,
        account_record_of(slots[0].data).owner != slots[2].address,
    ensures
        transfer_outcome(slots).1 == Err::<(), ProgramError>(token_err(TokenError::OwnerMismatch)),
        transfer_outcome(slots).0 == slots,
{
}

/// Law: a transfer between accounts of different mints fails with
/// `MintMismatch` and leaves every slot unchanged; the mint comparison runs
/// only after the ownership and funds checks pass.
pub proof fn lemma_transfer_mint_mismatch(slots: Seq<SlotModel>)
    requires
        slots.len() >= 3,
        slots[0].data.len() >= ACCOUNT_LEN,
        slots[1].data.len() >= ACCOUNT_LEN,
        account_record_of(slots[0].data).is_initialized,
        account_record_of(slots[1].data).is_initialized,
        account_record_of(slots[0].data).owner == slots[2].address,
        slots[2].is_signer,
        account_record_of(slots[0].data).amount != 0,
        account_record_of(slots[0].data).mint != account_record_of(slots[1].data).mint,
    ensures
        transfer_outcome(slots).1 == Err::<(), ProgramError>(token_err(TokenError::MintMismatch)),
        transfer_outcome(slots).0 == slots,
{
}

} // verus!
