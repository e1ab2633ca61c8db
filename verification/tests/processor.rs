use token_core::error::ProgramError;
use token_core::instructions::TokenInstruction;
use token_core::processor::process;
use token_core::state::{Account, Mint, Slot, ACCOUNT_LEN, MINT_LEN};

fn addr(tag: u8) -> Vec<u8> {
    let mut v = vec![0u8; 32];
    v[0] = tag;
    v
}

fn slot(tag: u8, is_signer: bool, data_len: usize) -> Slot {
    Slot {
        address: addr(tag),
        is_signer,
        data: vec![0u8; data_len],
    }
}

fn account_slot(tag: u8, is_signer: bool, account: &Account) -> Slot {
    let mut s = slot(tag, is_signer, ACCOUNT_LEN);
    account.pack_into_slice(s.data.as_mut_slice());
    s
}

#[test]
fn test_initialize_mint_success() {
    let mut slots = vec![
        slot(1, false, MINT_LEN),
        slot(2, false, ACCOUNT_LEN),
        slot(3, false, ACCOUNT_LEN),
    ];
    let input = TokenInstruction::InitializeMint.pack();
    assert_eq!(process(&mut slots, input.as_slice()), Ok(()));

    let account = Account::unpack_from_slice(slots[1].data.as_slice()).unwrap();
    assert!(account.is_initialized);
    assert_eq!(account.amount, 1);
    assert_eq!(account.mint, slots[0].address);
    assert_eq!(account.owner, slots[2].address);
}

#[test]
fn test_initialize_account_success() {
    let mut mint_slot = slot(1, false, MINT_LEN);
    Mint { is_initialized: true }.pack_into_slice(mint_slot.data.as_mut_slice());

    let mut slots = vec![slot(2, false, ACCOUNT_LEN), mint_slot, slot(3, false, ACCOUNT_LEN)];
    let input = TokenInstruction::InitializeAccount.pack();
    assert_eq!(process(&mut slots, input.as_slice()), Ok(()));

    let account = Account::unpack_from_slice(slots[0].data.as_slice()).unwrap();
    assert!(account.is_initialized);
    assert_eq!(account.amount, 0);
    assert_eq!(account.mint, slots[1].address);
    assert_eq!(account.owner, slots[2].address);
}

#[test]
fn test_transfer_success() {
    let mint_key = addr(9);
    let owner = slot(3, true, ACCOUNT_LEN);
    let source = account_slot(
        4,
        false,
        &Account {
            mint: mint_key.clone(),
            owner: owner.address.clone(),
            amount: 1,
            is_initialized: true,
        },
    );
    let dest = account_slot(
        5,
        false,
        &Account {
            mint: mint_key.clone(),
            owner: owner.address.clone(),
            amount: 0,
            is_initialized: true,
        },
    );

    let mut slots = vec![source, dest, owner];
    let input = TokenInstruction::Transfer.pack();
    assert_eq!(process(&mut slots, input.as_slice()), Ok(()));

    let source_data = Account::unpack_from_slice(slots[0].data.as_slice());
    assert!(source_data.is_ok());
    let dest_data = Account::unpack_from_slice(slots[1].data.as_slice());
    assert!(dest_data.is_ok());

    assert_eq!(source_data.unwrap().amount, 0);
    assert_eq!(dest_data.unwrap().amount, 1);
}

#[test]
fn test_initialize_mint_already_in_use() {
    let mut mint_slot = slot(1, false, MINT_LEN);
    Mint { is_initialized: true }.pack_into_slice(mint_slot.data.as_mut_slice());
    let mut slots = vec![mint_slot, slot(2, false, ACCOUNT_LEN), slot(3, false, ACCOUNT_LEN)];

    let input = TokenInstruction::InitializeMint.pack();
    assert_eq!(
        process(&mut slots, input.as_slice()),
        Err(ProgramError::Custom(1))
    );
    assert_eq!(slots[0].data, vec![1u8]);
    assert_eq!(slots[1].data, vec![0u8; ACCOUNT_LEN]);
}

#[test]
fn test_initialize_account_already_in_use() {
    let account = Account {
        mint: addr(9),
        owner: addr(3),
        amount: 0,
        is_initialized: true,
    };
    let occupied = account_slot(2, false, &account);
    let before = occupied.data.clone();
    let mut slots = vec![occupied, slot(1, false, MINT_LEN), slot(3, false, ACCOUNT_LEN)];

    let input = TokenInstruction::InitializeAccount.pack();
    assert_eq!(
        process(&mut slots, input.as_slice()),
        Err(ProgramError::Custom(1))
    );
    assert_eq!(slots[0].data, before);
}

#[test]
fn test_initialize_mint_commits_mint_when_account_in_use() {
    let account = Account {
        mint: addr(9),
        owner: addr(3),
        amount: 0,
        is_initialized: true,
    };
    let occupied = account_slot(2, false, &account);
    let before = occupied.data.clone();
    let mut slots = vec![slot(1, false, MINT_LEN), occupied, slot(3, false, ACCOUNT_LEN)];

    let input = TokenInstruction::InitializeMint.pack();
    assert_eq!(
        process(&mut slots, input.as_slice()),
        Err(ProgramError::Custom(1))
    );
    // The mint write commits before the account step validates, and stays
    // committed when that step fails: the two writes are not atomic.
    assert_eq!(slots[0].data, vec![1u8]);
    assert_eq!(slots[1].data, before);
}

#[test]
fn test_initialize_mint_short_mint_buffer() {
    let mut slots = vec![slot(1, false, 0), slot(2, false, ACCOUNT_LEN), slot(3, false, ACCOUNT_LEN)];
    let input = TokenInstruction::InitializeMint.pack();
    assert_eq!(
        process(&mut slots, input.as_slice()),
        Err(ProgramError::InvalidAccountData)
    );
}

#[test]
fn test_initialize_account_short_account_buffer() {
    let mut slots = vec![slot(2, false, ACCOUNT_LEN - 1), slot(1, false, MINT_LEN), slot(3, false, ACCOUNT_LEN)];
    let input = TokenInstruction::InitializeAccount.pack();
    assert_eq!(
        process(&mut slots, input.as_slice()),
        Err(ProgramError::InvalidAccountData)
    );
}

fn transfer_fixture(source_amount: u8, dest_amount: u8) -> Vec<Slot> {
    let mint_key = addr(9);
    let owner = slot(3, true, ACCOUNT_LEN);
    let source = account_slot(
        4,
        false,
        &Account {
            mint: mint_key.clone(),
            owner: owner.address.clone(),
            amount: source_amount,
            is_initialized: true,
        },
    );
    let dest = account_slot(
        5,
        false,
        &Account {
            mint: mint_key,
            owner: owner.address.clone(),
            amount: dest_amount,
            is_initialized: true,
        },
    );
    vec![source, dest, owner]
}

#[test]
fn test_transfer_source_not_initialized() {
    let mut slots = transfer_fixture(1, 0);
    slots[0] = slot(4, false, ACCOUNT_LEN);
    let input = TokenInstruction::Transfer.pack();
    assert_eq!(
        process(&mut slots, input.as_slice()),
        Err(ProgramError::Custom(5))
    );
}

#[test]
fn test_transfer_destination_not_initialized() {
    let mut slots = transfer_fixture(1, 0);
    slots[1] = slot(5, false, ACCOUNT_LEN);
    let input = TokenInstruction::Transfer.pack();
    assert_eq!(
        process(&mut slots, input.as_slice()),
        Err(ProgramError::Custom(5))
    );
}

#[test]
fn test_transfer_insufficient_funds_leaves_slots_unchanged() {
    let mut slots = transfer_fixture(0, 0);
    let source_before = slots[0].data.clone();
    let dest_before = slots[1].data.clone();
    let input = TokenInstruction::Transfer.pack();
    assert_eq!(
        process(&mut slots, input.as_slice()),
        Err(ProgramError::Custom(3))
    );
    assert_eq!(slots[0].data, source_before);
    assert_eq!(slots[1].data, dest_before);
}

#[test]
fn test_transfer_owner_mismatch() {
    let mut slots = transfer_fixture(1, 0);
    // The signer carries a valid proof, but for its own (wrong) address.
    slots[2] = slot(6, true, ACCOUNT_LEN);
    let source_before = slots[0].data.clone();
    let input = TokenInstruction::Transfer.pack();
    assert_eq!(
        process(&mut slots, input.as_slice()),
        Err(ProgramError::Custom(2))
    );
    assert_eq!(slots[0].data, source_before);
}

#[test]
fn test_transfer_owner_checked_before_funds() {
    let mut slots = transfer_fixture(0, 0);
    slots[2] = slot(6, true, ACCOUNT_LEN);
    let input = TokenInstruction::Transfer.pack();
    assert_eq!(
        process(&mut slots, input.as_slice()),
        Err(ProgramError::Custom(2))
    );
}

#[test]
fn test_transfer_missing_signature() {
    let mut slots = transfer_fixture(1, 0);
    slots[2].is_signer = false;
    let input = TokenInstruction::Transfer.pack();
    assert_eq!(
        process(&mut slots, input.as_slice()),
        Err(ProgramError::MissingRequiredSignature)
    );
}

#[test]
fn test_transfer_mint_mismatch_leaves_slots_unchanged() {
    let mut slots = transfer_fixture(1, 0);
    let owner_address = slots[2].address.clone();
    let other_mint_account = Account {
        mint: addr(10),
        owner: owner_address,
        amount: 0,
        is_initialized: true,
    };
    slots[1] = account_slot(5, false, &other_mint_account);
    let source_before = slots[0].data.clone();
    let dest_before = slots[1].data.clone();
    let input = TokenInstruction::Transfer.pack();
    assert_eq!(
        process(&mut slots, input.as_slice()),
        Err(ProgramError::Custom(4))
    );
    assert_eq!(slots[0].data, source_before);
    assert_eq!(slots[1].data, dest_before);
}

#[test]
fn test_transfer_short_source_buffer() {
    let mut slots = transfer_fixture(1, 0);
    slots[0].data.truncate(ACCOUNT_LEN - 1);
    let input = TokenInstruction::Transfer.pack();
    assert_eq!(
        process(&mut slots, input.as_slice()),
        Err(ProgramError::InvalidAccountData)
    );
}

#[test]
fn test_transfer_short_destination_buffer() {
    let mut slots = transfer_fixture(1, 0);
    slots[1].data.truncate(ACCOUNT_LEN - 1);
    let input = TokenInstruction::Transfer.pack();
    assert_eq!(
        process(&mut slots, input.as_slice()),
        Err(ProgramError::InvalidAccountData)
    );
}

#[test]
fn test_process_rejects_unknown_instruction() {
    let mut slots = transfer_fixture(1, 0);
    let source_before = slots[0].data.clone();
    assert_eq!(process(&mut slots, &[7u8]), Err(ProgramError::Custom(0)));
    assert_eq!(slots[0].data, source_before);
}

#[test]
fn test_process_not_enough_slots() {
    let mut slots = vec![slot(1, false, MINT_LEN), slot(2, false, ACCOUNT_LEN)];
    let input = TokenInstruction::Transfer.pack();
    assert_eq!(
        process(&mut slots, input.as_slice()),
        Err(ProgramError::NotEnoughAccountKeys)
    );

    let input = TokenInstruction::InitializeMint.pack();
    assert_eq!(
        process(&mut slots, input.as_slice()),
        Err(ProgramError::NotEnoughAccountKeys)
    );

    let input = TokenInstruction::InitializeAccount.pack();
    assert_eq!(
        process(&mut slots, input.as_slice()),
        Err(ProgramError::NotEnoughAccountKeys)
    );
}
