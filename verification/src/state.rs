//! The two record kinds the ledger stores, their fixed-width binary codecs,
//! and the storage slots that hold them.

use vstd::prelude::*;

use crate::error::ProgramError;

verus! {

/// Length in bytes of an address identifier.
pub const ADDRESS_LEN: usize = 32;

/// Fixed encoded length of a [`Mint`] record.
pub const MINT_LEN: usize = 1;

/// Fixed encoded length of an [`Account`] record: 32 (mint address) + 32
/// (owner address) + 1 (amount) + 1 (initialized flag).
pub const ACCOUNT_LEN: usize = 66;

/// A mint record: the existence of one asset class.
#[derive(Clone, Copy, Debug, Default, PartialEq, Eq, Structural)]
pub struct Mint {
    /// Whether this mint has been initialized.
    pub is_initialized: bool,
}

/// An account record: one holder's unit-or-zero position in one mint.
#[derive(Clone, Debug, PartialEq, Eq)]
pub struct Account {
    /// The address of the mint this account is associated with.
    pub mint: Vec<u8>,
    /// The address that owns this account and must sign transfers out of it.
    pub owner: Vec<u8>,
    /// The number of units this account holds; every instruction keeps it in
    /// {0, 1}, though the stored field is a full byte.
    pub amount: u8,
    /// Whether this account has been initialized.
    pub is_initialized: bool,
}

/// The mathematical value of an [`Account`].
pub ghost struct AccountModel {
    /// The address of the associated mint.
    pub mint: Seq<u8>,
    /// The owning address.
    pub owner: Seq<u8>,
    /// The unit count.
    pub amount: u8,
    /// The initialization flag.
    pub is_initialized: bool,
}

impl View for Account {
    type V = AccountModel;

    open spec fn view(&self) -> AccountModel {
        AccountModel {
            mint: self.mint@,
            owner: self.owner@,
            amount: self.amount,
            is_initialized: self.is_initialized,
        }
    }
}

/// One host-allocated storage slot: its address, whether the invocation
/// carries an authorization proof for that address, and its byte region.
#[derive(Clone, Debug)]
pub struct Slot {
    /// The address identifying this slot.
    pub address: Vec<u8>,
    /// Whether the invocation proves control over `address`.
    pub is_signer: bool,
    /// The slot's byte region, holding at most one encoded record.
    pub data: Vec<u8>,
}

/// The mathematical value of a [`Slot`].
pub ghost struct SlotModel {
    /// The address identifying the slot.
    pub address: Seq<u8>,
    /// Whether the invocation proves control over the address.
    pub is_signer: bool,
    /// The slot's byte region.
    pub data: Seq<u8>,
}

impl View for Slot {
    type V = SlotModel;

    open spec fn view(&self) -> SlotModel {
        SlotModel { address: self.address@, is_signer: self.is_signer, data: self.data@ }
    }
}

/// The byte a boolean flag encodes to.
pub open spec fn flag_byte(b: bool) -> u8 {
    if b {
        1u8
    } else {
        0u8
    }
}

/// The encoded form of a mint record: one flag byte.
pub open spec fn mint_record_bytes(m: Mint) -> Seq<u8> {
    seq![flag_byte(m.is_initialized)]
}

/// The mint record a buffer's first byte decodes to; any nonzero flag byte
/// counts as initialized.
pub open spec fn mint_record_of(b: Seq<u8>) -> Mint
    recommends
        b.len() >= MINT_LEN,
{
    Mint { is_initialized: b[0] != 0 }
}

/// The encoded form of an account record: mint address at offsets 0..32,
/// owner address at 32..64, amount at 64, flag at 65.
pub open spec fn account_record_bytes(a: AccountModel) -> Seq<u8>
    recommends
        a.mint.len() == ADDRESS_LEN,
        a.owner.len() == ADDRESS_LEN,
{
    a.mint + a.owner + seq![a.amount] + seq![flag_byte(a.is_initialized)]
}

/// The account record a buffer's first 66 bytes decode to.
pub open spec fn account_record_of(b: Seq<u8>) -> AccountModel
    recommends
        b.len() >= ACCOUNT_LEN,
{
    AccountModel {
        mint: b.subrange(0, 32),
        owner: b.subrange(32, 64),
        amount: b[64],
        is_initialized: b[65] != 0,
    }
}

impl Mint {
    /// Whether this mint has been initialized.
    pub fn is_initialized(&self) -> (r: bool)
        ensures
            r == self.is_initialized,
    {
        self.is_initialized
    }

    /// Decodes a mint record from the first byte of `src`; a buffer shorter
    /// than the record's fixed length is rejected, never partially decoded.
    pub fn unpack_from_slice(src: &[u8]) -> (r: Result<Mint, ProgramError>)
        ensures
            src@.len() >= MINT_LEN ==> r == Ok::<Mint, ProgramError>(mint_record_of(src@)),
            src@.len() < MINT_LEN ==> r == Err::<Mint, ProgramError>(ProgramError::InvalidAccountData),
    {
        if src.len() < MINT_LEN {
            return Err(ProgramError::InvalidAccountData);
        }
        Ok(Mint { is_initialized: src[0] != 0 })
    }

    /// Encodes this record into the first byte of `dst`, leaving the rest of
    /// the buffer unchanged.
    pub fn pack_into_slice(&self, dst: &mut [u8])
        requires
            old(dst)@.len() >= MINT_LEN,
        ensures
            final(dst)@ == mint_record_bytes(*self) + old(dst)@.skip(MINT_LEN as int),
    {
        dst[0] = if self.is_initialized {
            1
        } else {
            0
        };
        proof {
            assert(dst@ =~= mint_record_bytes(*self) + old(dst)@.skip(MINT_LEN as int));
        }
    }
}

impl Account {
    /// Whether both address fields have the fixed address length.
    pub open spec fn wf(&self) -> bool {
        self.mint@.len() == ADDRESS_LEN && self.owner@.len() == ADDRESS_LEN
    }

    /// Whether this account has been initialized.
    pub fn is_initialized(&self) -> (r: bool)
        ensures
            r == self.is_initialized,
    {
        self.is_initialized
    }

    /// Decodes an account record from the first 66 bytes of `src`; a buffer
    /// shorter than the record's fixed length is rejected, never partially
    /// decoded.
    pub fn unpack_from_slice(src: &[u8]) -> (r: Result<Account, ProgramError>)
        ensures
            src@.len() >= ACCOUNT_LEN ==> (r matches Ok(a) && a@ == account_record_of(src@) && a.wf()),
            src@.len() < ACCOUNT_LEN ==> r == Err::<Account, ProgramError>(ProgramError::InvalidAccountData),
    {
        if src.len() < ACCOUNT_LEN {
            return Err(ProgramError::InvalidAccountData);
        }
        let mut mint: Vec<u8> = Vec::new();
        let mut i: usize = 0;
        while i < 32
            invariant
                i <= 32,
                src@.len() >= 66,
                mint@ == src@.subrange(0, i as int),
            decreases 32 - i,
        {
            mint.push(src[i]);
            i = i + 1;
            proof {
                assert(mint@ =~= src@.subrange(0, i as int));
            }
        }
        let mut owner: Vec<u8> = Vec::new();
        let mut j: usize = 32;
        while j < 64
            invariant
                32 <= j <= 64,
                src@.len() >= 66,
                owner@ == src@.subrange(32, j as int),
            decreases 64 - j,
        {
            owner.push(src[j]);
            j = j + 1;
            proof {
                assert(owner@ =~= src@.subrange(32, j as int));
            }
        }
        let account = Account { mint, owner, amount: src[64], is_initialized: src[65] != 0 };
        proof {
            assert(account@ == account_record_of(src@));
        }
        Ok(account)
    }

    /// Encodes this record into the first 66 bytes of `dst`, leaving the rest
    /// of the buffer unchanged.
    pub fn pack_into_slice(&self, dst: &mut [u8])
        requires
            self.wf(),
            old(dst)@.len() >= ACCOUNT_LEN,
        ensures
            final(dst)@ == account_record_bytes(self@) + old(dst)@.skip(ACCOUNT_LEN as int),
    {
        let mut i: usize = 0;
        while i < 32
            invariant
                i <= 32,
                self.wf(),
                dst@.len() == old(dst)@.len() >= 66,
                forall|k: int| 0 <= k < i ==> dst@[k] == self.mint@[k],
                forall|k: int| i <= k < dst@.len() ==> dst@[k] == old(dst)@[k],
            decreases 32 - i,
        {
            dst[i] = self.mint[i];
            i = i + 1;
        }
        let mut j: usize = 0;
        while j < 32
            invariant
                j <= 32,
                self.wf(),
                dst@.len() == old(dst)@.len() >= 66,
                forall|k: int| 0 <= k < 32 ==> dst@[k] == self.mint@[k],
                forall|k: int| 0 <= k < j ==> dst@[32 + k] == self.owner@[k],
                forall|k: int| 32 + j <= k < dst@.len() ==> dst@[k] == old(dst)@[k],
            decreases 32 - j,
        {
            dst[32 + j] = self.owner[j];
            j = j + 1;
        }
        dst[64] = self.amount;
        dst[65] = if self.is_initialized {
            1
        } else {
            0
        };
        proof {
            let enc = account_record_bytes(self@) + old(dst)@.skip(ACCOUNT_LEN as int);
            assert forall|k: int| 0 <= k < dst@.len() implies dst@[k] == enc[k] by {
                if 32 <= k < 64 {
                    assert(dst@[k] == self.owner@[k - 32]);
                }
            }
            assert(dst@ =~= enc);
        }
    }
}

} // verus!
