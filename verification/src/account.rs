//! Account identifiers and the rules that an account update has to meet
//! before the store accepts it.
use miden_objects::accounts::AccountId;
use miden_objects::AccountError;
use vstd::prelude::*;

use crate::digest::{Digest, FIELD_MODULUS};
use crate::requests::{AccountUpdate, WireAccountDetails, WireDigest};

verus! {

/// The least number of one bits in a valid account identifier.
pub const MIN_ACCOUNT_ONES: u32 = 5;

/// `AccountError` of the outside crate: why an integer is no account
/// identifier. Nothing is known of its contents.
#[verifier::external_type_specification]
#[verifier::external_body]
pub struct ExAccountError(AccountError);

/// The number of one bits in `x`.
pub open spec fn count_ones(x: u64) -> nat
    decreases x,
{
    if x == 0 {
        0
    } else {
        (x % 2) as nat + count_ones(x / 2)
    }
}

/// The two highest bits of an identifier, which say where the account's state is kept.
pub open spec fn storage_bits(id: u64) -> u64 {
    id >> 62
}

/// Whether `id` is an account identifier: a field element with at least five
/// one bits whose storage bits say "on chain" (`00`) or "off chain" (`10`).
pub open spec fn valid_account_id(id: u64) -> bool {
    &&& id < FIELD_MODULUS
    &&& count_ones(id) >= MIN_ACCOUNT_ONES
    &&& (storage_bits(id) == 0 || storage_bits(id) == 2)
}

/// Whether the account's state is kept on chain.
pub open spec fn on_chain_account(id: u64) -> bool {
    storage_bits(id) == 0
}

/// `AccountId::try_from(u64)`: accepts exactly the valid identifiers.
#[verifier::external_body]
pub(crate) fn check_account_id(id: u64) -> (r: Result<(), AccountError>)
    ensures
        r is Ok <==> valid_account_id(id),
{
    AccountId::try_from(id).map(|_| ())
}

/// Returns true if an account with this identifier is an on-chain account.
pub fn is_on_chain(id: u64) -> (r: bool)
    ensures
        r == on_chain_account(id),
{
    (id >> 62) == 0
}

/// What the store reads of the details that come with an update of an
/// on-chain account.
#[derive(Clone, Copy, Debug, PartialEq, Eq, Structural)]
pub enum AccountDetails {
    /// The whole account: its identifier and the hash of its state.
    Full { id: u64, hash: Digest },
    /// Only what changed.
    Delta,
}

/// Why the details of an account update were refused.
#[derive(Clone, Copy, Debug, PartialEq, Eq, Structural)]
pub enum ProvenTransactionError {
    AccountFinalHashMismatch(Digest, Digest),
    AccountIdMismatch(u64, u64),
    OffChainAccountWithDetails(u64),
    OnChainAccountMissingDetails(u64),
    NewOnChainAccountRequiresFullDetails(u64),
    ExistingOnChainAccountRequiresDeltaDetails(u64),
}

/// Why an account update could not be turned into a valid one.
#[derive(Clone, Copy, Debug, PartialEq, Eq, Structural)]
pub enum ConversionError {
    /// A digest holds an integer that is not below the field modulus.
    NotAValidFelt,
    /// The update names no account.
    MissingAccountId,
    /// The update carries no new state hash.
    MissingAccountHash,
    /// The identifier is not a valid account identifier.
    InvalidAccountId,
    /// The details do not fit the account.
    InvalidDetails(ProvenTransactionError),
}

/// The verdict on the details of an update of account `id`, as far as it
/// does not rest on the new state hash.
///
/// An off-chain account carries no details; an on-chain account carries them.
/// An account without a prior state (`initial` all zero) carries the whole
/// account, under its own identifier; any other account carries a delta.
pub open spec fn rules_verdict(id: u64, initial: Digest, details: Option<AccountDetails>) -> Result<
    (),
    ProvenTransactionError,
> {
    if !on_chain_account(id) {
        if details is Some {
            Err(ProvenTransactionError::OffChainAccountWithDetails(id))
        } else {
            Ok(())
        }
    } else {
        match details {
            None => Err(ProvenTransactionError::OnChainAccountMissingDetails(id)),
            Some(AccountDetails::Delta) => if initial == Digest::empty() {
                Err(ProvenTransactionError::NewOnChainAccountRequiresFullDetails(id))
            } else {
                Ok(())
            },
            Some(AccountDetails::Full { id: full_id, hash }) => if initial != Digest::empty() {
                Err(ProvenTransactionError::ExistingOnChainAccountRequiresDeltaDetails(id))
            } else if full_id != id {
                Err(ProvenTransactionError::AccountIdMismatch(id, full_id))
            } else {
                Ok(())
            },
        }
    }
}

/// The verdict on the hash in the details: the hash of a whole account is
/// the new state hash of the update.
pub open spec fn hash_verdict(final_hash: Digest, details: Option<AccountDetails>) -> Result<
    (),
    ProvenTransactionError,
> {
    match details {
        Some(AccountDetails::Full { id: _, hash }) => if hash != final_hash {
            Err(ProvenTransactionError::AccountFinalHashMismatch(final_hash, hash))
        } else {
            Ok(())
        },
        _ => Ok(()),
    }
}

/// The verdict on the details of an update of account `id` from the state
/// hash `initial` to the state hash `final_hash`: the rules that do not rest
/// on the new hash come first, the comparison with the new hash last.
pub open spec fn details_verdict(
    id: u64,
    initial: Digest,
    final_hash: Digest,
    details: Option<AccountDetails>,
) -> Result<(), ProvenTransactionError> {
    match rules_verdict(id, initial, details) {
        Err(e) => Err(e),
        Ok(()) => hash_verdict(final_hash, details),
    }
}

/// Checks the details of an account update against the account they come
/// with, as far as that can be done without the new state hash.
pub fn check_account_rules(id: u64, initial_account_hash: &Digest, details: &Option<AccountDetails>) -> (r:
    Result<(), ProvenTransactionError>)
    ensures
        r == rules_verdict(id, *initial_account_hash, *details),
{
    if !is_on_chain(id) {
        return match details {
            Some(_) => Err(ProvenTransactionError::OffChainAccountWithDetails(id)),
            None => Ok(()),
        };
    }
    let is_new_account = initial_account_hash.is_empty();
    match details {
        None => Err(ProvenTransactionError::OnChainAccountMissingDetails(id)),
        Some(AccountDetails::Delta) => {
            if is_new_account {
                Err(ProvenTransactionError::NewOnChainAccountRequiresFullDetails(id))
            } else {
                Ok(())
            }
        },
        Some(AccountDetails::Full { id: full_id, hash: _ }) => {
            if !is_new_account {
                Err(ProvenTransactionError::ExistingOnChainAccountRequiresDeltaDetails(id))
            } else if *full_id != id {
                Err(ProvenTransactionError::AccountIdMismatch(id, *full_id))
            } else {
                Ok(())
            }
        },
    }
}

/// Checks the hash in the details of an account update against the new state hash.
pub fn check_account_hash(final_account_hash: &Digest, details: &Option<AccountDetails>) -> (r: Result<
    (),
    ProvenTransactionError,
>)
    ensures
        r == hash_verdict(*final_account_hash, *details),
{
    match details {
        Some(AccountDetails::Full { id: _, hash }) => {
            if *hash != *final_account_hash {
                Err(ProvenTransactionError::AccountFinalHashMismatch(*final_account_hash, *hash))
            } else {
                Ok(())
            }
        },
        _ => Ok(()),
    }
}

/// Checks the details of an account update against the account they come with.
pub fn check_account_details(
    id: u64,
    initial_account_hash: &Digest,
    final_account_hash: &Digest,
    details: &Option<AccountDetails>,
) -> (r: Result<(), ProvenTransactionError>)
    ensures
        r == details_verdict(id, *initial_account_hash, *final_account_hash, *details),
{
    match check_account_rules(id, initial_account_hash, details) {
        Err(e) => Err(e),
        Ok(()) => check_account_hash(final_account_hash, details),
    }
}

/// The digest that four integers stand for, if each is below the field modulus.
pub open spec fn digest_of(wire: WireDigest) -> Option<Digest> {
    if wire.d0 < FIELD_MODULUS && wire.d1 < FIELD_MODULUS && wire.d2 < FIELD_MODULUS && wire.d3
        < FIELD_MODULUS {
        Some(Digest::from_elements(wire.d0, wire.d1, wire.d2, wire.d3))
    } else {
        None
    }
}

/// Turns four integers into a digest; fails when one is not below the field modulus.
pub fn digest_try_from(wire: &WireDigest) -> (r: Result<Digest, ConversionError>)
    ensures
        r matches Ok(d) ==> digest_of(*wire) == Some(d),
        r matches Err(e) ==> digest_of(*wire) is None && e == ConversionError::NotAValidFelt,
{
    match Digest::new(wire.d0, wire.d1, wire.d2, wire.d3) {
        Some(d) => Ok(d),
        None => Err(ConversionError::NotAValidFelt),
    }
}

/// What the details of an update stand for, if they can be read: the whole
/// account with a digest as its hash, or a delta.
pub open spec fn details_of(wire: Option<WireAccountDetails>) -> Option<Option<AccountDetails>> {
    match wire {
        None => Some(None),
        Some(WireAccountDetails::Delta) => Some(Some(AccountDetails::Delta)),
        Some(WireAccountDetails::Full { account_id, account_hash }) => match digest_of(account_hash) {
            Some(hash) => Some(Some(AccountDetails::Full { id: account_id.id, hash })),
            None => None,
        },
    }
}

/// An account update that has passed every check: the account, the hash of its
/// new state, and the details that came with it.
#[derive(Clone, Copy, Debug, PartialEq, Eq, Structural)]
pub struct ValidAccount {
    pub id: u64,
    pub hash: Digest,
    pub details: Option<AccountDetails>,
}

/// The verdict on an account update, given the hash of the account's state
/// before it. The checks come in this order: the account is named; its
/// identifier is valid; the new hash, if there is one, is a digest; so is the
/// hash in the details; the details fit the account, as far as that does not
/// rest on the new hash; the new hash is there; the hash of a whole account
/// is the new hash.
pub open spec fn update_verdict(update: AccountUpdate, initial: Digest) -> Result<
    ValidAccount,
    ConversionError,
> {
    if update.account_id is None {
        Err(ConversionError::MissingAccountId)
    } else if !valid_account_id(update.account_id->0.id) {
        Err(ConversionError::InvalidAccountId)
    } else if update.account_hash is Some && digest_of(update.account_hash->0) is None {
        Err(ConversionError::NotAValidFelt)
    } else if details_of(update.details) is None {
        Err(ConversionError::NotAValidFelt)
    } else {
        let id = update.account_id->0.id;
        let details = details_of(update.details)->0;
        if rules_verdict(id, initial, details) is Err {
            Err(ConversionError::InvalidDetails(rules_verdict(id, initial, details)->Err_0))
        } else if update.account_hash is None {
            Err(ConversionError::MissingAccountHash)
        } else {
            let hash = digest_of(update.account_hash->0)->0;
            match hash_verdict(hash, details) {
                Ok(()) => Ok(ValidAccount { id, hash, details }),
                Err(e) => Err(ConversionError::InvalidDetails(e)),
            }
        }
    }
}

/// An update that is accepted has passed the whole verdict on its details,
/// and an update that names a valid account, carries readable digests and its
/// new hash is refused for its details exactly as that verdict says.
pub proof fn lemma_update_follows_details(update: AccountUpdate, initial: Digest)
    requires
        update.account_id is Some,
        valid_account_id(update.account_id->0.id),
        update.account_hash is Some,
        digest_of(update.account_hash->0) is Some,
        details_of(update.details) is Some,
    ensures
        update_verdict(update, initial) is Ok <==> details_verdict(
            update.account_id->0.id,
            initial,
            digest_of(update.account_hash->0)->0,
            details_of(update.details)->0,
        ) is Ok,
        update_verdict(update, initial) matches Err(e) ==> e == ConversionError::InvalidDetails(
            details_verdict(
                update.account_id->0.id,
                initial,
                digest_of(update.account_hash->0)->0,
                details_of(update.details)->0,
            )->Err_0,
        ),
{
}

impl ValidAccount {
    /// Checks an account update against the rules for on-chain and off-chain
    /// accounts. `initial_account_hash` is the hash of the account's state
    /// before the update, all zero for an account without one.
    ///
    /// The details are judged before the new hash is asked for: an update
    /// that is wrong in both ways is refused for its details.
    pub fn try_from(update: &AccountUpdate, initial_account_hash: &Digest) -> (r: Result<
        ValidAccount,
        ConversionError,
    >)
        ensures
            r == update_verdict(*update, *initial_account_hash),
    {
        let id = match update.account_id {
            Some(account_id) => account_id.id,
            None => { return Err(ConversionError::MissingAccountId); },
        };
        if check_account_id(id).is_err() {
            return Err(ConversionError::InvalidAccountId);
        }
        let account_hash = match &update.account_hash {
            Some(wire) => match digest_try_from(wire) {
                Ok(d) => Some(d),
                Err(e) => { return Err(e); },
            },
            None => None,
        };
        let details = match &update.details {
            None => None,
            Some(WireAccountDetails::Delta) => Some(AccountDetails::Delta),
            Some(WireAccountDetails::Full { account_id, account_hash }) => {
                match digest_try_from(account_hash) {
                    Ok(hash) => Some(AccountDetails::Full { id: account_id.id, hash }),
                    Err(e) => { return Err(e); },
                }
            },
        };
        match check_account_rules(id, initial_account_hash, &details) {
            Ok(()) => {},
            Err(e) => { return Err(ConversionError::InvalidDetails(e)); },
        }
        let hash = match account_hash {
            Some(hash) => hash,
            None => { return Err(ConversionError::MissingAccountHash); },
        };
        match check_account_hash(&hash, &details) {
            Ok(()) => Ok(ValidAccount { id, hash, details }),
            Err(e) => Err(ConversionError::InvalidDetails(e)),
        }
    }
}

} // verus!
