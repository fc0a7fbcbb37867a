//! The check that the token program runs in the middle of every transfer of
//! the asset.
use crate::address::Address;
use crate::transfer_hook::errors::WhitelistError;
use crate::transfer_hook::state::{whitelist_address, whitelist_pda, Whitelist, WhitelistAccount};
use anchor_lang::prelude::ProgramError;
use anchor_spl::token_2022::spl_token_2022::extension::transfer_hook::TransferHookAccount;
use anchor_spl::token_2022::spl_token_2022::extension::BaseStateWithExtensions;
use anchor_spl::token_2022::spl_token_2022::extension::PodStateWithExtensions;
use anchor_spl::token_2022::spl_token_2022::pod::PodAccount;
use vstd::prelude::*;

verus! {

/// The transfer-in-progress flag that the token program keeps in the token
/// account with the content `account_data`; `None` where the content is no
/// initialised token account or carries no such flag.
pub uninterp spec fn transferring_flag(account_data: Seq<u8>) -> Option<bool>;

/// Reads the flag with `PodStateWithExtensions::<PodAccount>::unpack` and
/// `get_extension::<TransferHookAccount>` of the token program's library.
///
/// Trusted: the result is the one that [`transferring_flag`] names, an error
/// standing for `None`.
#[verifier::external_body]
pub(crate) fn read_transferring(account_data: &Vec<u8>) -> (r: Result<bool, ProgramError>)
    ensures
        match r {
            Ok(flag) => transferring_flag(account_data@) == Some(flag),
            Err(_) => transferring_flag(account_data@) is None,
        },
{
    let account = PodStateWithExtensions::<PodAccount>::unpack(account_data)?;
    let extension = account.get_extension::<TransferHookAccount>()?;
    Ok(bool::from(extension.transferring))
}

/// The accounts of one transfer check.
#[derive(Clone, Debug, PartialEq, Eq)]
pub struct TransferHook {
    /// The content of the token account that is debited.
    pub source_token: Vec<u8>,
    /// The asset.
    pub mint: Address,
    /// The token account that is credited.
    pub destination_token: Address,
    /// The owner of the source.
    pub owner: Address,
    /// The list of extra accounts of the asset.
    pub extra_account_meta_list: Address,
    /// The allow-list account that came with the transfer.
    pub user_whitelist_account: WhitelistAccount,
}

/// What the check says, given the flag read from the source, the allow-list
/// record that came with the transfer, the address of its account, and the
/// address derived for the asset and the owner.
///
/// The check passes only inside a transfer, for an account that holds a
/// record and stands at the derived address. The flag is looked at first,
/// then whether there is a record, then the address.
pub open spec fn verdict(
    flag: Option<bool>,
    entry: Option<Whitelist>,
    key: Seq<u8>,
    derived: Option<(Seq<u8>, u8)>,
) -> Result<(), WhitelistError> {
    if flag != Some(true) {
        Err(WhitelistError::NotTransferring)
    } else if entry is None {
        Err(WhitelistError::AccountNotWhitelisted)
    } else if !(derived matches Some((expected, _)) && expected == key) {
        Err(WhitelistError::AccountDoesNotMatch)
    } else {
        Ok(())
    }
}

/// What the flag read from the source says: in a transfer or not.
pub open spec fn flag_verdict(flag: Option<bool>) -> Result<(), WhitelistError> {
    if flag == Some(true) {
        Ok(())
    } else {
        Err(WhitelistError::NotTransferring)
    }
}

/// Decides the check from what was read and derived: see [`verdict`].
pub fn decide(
    flag: Option<bool>,
    account: &WhitelistAccount,
    derived: Option<(Address, u8)>,
) -> (r: Result<(), WhitelistError>)
    ensures
        r == verdict(
            flag,
            account.entry,
            account.key@,
            match derived {
                Some((expected, bump)) => Some((expected@, bump)),
                None => None,
            },
        ),
{
    match flag {
        Some(true) => {},
        _ => {
            return Err(WhitelistError::NotTransferring);
        },
    }
    if account.entry.is_none() {
        return Err(WhitelistError::AccountNotWhitelisted);
    }
    match derived {
        Some((expected, _)) => {
            if expected == account.key {
                Ok(())
            } else {
                Err(WhitelistError::AccountDoesNotMatch)
            }
        },
        None => Err(WhitelistError::AccountDoesNotMatch),
    }
}

impl TransferHook {
    /// What the check of these accounts says.
    pub open spec fn spec_transfer_hook(&self) -> Result<(), WhitelistError> {
        verdict(
            transferring_flag(self.source_token@),
            self.user_whitelist_account.entry,
            self.user_whitelist_account.key@,
            whitelist_pda(self.mint@, self.owner@),
        )
    }

    /// Approves or aborts the transfer of `_amount` that is in progress.
    ///
    /// The transfer is aborted with `NotTransferring` unless the source
    /// carries the flag of a transfer in progress, with
    /// `AccountNotWhitelisted` if the allow-list account is empty, and with
    /// `AccountDoesNotMatch` if it is not the account derived for the asset
    /// and the owner of the source. The amount plays no part. Nothing is
    /// changed.
    pub fn transfer_hook(&mut self, _amount: u64) -> (r: Result<(), WhitelistError>)
        ensures
            r == old(self).spec_transfer_hook(),
            *final(self) == *old(self),
    {
        if let Err(e) = self.check_is_transferring() {
            return Err(e);
        }
        let derived = whitelist_address(&self.mint, &self.owner);
        decide(Some(true), &self.user_whitelist_account, derived)
    }

    /// Checks that the source is in the middle of a transfer: only the token
    /// program sets the flag, so the check cannot be run from anywhere else.
    ///
    /// Fails with `NotTransferring` unless the flag is there and set.
    pub fn check_is_transferring(&mut self) -> (r: Result<(), WhitelistError>)
        ensures
            r == flag_verdict(transferring_flag(old(self).source_token@)),
            *final(self) == *old(self),
    {
        match read_transferring(&self.source_token) {
            Ok(true) => Ok(()),
            _ => Err(WhitelistError::NotTransferring),
        }
    }
}

} // verus!
