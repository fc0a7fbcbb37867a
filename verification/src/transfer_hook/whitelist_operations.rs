//! Administration of the allow-list: adding and removing records.
use crate::address::Address;
use crate::transfer_hook::errors::WhitelistError;
use crate::transfer_hook::state::{Whitelist, WhitelistAccount};
use vstd::prelude::*;

verus! {

/// The accounts of one change to the allow-list.
///
/// Whoever pays for the record may add or remove it: no further authority
/// is asked for.
#[derive(Clone, Copy, Debug, PartialEq, Eq)]
pub struct WhitelistOperations {
    /// Who pays for the record, and gets its storage back on removal.
    pub admin: Address,
    /// The address that the record approves.
    pub address: Address,
    /// The asset that the record is for.
    pub mint: Address,
    /// The account of the record.
    pub whitelist_pda: WhitelistAccount,
}

impl WhitelistOperations {
    /// The record that these accounts stand for, at the bump seed `bump`.
    pub open spec fn record(&self, bump: u8) -> Whitelist {
        Whitelist { address: self.address, mint: self.mint, bump }
    }

    /// The accounts after the record was added at the bump seed `bump`.
    pub open spec fn added(self, bump: u8) -> WhitelistOperations {
        WhitelistOperations {
            whitelist_pda: WhitelistAccount {
                key: self.whitelist_pda.key,
                entry: Some(self.record(bump)),
            },
            ..self
        }
    }

    /// The accounts after the record was removed.
    pub open spec fn removed(self) -> WhitelistOperations {
        WhitelistOperations {
            whitelist_pda: WhitelistAccount { key: self.whitelist_pda.key, entry: None },
            ..self
        }
    }

    /// Approves the address for the asset: the account then holds the record
    /// of the address, the asset and `bump`.
    ///
    /// The record is created if it is not there and overwritten with the
    /// same if it is, so adding twice is the same as adding once, and never
    /// an error.
    pub fn add_to_whitelist(&mut self, bump: u8) -> (r: Result<(), WhitelistError>)
        ensures
            r is Ok,
            *final(self) == old(self).added(bump),
            final(self).whitelist_pda.entry == Some(old(self).record(bump)),
    {
        self.whitelist_pda.entry = Some(
            Whitelist { address: self.address, mint: self.mint, bump },
        );
        Ok(())
    }

    /// Withdraws the approval: the record is deleted and its account left
    /// empty.
    ///
    /// Fails with `AccountDoesNotExist`, and changes nothing, where there is
    /// no record.
    pub fn remove_from_whitelist(&mut self) -> (r: Result<(), WhitelistError>)
        ensures
            old(self).whitelist_pda.entry is Some ==> r is Ok && *final(self) == old(
                self,
            ).removed(),
            old(self).whitelist_pda.entry is None ==> r == Err::<(), WhitelistError>(
                WhitelistError::AccountDoesNotExist,
            ) && *final(self) == *old(self),
            final(self).whitelist_pda.entry is None,
    {
        if self.whitelist_pda.entry.is_none() {
            return Err(WhitelistError::AccountDoesNotExist);
        }
        self.whitelist_pda.entry = None;
        Ok(())
    }
}

} // verus!
