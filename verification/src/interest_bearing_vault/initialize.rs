//! Creation of a vault.
use crate::address::Address;
use crate::interest_bearing_vault::errors::VaultError;
use crate::interest_bearing_vault::state::Vault;
use vstd::prelude::*;

verus! {

/// The accounts of the creation of a vault.
#[derive(Clone, Copy, Debug, PartialEq, Eq)]
pub struct InitializeVault {
    /// The authority of the new vault, who pays for it.
    pub vault_authority: Address,
    /// The asset that the vault is to hold.
    pub mint: Address,
    /// The transfer-policy program of the asset.
    pub hook_program_id: Address,
    /// The account of the vault: `None` until the vault is created.
    pub vault: Option<Vault>,
    /// The token account that is to hold the reserve.
    pub token_reserve: Address,
}

impl InitializeVault {
    /// The vault that these accounts create at the bump seed `bump`: nothing
    /// in reserve, no deposit counted.
    pub open spec fn new_vault(&self, bump: u8) -> Vault {
        Vault {
            vault_authority: self.vault_authority,
            mint: self.mint,
            token_reserve: self.token_reserve,
            token_reserve_amount: 0,
            num_depositors: 0,
            bump,
        }
    }

    /// Creates the vault of the authority, with all counters at zero.
    ///
    /// A vault is created once: where the account holds a vault already, the
    /// call fails with `AlreadyInitialized` and changes nothing.
    pub fn initialize_vault(&mut self, bump: u8) -> (r: Result<(), VaultError>)
        ensures
            old(self).vault is None ==> r is Ok && *final(self) == (InitializeVault {
                vault: Some(old(self).new_vault(bump)),
                ..*old(self)
            }),
            old(self).vault is Some ==> r == Err::<(), VaultError>(VaultError::AlreadyInitialized)
                && *final(self) == *old(self),
    {
        if self.vault.is_some() {
            return Err(VaultError::AlreadyInitialized);
        }
        self.vault = Some(
            Vault {
                vault_authority: self.vault_authority,
                mint: self.mint,
                token_reserve: self.token_reserve,
                token_reserve_amount: 0,
                num_depositors: 0,
                bump,
            },
        );
        Ok(())
    }
}

} // verus!
