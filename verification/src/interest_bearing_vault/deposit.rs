//! Deposit: a depositor adds value to the reserve.
use crate::address::Address;
use crate::interest_bearing_vault::errors::{OperationError, VaultError};
use crate::interest_bearing_vault::state::{Mint, Vault, VaultRegistryEntry};
use crate::interest_bearing_vault::transfer::{TransferOutcome, TransferRequest};
use vstd::prelude::*;

verus! {

/// The accounts of one deposit.
#[derive(Clone, Copy, Debug, PartialEq, Eq)]
pub struct Deposit {
    /// Who deposits.
    pub depositor: Address,
    /// The address of the vault.
    pub vault_key: Address,
    /// The vault.
    pub vault: Vault,
    /// The depositor's registry entry in the vault; `None` until the
    /// depositor's first deposit creates it.
    pub vault_registry_entry: Option<VaultRegistryEntry>,
    /// The asset of the vault.
    pub mint: Mint,
    /// The depositor's token account, which is debited.
    pub depositor_token_account: Address,
    /// The reserve of the vault, which is credited.
    pub vault_token_reserve: Address,
    /// The list of extra accounts of the asset.
    pub extra_account_meta_list: Address,
    /// The transfer-policy program of the asset.
    pub transfer_hook_program: Address,
    /// The depositor's allow-list record.
    pub depositor_whitelist_pda: Address,
    /// The token program.
    pub token_program: Address,
}

/// The vault after a deposit of `amount` was booked.
pub open spec fn vault_after_deposit(vault: Vault, amount: u64) -> Vault {
    Vault {
        token_reserve_amount: (vault.token_reserve_amount + amount) as u64,
        num_depositors: (vault.num_depositors + 1) as u64,
        ..vault
    }
}

/// The balance that a registry entry holds; none where there is no entry.
pub open spec fn balance_of(entry: Option<VaultRegistryEntry>) -> u64 {
    match entry {
        Some(e) => e.token_balance,
        None => 0,
    }
}

/// The deposits that a registry entry counts; none where there is no entry.
pub open spec fn deposits_of(entry: Option<VaultRegistryEntry>) -> u64 {
    match entry {
        Some(e) => e.num_deposits,
        None => 0,
    }
}

/// The withdrawals that a registry entry counts; none where there is no
/// entry.
pub open spec fn withdraws_of(entry: Option<VaultRegistryEntry>) -> u64 {
    match entry {
        Some(e) => e.num_withdraws,
        None => 0,
    }
}

impl Deposit {
    /// The transfer that a deposit of `amount` asks for: from the
    /// depositor's token account to the reserve, authorised by the
    /// depositor, with the accounts that the transfer check needs.
    pub open spec fn spec_transfer_request(&self, amount: u64) -> TransferRequest {
        TransferRequest {
            token_program: self.token_program,
            source: self.depositor_token_account,
            mint: self.mint.key,
            destination: self.vault_token_reserve,
            authority: self.depositor,
            additional_accounts: [
                self.extra_account_meta_list,
                self.depositor_whitelist_pda,
                self.transfer_hook_program,
            ],
            amount,
            decimals: self.mint.decimals,
        }
    }

    /// Whether booking a deposit of `amount` would take a counter or a
    /// balance beyond 64 bits.
    pub open spec fn overflows(&self, amount: u64) -> bool {
        ||| self.vault.token_reserve_amount + amount > u64::MAX
        ||| self.vault.num_depositors == u64::MAX
        ||| balance_of(self.vault_registry_entry) + amount > u64::MAX
        ||| deposits_of(self.vault_registry_entry) == u64::MAX
    }

    /// The accounts after a deposit of `amount` was booked, the registry
    /// entry standing at the bump seed `registry_bump`.
    pub open spec fn booked(self, amount: u64, registry_bump: u8) -> Deposit {
        Deposit {
            vault: vault_after_deposit(self.vault, amount),
            vault_registry_entry: Some(
                VaultRegistryEntry {
                    vault: self.vault_key,
                    mint: self.mint.key,
                    token_balance: (balance_of(self.vault_registry_entry) + amount) as u64,
                    num_withdraws: withdraws_of(self.vault_registry_entry),
                    num_deposits: (deposits_of(self.vault_registry_entry) + 1) as u64,
                    bump: registry_bump,
                },
            ),
            ..self
        }
    }

    /// The result of the deposit and the accounts after it, once the token
    /// program has reported `outcome` for the transfer: an aborted transfer
    /// and a counter out of range leave everything as it was.
    pub open spec fn settled(self, amount: u64, registry_bump: u8, outcome: TransferOutcome) -> (
        Result<(), OperationError>,
        Deposit,
    ) {
        match outcome {
            Err(e) => (Err(OperationError::Transfer(e)), self),
            Ok(()) => if self.overflows(amount) {
                (Err(OperationError::Vault(VaultError::Overflow)), self)
            } else {
                (Ok(()), self.booked(amount, registry_bump))
            },
        }
    }

    /// Describes the transfer of a deposit of `amount`.
    pub fn transfer_request(&self, amount: u64) -> (t: TransferRequest)
        ensures
            t == self.spec_transfer_request(amount),
    {
        let additional_accounts = [
            self.extra_account_meta_list,
            self.depositor_whitelist_pda,
            self.transfer_hook_program,
        ];
        let t = TransferRequest {
            token_program: self.token_program,
            source: self.depositor_token_account,
            mint: self.mint.key,
            destination: self.vault_token_reserve,
            authority: self.depositor,
            additional_accounts,
            amount,
            decimals: self.mint.decimals,
        };
        assert(t.additional_accounts =~= self.spec_transfer_request(amount).additional_accounts);
        t
    }

    /// Books a deposit of `amount` for which the token program has reported
    /// `outcome`.
    ///
    /// Where the transfer completed and nothing overflows, the reserve and
    /// the depositor's balance go up by `amount`, and the vault's and the
    /// depositor's counts of deposits by one; a depositor without an entry
    /// gets one. Else the error says why, and nothing has changed.
    pub fn settle(&mut self, amount: u64, registry_bump: u8, outcome: TransferOutcome) -> (r:
        Result<(), OperationError>)
        ensures
            (r, *final(self)) == old(self).settled(amount, registry_bump, outcome),
            r is Ok ==> {
                &&& final(self).vault.token_reserve_amount == old(self).vault.token_reserve_amount
                    + amount
                &&& final(self).vault.num_depositors == old(self).vault.num_depositors + 1
                &&& balance_of(final(self).vault_registry_entry) == balance_of(
                    old(self).vault_registry_entry,
                ) + amount
                &&& deposits_of(final(self).vault_registry_entry) == deposits_of(
                    old(self).vault_registry_entry,
                ) + 1
                &&& withdraws_of(final(self).vault_registry_entry) == withdraws_of(
                    old(self).vault_registry_entry,
                )
            },
            r is Err ==> *final(self) == *old(self),
    {
        if let Err(e) = outcome {
            return Err(OperationError::Transfer(e));
        }
        let (balance, withdraws, deposits) = match self.vault_registry_entry {
            Some(e) => (e.token_balance, e.num_withdraws, e.num_deposits),
            None => (0, 0, 0),
        };
        let reserve = match self.vault.token_reserve_amount.checked_add(amount) {
            Some(v) => v,
            None => {
                return Err(OperationError::Vault(VaultError::Overflow));
            },
        };
        let depositors = match self.vault.num_depositors.checked_add(1) {
            Some(v) => v,
            None => {
                return Err(OperationError::Vault(VaultError::Overflow));
            },
        };
        let token_balance = match balance.checked_add(amount) {
            Some(v) => v,
            None => {
                return Err(OperationError::Vault(VaultError::Overflow));
            },
        };
        let num_deposits = match deposits.checked_add(1) {
            Some(v) => v,
            None => {
                return Err(OperationError::Vault(VaultError::Overflow));
            },
        };
        self.vault.token_reserve_amount = reserve;
        self.vault.num_depositors = depositors;
        self.vault_registry_entry = Some(
            VaultRegistryEntry {
                vault: self.vault_key,
                mint: self.mint.key,
                token_balance,
                num_withdraws: withdraws,
                num_deposits,
                bump: registry_bump,
            },
        );
        Ok(())
    }

    /// Deposits `amount` into the vault.
    ///
    /// A zero amount is refused with `InvalidAmount`. Else the vault hands
    /// the transfer to `transfer`, which has the token program carry it out
    /// and reports how it ended; only a completed transfer is booked, as
    /// [`Deposit::settle`] says. Whenever the deposit fails, for whatever
    /// reason, the accounts are as they were.
    pub fn deposit<F: FnOnce(TransferRequest) -> TransferOutcome>(
        &mut self,
        amount: u64,
        registry_bump: u8,
        transfer: F,
    ) -> (r: Result<(), OperationError>)
        requires
            amount > 0 ==> transfer.requires((old(self).spec_transfer_request(amount),)),
        ensures
            amount == 0 ==> r == Err::<(), OperationError>(
                OperationError::Vault(VaultError::InvalidAmount),
            ) && *final(self) == *old(self),
            amount > 0 ==> exists|outcome: TransferOutcome|
                {
                    &&& transfer.ensures((old(self).spec_transfer_request(amount),), outcome)
                    &&& (r, *final(self)) == old(self).settled(amount, registry_bump, outcome)
                },
            r is Err ==> *final(self) == *old(self),
    {
        if amount == 0 {
            return Err(OperationError::Vault(VaultError::InvalidAmount));
        }
        let request = self.transfer_request(amount);
        let outcome = transfer(request);
        self.settle(amount, registry_bump, outcome)
    }
}

} // verus!
