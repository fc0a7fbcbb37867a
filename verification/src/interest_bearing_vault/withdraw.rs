//! Withdrawal: the authority takes value out of the reserve.
use crate::address::Address;
use crate::interest_bearing_vault::errors::{OperationError, TransferError, VaultError};
use crate::interest_bearing_vault::state::{Mint, Vault, VaultRegistryEntry};
use crate::interest_bearing_vault::transfer::{
    is_token_program, transfer_checked, transfer_checked_instruction, AccountMeta,
    InstructionView, SignedTransfer, TransferOutcome, VaultSigner,
};
use vstd::prelude::*;

verus! {

/// The accounts of one withdrawal.
#[derive(Clone, Copy, Debug, PartialEq, Eq)]
pub struct Withdraw {
    /// Who asks for the withdrawal.
    pub withdrawer: Address,
    /// The address of the vault.
    pub vault_key: Address,
    /// The vault.
    pub vault: Vault,
    /// The withdrawer's registry entry in the vault.
    pub vault_registry_entry: VaultRegistryEntry,
    /// The asset of the vault.
    pub mint: Mint,
    /// The withdrawer's token account, which is credited.
    pub withdrawer_token_account: Address,
    /// The reserve of the vault, which is debited.
    pub vault_token_reserve: Address,
    /// The list of extra accounts of the asset.
    pub extra_account_meta_list: Address,
    /// The transfer-policy program of the asset.
    pub transfer_hook_program: Address,
    /// The withdrawer's allow-list record.
    pub withdrawer_whitelist_pda: Address,
    /// The token program.
    pub token_program: Address,
}

/// The vault after a withdrawal of `amount` was booked.
pub open spec fn vault_after_withdrawal(vault: Vault, amount: u64) -> Vault {
    Vault { token_reserve_amount: (vault.token_reserve_amount - amount) as u64, ..vault }
}

/// The registry entry after a withdrawal of `amount` was booked.
pub open spec fn entry_after_withdrawal(
    entry: VaultRegistryEntry,
    amount: u64,
) -> VaultRegistryEntry {
    VaultRegistryEntry {
        token_balance: (entry.token_balance - amount) as u64,
        num_withdraws: (entry.num_withdraws + 1) as u64,
        ..entry
    }
}

impl Withdraw {
    /// Why the withdrawal is refused before any transfer is asked for, if it
    /// is: the requester is checked first, then the amount, then the funds,
    /// and last whether the token program is one.
    pub open spec fn refusal(&self, amount: u64) -> Option<OperationError> {
        if self.withdrawer@ != self.vault.vault_authority@ {
            Some(OperationError::Vault(VaultError::Unauthorized))
        } else if amount == 0 {
            Some(OperationError::Vault(VaultError::InvalidAmount))
        } else if self.vault_registry_entry.token_balance < amount
            || self.vault.token_reserve_amount < amount {
            Some(OperationError::Vault(VaultError::InsufficientFunds))
        } else if !is_token_program(self.token_program@) {
            Some(OperationError::Transfer(TransferError::Rejected))
        } else {
            None
        }
    }

    /// The instruction of the transfer that a withdrawal of `amount` asks
    /// for: from the reserve to the withdrawer's token account, signed by the
    /// vault, with the list of extra accounts and the withdrawer's allow-list
    /// record appended for the transfer check.
    pub open spec fn spec_instruction(&self, amount: u64) -> InstructionView {
        let base = transfer_checked_instruction(
            self.token_program,
            self.vault_token_reserve,
            self.mint.key,
            self.withdrawer_token_account,
            self.vault_key,
            amount,
            self.mint.decimals,
        );
        InstructionView {
            accounts: base.accounts.push(
                AccountMeta {
                    pubkey: self.extra_account_meta_list,
                    is_signer: false,
                    is_writable: false,
                },
            ).push(
                AccountMeta {
                    pubkey: self.withdrawer_whitelist_pda,
                    is_signer: false,
                    is_writable: true,
                },
            ),
            ..base
        }
    }

    /// The accounts that the transfer touches.
    pub open spec fn spec_account_infos(&self) -> Seq<Address> {
        seq![
            self.vault_token_reserve,
            self.mint.key,
            self.withdrawer_token_account,
            self.vault_key,
            self.token_program,
            self.extra_account_meta_list,
            self.withdrawer_whitelist_pda,
            self.transfer_hook_program,
        ]
    }

    /// Whether `transfer` is the transfer that a withdrawal of `amount` asks
    /// for.
    pub open spec fn asks(&self, amount: u64, transfer: SignedTransfer) -> bool {
        &&& transfer.instruction@ == self.spec_instruction(amount)
        &&& transfer.account_infos@ == self.spec_account_infos()
        &&& transfer.signer.authority() == self.vault.vault_authority
        &&& transfer.signer.bump() == self.vault.bump
    }

    /// Whether booking a withdrawal of `amount` stays within the counters;
    /// the variant says which of them does not.
    pub open spec fn booking_error(&self, amount: u64) -> Option<VaultError> {
        if self.vault.token_reserve_amount < amount {
            Some(VaultError::Underflow)
        } else if self.vault_registry_entry.token_balance < amount {
            Some(VaultError::Overflow)
        } else if self.vault_registry_entry.num_withdraws == u64::MAX {
            Some(VaultError::Overflow)
        } else {
            None
        }
    }

    /// The accounts after a withdrawal of `amount` was booked.
    pub open spec fn booked(self, amount: u64) -> Withdraw {
        Withdraw {
            vault: vault_after_withdrawal(self.vault, amount),
            vault_registry_entry: entry_after_withdrawal(self.vault_registry_entry, amount),
            ..self
        }
    }

    /// The result of the withdrawal and the accounts after it, once the
    /// token program has reported `outcome` for the transfer: an aborted
    /// transfer and a counter out of range leave everything as it was.
    pub open spec fn settled(self, amount: u64, outcome: TransferOutcome) -> (
        Result<(), OperationError>,
        Withdraw,
    ) {
        match outcome {
            Err(e) => (Err(OperationError::Transfer(e)), self),
            Ok(()) => match self.booking_error(amount) {
                Some(e) => (Err(OperationError::Vault(e)), self),
                None => (Ok(()), self.booked(amount)),
            },
        }
    }

    /// Describes the transfer of a withdrawal of `amount`, without checking
    /// whether the withdrawal is allowed.
    ///
    /// Fails with `Rejected` exactly when the token program of the accounts
    /// is neither token program.
    pub fn transfer_request(&self, amount: u64) -> (r: Result<SignedTransfer, OperationError>)
        ensures
            r is Ok <==> is_token_program(self.token_program@),
            r matches Ok(t) ==> self.asks(amount, t),
            r matches Err(e) ==> e == OperationError::Transfer(TransferError::Rejected),
    {
        let built = transfer_checked(
            &self.token_program,
            &self.vault_token_reserve,
            &self.mint.key,
            &self.withdrawer_token_account,
            &self.vault_key,
            amount,
            self.mint.decimals,
        );
        let mut instruction = match built {
            Ok(ix) => ix,
            Err(_) => {
                return Err(OperationError::Transfer(TransferError::Rejected));
            },
        };
        instruction.accounts.push(AccountMeta::new_readonly(self.extra_account_meta_list, false));
        instruction.accounts.push(AccountMeta::new(self.withdrawer_whitelist_pda, false));
        let account_infos = [
            self.vault_token_reserve,
            self.mint.key,
            self.withdrawer_token_account,
            self.vault_key,
            self.token_program,
            self.extra_account_meta_list,
            self.withdrawer_whitelist_pda,
            self.transfer_hook_program,
        ];
        assert(account_infos@ =~= self.spec_account_infos());
        Ok(SignedTransfer { instruction, account_infos, signer: VaultSigner::of(&self.vault) })
    }

    /// Books a withdrawal of `amount` for which the token program has
    /// reported `outcome`.
    ///
    /// Where the transfer completed and the counters allow it, the reserve
    /// and the withdrawer's balance go down by `amount` and the count of
    /// withdrawals goes up by one. Else the error says why, and nothing has
    /// changed.
    pub fn settle(&mut self, amount: u64, outcome: TransferOutcome) -> (r: Result<
        (),
        OperationError,
    >)
        ensures
            (r, *final(self)) == old(self).settled(amount, outcome),
            r is Ok ==> {
                &&& final(self).vault.token_reserve_amount == old(self).vault.token_reserve_amount
                    - amount
                &&& final(self).vault_registry_entry.token_balance == old(
                    self,
                ).vault_registry_entry.token_balance - amount
                &&& final(self).vault_registry_entry.num_withdraws == old(
                    self,
                ).vault_registry_entry.num_withdraws + 1
            },
            r is Err ==> *final(self) == *old(self),
    {
        if let Err(e) = outcome {
            return Err(OperationError::Transfer(e));
        }
        let reserve = match self.vault.token_reserve_amount.checked_sub(amount) {
            Some(v) => v,
            None => {
                return Err(OperationError::Vault(VaultError::Underflow));
            },
        };
        let balance = match self.vault_registry_entry.token_balance.checked_sub(amount) {
            Some(v) => v,
            None => {
                return Err(OperationError::Vault(VaultError::Overflow));
            },
        };
        let withdraws = match self.vault_registry_entry.num_withdraws.checked_add(1) {
            Some(v) => v,
            None => {
                return Err(OperationError::Vault(VaultError::Overflow));
            },
        };
        self.vault.token_reserve_amount = reserve;
        self.vault_registry_entry.token_balance = balance;
        self.vault_registry_entry.num_withdraws = withdraws;
        Ok(())
    }

    /// Withdraws `amount` from the vault to the withdrawer.
    ///
    /// Only the vault's authority may withdraw, a positive amount, and no
    /// more than both its registry balance and the reserve hold. The vault
    /// then hands the transfer, signed with its own derived authority, to
    /// `transfer`, which has the token program carry it out and reports how it
    /// ended; only a completed transfer is booked. Whenever the withdrawal
    /// fails, for whatever reason, the accounts are as they were.
    pub fn withdraw<F: FnOnce(SignedTransfer) -> TransferOutcome>(
        &mut self,
        amount: u64,
        transfer: F,
    ) -> (r: Result<(), OperationError>)
        requires
            forall|t: SignedTransfer| old(self).asks(amount, t) ==> transfer.requires((t,)),
        ensures
            old(self).refusal(amount) matches Some(e) ==> r == Err::<(), OperationError>(e)
                && *final(self) == *old(self),
            old(self).refusal(amount) is None ==> exists|t: SignedTransfer, outcome: TransferOutcome|
                {
                    &&& old(self).asks(amount, t)
                    &&& transfer.ensures((t,), outcome)
                    &&& (r, *final(self)) == old(self).settled(amount, outcome)
                },
            r is Err ==> *final(self) == *old(self),
    {
        if !(self.withdrawer == self.vault.vault_authority) {
            return Err(OperationError::Vault(VaultError::Unauthorized));
        }
        if amount == 0 {
            return Err(OperationError::Vault(VaultError::InvalidAmount));
        }
        if self.vault_registry_entry.token_balance < amount {
            return Err(OperationError::Vault(VaultError::InsufficientFunds));
        }
        if self.vault.token_reserve_amount < amount {
            return Err(OperationError::Vault(VaultError::InsufficientFunds));
        }
        let request = match self.transfer_request(amount) {
            Ok(t) => t,
            Err(e) => {
                return Err(e);
            },
        };
        let outcome = transfer(request);
        self.settle(amount, outcome)
    }
}

} // verus!
