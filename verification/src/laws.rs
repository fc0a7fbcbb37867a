//! What holds across the operations of the vault and of the transfer policy.
//!
//! Each law is stated over the specification functions that the contracts
//! of the operations themselves use, so what is proved here holds of every
//! run of the operations.
use crate::interest_bearing_vault::deposit::{balance_of, deposits_of, withdraws_of, Deposit};
use crate::interest_bearing_vault::errors::{OperationError, TransferError, VaultError};
use crate::interest_bearing_vault::state::{VaultRegistryEntryView, VaultView};
use crate::interest_bearing_vault::transfer::{is_token_program, TransferOutcome};
use crate::interest_bearing_vault::withdraw::Withdraw;
use crate::transfer_hook::errors::WhitelistError;
use crate::transfer_hook::on_transfer::{transferring_flag, TransferHook};
use crate::transfer_hook::whitelist_operations::WhitelistOperations;
use vstd::prelude::*;

verus! {

/// A deposit whose transfer completed adds exactly the amount to the
/// reserve and to the depositor's balance, and counts as one deposit of the
/// vault and one of the depositor. The depositor's withdrawals and every
/// other field of the vault stay as they were; the depositor's entry, new
/// or not, names the vault and the asset.
///
/// This holds of every deposit that no counter or balance refuses for being
/// at the end of its range.
pub proof fn law_deposit_adds_the_amount(accounts: Deposit, amount: u64, registry_bump: u8)
    requires
        !accounts.overflows(amount),
    ensures
        ({
            let (result, after) = accounts.settled(amount, registry_bump, Ok(()));
            let before = accounts.vault_registry_entry;
            &&& result is Ok
            &&& after.vault@ == (VaultView {
                token_reserve_amount: (accounts.vault@.token_reserve_amount + amount) as nat,
                num_depositors: (accounts.vault@.num_depositors + 1) as nat,
                ..accounts.vault@
            })
            &&& after.vault_registry_entry matches Some(entry) && entry@ == (
            VaultRegistryEntryView {
                vault: accounts.vault_key@,
                mint: accounts.mint.key@,
                token_balance: (balance_of(before) + amount) as nat,
                num_withdraws: withdraws_of(before) as nat,
                num_deposits: (deposits_of(before) + 1) as nat,
                bump: registry_bump,
            })
        }),
{
}

/// A deposit that fails, whatever the reason, changes nothing; and it fails
/// exactly when the transfer was aborted or a counter or balance is at the
/// end of its range.
pub proof fn law_failed_deposit_changes_nothing(
    accounts: Deposit,
    amount: u64,
    registry_bump: u8,
    outcome: TransferOutcome,
)
    ensures
        ({
            let (result, after) = accounts.settled(amount, registry_bump, outcome);
            &&& result is Err <==> outcome is Err || accounts.overflows(amount)
            &&& result is Err ==> after == accounts
        }),
{
}

/// A withdrawal by the authority, of a positive amount that is no more than
/// both the registry balance and the reserve, takes exactly the amount from
/// both and counts as one withdrawal; nothing else changes.
///
/// This holds whenever the transfer completed, which takes a token program
/// to ask, and the count of withdrawals is not at the end of its range.
pub proof fn law_withdrawal_takes_the_amount(accounts: Withdraw, amount: u64)
    requires
        accounts.withdrawer@ == accounts.vault.vault_authority@,
        0 < amount,
        amount <= accounts.vault_registry_entry.token_balance,
        amount <= accounts.vault.token_reserve_amount,
        is_token_program(accounts.token_program@),
        accounts.vault_registry_entry.num_withdraws < u64::MAX,
    ensures
        accounts.refusal(amount) is None,
        ({
            let (result, after) = accounts.settled(amount, Ok(()));
            &&& result is Ok
            &&& after.vault@ == (VaultView {
                token_reserve_amount: (accounts.vault@.token_reserve_amount - amount) as nat,
                ..accounts.vault@
            })
            &&& after.vault_registry_entry@ == (VaultRegistryEntryView {
                token_balance: (accounts.vault_registry_entry@.token_balance - amount) as nat,
                num_withdraws: (accounts.vault_registry_entry@.num_withdraws + 1) as nat,
                ..accounts.vault_registry_entry@
            })
        }),
{
}

/// A withdrawal of more than the registry balance or more than the reserve
/// holds, or by another identity than the authority, is refused before any
/// transfer is asked for; and a withdrawal that fails after the transfer
/// was asked for changes nothing either.
pub proof fn law_refused_withdrawal_changes_nothing(
    accounts: Withdraw,
    amount: u64,
    outcome: TransferOutcome,
)
    ensures
        accounts.withdrawer@ != accounts.vault.vault_authority@
            || amount > accounts.vault_registry_entry.token_balance
            || amount > accounts.vault.token_reserve_amount ==> accounts.refusal(amount) is Some,
        accounts.withdrawer@ == accounts.vault.vault_authority@ && amount > 0 && (amount
            > accounts.vault_registry_entry.token_balance || amount
            > accounts.vault.token_reserve_amount) ==> accounts.refusal(amount) == Some(
            OperationError::Vault(VaultError::InsufficientFunds),
        ),
        accounts.settled(amount, outcome).0 is Err ==> accounts.settled(amount, outcome).1
            == accounts,
{
}

/// A withdrawal by any identity other than the vault's authority is refused
/// as `Unauthorized`, whatever the amount and whatever else the accounts
/// hold.
pub proof fn law_only_the_authority_withdraws(accounts: Withdraw, amount: u64)
    requires
        accounts.withdrawer@ != accounts.vault.vault_authority@,
    ensures
        accounts.refusal(amount) == Some(OperationError::Vault(VaultError::Unauthorized)),
{
}

/// A transfer in progress whose owner has no allow-list record is aborted
/// with `AccountNotWhitelisted`, and the deposit or withdrawal that asked
/// for it fails with that reason and changes nothing.
pub proof fn law_unlisted_owner_aborts_the_transfer(
    hook: TransferHook,
    deposit: Deposit,
    withdrawal: Withdraw,
    amount: u64,
    registry_bump: u8,
)
    requires
        transferring_flag(hook.source_token@) == Some(true),
        hook.user_whitelist_account.entry is None,
    ensures
        hook.spec_transfer_hook() == Err::<(), WhitelistError>(
            WhitelistError::AccountNotWhitelisted,
        ),
        ({
            let aborted: TransferOutcome = Err(
                TransferError::Policy(WhitelistError::AccountNotWhitelisted),
            );
            let failure: Result<(), OperationError> = Err(
                OperationError::Transfer(
                    TransferError::Policy(WhitelistError::AccountNotWhitelisted),
                ),
            );
            &&& deposit.settled(amount, registry_bump, aborted) == (failure, deposit)
            &&& withdrawal.settled(amount, aborted) == (failure, withdrawal)
        }),
{
}

/// Adding an address to the allow-list twice is the same as adding it once:
/// after either, the account holds one record, that of the address and the
/// asset.
pub proof fn law_adding_is_idempotent(accounts: WhitelistOperations, bump: u8)
    ensures
        accounts.added(bump).added(bump) == accounts.added(bump),
        accounts.added(bump).whitelist_pda.entry == Some(accounts.record(bump)),
        accounts.added(bump).record(bump) == accounts.record(bump),
{
}

/// Once an address is removed from the allow-list, the check aborts every
/// transfer that comes with its account, whoever the owner and whatever the
/// source holds.
pub proof fn law_removed_address_cannot_transfer(accounts: WhitelistOperations, hook: TransferHook)
    requires
        hook.user_whitelist_account == accounts.removed().whitelist_pda,
    ensures
        accounts.removed().whitelist_pda.entry is None,
        hook.spec_transfer_hook() is Err,
        transferring_flag(hook.source_token@) == Some(true) ==> hook.spec_transfer_hook() == Err::<
            (),
            WhitelistError,
        >(WhitelistError::AccountNotWhitelisted),
{
}

} // verus!
