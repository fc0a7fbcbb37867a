//! A custodial token vault whose every transfer is gated by an allow-list hook.
//!
//! The crate has two halves, one for each of the two on-chain programs
//! that are built on it:
//!
//! * [`interest_bearing_vault`] keeps the accounting of one pooled reserve:
//!   who may withdraw, how much each depositor has put in, and how the
//!   counters move on every deposit and withdrawal.
//! * [`transfer_hook`] is the policy side: the allow-list records, the rule
//!   that tells the token program which extra account a transfer needs, and
//!   the check that runs in the middle of every transfer.
//!
//! [`address`] holds what both share: 32-byte account addresses and the
//! derivation of program addresses from seeds; [`layout`] reads and writes
//! the stored form of the records. [`laws`] states what holds
//! across the operations of both halves.
pub mod address;
pub mod interest_bearing_vault;
pub mod laws;
pub mod layout;
pub mod program_error;
pub mod transfer_hook;
