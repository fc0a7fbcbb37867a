//! The transfer policy: allow-list records and the check on every transfer.
pub mod errors;
pub mod extra_accounts;
pub mod on_transfer;
pub mod state;
pub mod whitelist_operations;
