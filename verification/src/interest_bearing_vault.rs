//! The vault: one pooled reserve per authority, with per-depositor accounting.
pub mod deposit;
pub mod errors;
pub mod initialize;
pub mod state;
pub mod transfer;
pub mod withdraw;
