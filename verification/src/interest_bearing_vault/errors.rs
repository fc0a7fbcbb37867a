//! Error kinds of the vault.
use crate::transfer_hook::errors::{WhitelistError, ERROR_CODE_OFFSET};
use vstd::prelude::*;

verus! {

/// Why the list of extra accounts could not be declared.
#[derive(Clone, Copy, Debug, PartialEq, Eq, Structural)]
pub enum ExtraAccountMetaError {
    /// The rule is too large or malformed.
    InvalidExtraAccountMeta,
}

/// Why the vault itself refused an operation.
#[derive(Clone, Copy, Debug, PartialEq, Eq, Structural)]
pub enum VaultError {
    /// The amount is zero.
    InvalidAmount,
    /// The amount exceeds the depositor's balance or the reserve.
    InsufficientFunds,
    /// A counter or balance would exceed 64 bits.
    Overflow,
    /// The reserve would fall below zero.
    Underflow,
    /// The requester is not the vault's authority.
    Unauthorized,
    /// The vault of this authority exists already.
    AlreadyInitialized,
}

/// Why the token program aborted a transfer that the vault asked for.
#[derive(Clone, Copy, Debug, PartialEq, Eq, Structural)]
pub enum TransferError {
    /// The transfer check refused, for the given reason.
    Policy(WhitelistError),
    /// The token program refused for a reason of its own.
    Rejected,
}

/// Why a deposit or a withdrawal failed. Whatever the reason, nothing was
/// changed.
#[derive(Clone, Copy, Debug, PartialEq, Eq, Structural)]
pub enum OperationError {
    /// The vault refused.
    Vault(VaultError),
    /// The transfer was aborted.
    Transfer(TransferError),
}

impl TransferError {
    /// Why a transfer was aborted, as a specification: see
    /// [`TransferError::from_code`].
    pub open spec fn spec_from_code(code: Option<u32>) -> TransferError {
        match code {
            Some(c) => match WhitelistError::spec_from_code(c) {
                Some(kind) => TransferError::Policy(kind),
                None => TransferError::Rejected,
            },
            None => TransferError::Rejected,
        }
    }

    /// Reads why a transfer was aborted from the number that came back
    /// with it, if one did: a number of the transfer check is its reason,
    /// anything else a refusal of the token program.
    pub fn from_code(code: Option<u32>) -> (e: TransferError)
        ensures
            e == Self::spec_from_code(code),
    {
        match code {
            Some(c) => match WhitelistError::from_code(c) {
                Some(kind) => TransferError::Policy(kind),
                None => TransferError::Rejected,
            },
            None => TransferError::Rejected,
        }
    }
}

impl VaultError {
    /// The number under which the kind is reported across programs, as a
    /// specification.
    pub open spec fn spec_code(&self) -> u32 {
        match self {
            VaultError::InvalidAmount => 6000,
            VaultError::InsufficientFunds => 6001,
            VaultError::Overflow => 6002,
            VaultError::Underflow => 6003,
            VaultError::Unauthorized => 6004,
            VaultError::AlreadyInitialized => 6005,
        }
    }

    /// The kind that is reported under `code`, as a specification.
    pub open spec fn spec_from_code(code: u32) -> Option<VaultError> {
        if code == 6000 {
            Some(VaultError::InvalidAmount)
        } else if code == 6001 {
            Some(VaultError::InsufficientFunds)
        } else if code == 6002 {
            Some(VaultError::Overflow)
        } else if code == 6003 {
            Some(VaultError::Underflow)
        } else if code == 6004 {
            Some(VaultError::Unauthorized)
        } else if code == 6005 {
            Some(VaultError::AlreadyInitialized)
        } else {
            None
        }
    }

    /// The kind that is reported under `code`; `None` for a number that
    /// stands for no kind.
    pub fn from_code(code: u32) -> (r: Option<VaultError>)
        ensures
            r == Self::spec_from_code(code),
            r matches Some(kind) ==> kind.spec_code() == code,
            r is Some <==> 6000 <= code <= 6005,
    {
        if code == ERROR_CODE_OFFSET {
            Some(VaultError::InvalidAmount)
        } else if code == ERROR_CODE_OFFSET + 1 {
            Some(VaultError::InsufficientFunds)
        } else if code == ERROR_CODE_OFFSET + 2 {
            Some(VaultError::Overflow)
        } else if code == ERROR_CODE_OFFSET + 3 {
            Some(VaultError::Underflow)
        } else if code == ERROR_CODE_OFFSET + 4 {
            Some(VaultError::Unauthorized)
        } else if code == ERROR_CODE_OFFSET + 5 {
            Some(VaultError::AlreadyInitialized)
        } else {
            None
        }
    }

    /// The number under which the kind is reported across programs: the
    /// kinds are numbered in the order of their declaration, from the
    /// common offset on, so that the number tells the kind.
    pub fn code(&self) -> (c: u32)
        ensures
            c == self.spec_code(),
            Self::spec_from_code(c) == Some(*self),
    {
        match self {
            VaultError::InvalidAmount => ERROR_CODE_OFFSET,
            VaultError::InsufficientFunds => ERROR_CODE_OFFSET + 1,
            VaultError::Overflow => ERROR_CODE_OFFSET + 2,
            VaultError::Underflow => ERROR_CODE_OFFSET + 3,
            VaultError::Unauthorized => ERROR_CODE_OFFSET + 4,
            VaultError::AlreadyInitialized => ERROR_CODE_OFFSET + 5,
        }
    }

    /// The fixed message of the error kind.
    pub fn message(&self) -> (m: &'static str)
        ensures
            m@ == self.spec_message(),
    {
        match self {
            VaultError::InvalidAmount => "Invalid amount: must be greater than 0",
            VaultError::InsufficientFunds => "Insufficient funds in vault",
            VaultError::Overflow => "Arithmetic overflow",
            VaultError::Underflow => "Arithmetic underflow",
            VaultError::Unauthorized => "Unauthorized: only vault authority can perform this action",
            VaultError::AlreadyInitialized => "Vault already initialized",
        }
    }

    /// The message of each kind, as a specification.
    pub open spec fn spec_message(&self) -> Seq<char> {
        match self {
            VaultError::InvalidAmount => "Invalid amount: must be greater than 0"@,
            VaultError::InsufficientFunds => "Insufficient funds in vault"@,
            VaultError::Overflow => "Arithmetic overflow"@,
            VaultError::Underflow => "Arithmetic underflow"@,
            VaultError::Unauthorized => "Unauthorized: only vault authority can perform this action"@,
            VaultError::AlreadyInitialized => "Vault already initialized"@,
        }
    }
}

impl ExtraAccountMetaError {
    /// The number under which the kind is reported across programs.
    pub fn code(&self) -> (c: u32)
        ensures
            c == ERROR_CODE_OFFSET,
    {
        ERROR_CODE_OFFSET
    }

    /// The fixed message of the error kind.
    pub fn message(&self) -> (m: &'static str)
        ensures
            m@ == "Invalid ExtraAccountMeta provided"@,
    {
        "Invalid ExtraAccountMeta provided"
    }
}

} // verus!
