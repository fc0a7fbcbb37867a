//! Error kinds of the allow-list and of the transfer check.
use vstd::prelude::*;

verus! {

/// The code of the first error kind of each enumeration; the kinds that
/// follow are numbered on from it.
pub const ERROR_CODE_OFFSET: u32 = 6000;

/// Why an allow-list operation or the transfer check refused.
#[derive(Clone, Copy, Debug, PartialEq, Eq, Structural)]
pub enum WhitelistError {
    /// The allow-list account handed in is not a valid one.
    InvalidWhitelistAccount,
    /// The account already exists.
    AccountAlreadyExists,
    /// The account does not exist.
    AccountDoesNotExist,
    /// The allow-list account is not the one derived for the asset and owner.
    AccountDoesNotMatch,
    /// There is no allow-list entry for the owner.
    AccountNotWhitelisted,
    /// The allow-list data could not be read.
    DeserializeWhitelistData,
    /// The check was invoked although no transfer is in progress.
    NotTransferring,
}

/// Why the list of extra accounts could not be declared.
#[derive(Clone, Copy, Debug, PartialEq, Eq, Structural)]
pub enum ExtraAccountMetaError {
    /// The rule is too large or malformed, or does not fit the account.
    InvalidExtraAccountMeta,
}

impl WhitelistError {
    /// The number under which the kind is reported across programs, as a
    /// specification.
    pub open spec fn spec_code(&self) -> u32 {
        match self {
            WhitelistError::InvalidWhitelistAccount => 6000,
            WhitelistError::AccountAlreadyExists => 6001,
            WhitelistError::AccountDoesNotExist => 6002,
            WhitelistError::AccountDoesNotMatch => 6003,
            WhitelistError::AccountNotWhitelisted => 6004,
            WhitelistError::DeserializeWhitelistData => 6005,
            WhitelistError::NotTransferring => 6006,
        }
    }

    /// The kind that is reported under `code`, as a specification.
    pub open spec fn spec_from_code(code: u32) -> Option<WhitelistError> {
        if code == 6000 {
            Some(WhitelistError::InvalidWhitelistAccount)
        } else if code == 6001 {
            Some(WhitelistError::AccountAlreadyExists)
        } else if code == 6002 {
            Some(WhitelistError::AccountDoesNotExist)
        } else if code == 6003 {
            Some(WhitelistError::AccountDoesNotMatch)
        } else if code == 6004 {
            Some(WhitelistError::AccountNotWhitelisted)
        } else if code == 6005 {
            Some(WhitelistError::DeserializeWhitelistData)
        } else if code == 6006 {
            Some(WhitelistError::NotTransferring)
        } else {
            None
        }
    }

    /// The number under which the kind is reported across programs: the
    /// kinds are numbered in the order of their declaration, from
    /// [`ERROR_CODE_OFFSET`] on.
    pub fn code(&self) -> (c: u32)
        ensures
            c == self.spec_code(),
            Self::spec_from_code(c) == Some(*self),
    {
        match self {
            WhitelistError::InvalidWhitelistAccount => ERROR_CODE_OFFSET,
            WhitelistError::AccountAlreadyExists => ERROR_CODE_OFFSET + 1,
            WhitelistError::AccountDoesNotExist => ERROR_CODE_OFFSET + 2,
            WhitelistError::AccountDoesNotMatch => ERROR_CODE_OFFSET + 3,
            WhitelistError::AccountNotWhitelisted => ERROR_CODE_OFFSET + 4,
            WhitelistError::DeserializeWhitelistData => ERROR_CODE_OFFSET + 5,
            WhitelistError::NotTransferring => ERROR_CODE_OFFSET + 6,
        }
    }

    /// The kind that is reported under `code`; `None` for a number that
    /// stands for no kind.
    pub fn from_code(code: u32) -> (r: Option<WhitelistError>)
        ensures
            r == Self::spec_from_code(code),
            r matches Some(kind) ==> kind.spec_code() == code,
            r is Some <==> 6000 <= code <= 6006,
    {
        if code == ERROR_CODE_OFFSET {
            Some(WhitelistError::InvalidWhitelistAccount)
        } else if code == ERROR_CODE_OFFSET + 1 {
            Some(WhitelistError::AccountAlreadyExists)
        } else if code == ERROR_CODE_OFFSET + 2 {
            Some(WhitelistError::AccountDoesNotExist)
        } else if code == ERROR_CODE_OFFSET + 3 {
            Some(WhitelistError::AccountDoesNotMatch)
        } else if code == ERROR_CODE_OFFSET + 4 {
            Some(WhitelistError::AccountNotWhitelisted)
        } else if code == ERROR_CODE_OFFSET + 5 {
            Some(WhitelistError::DeserializeWhitelistData)
        } else if code == ERROR_CODE_OFFSET + 6 {
            Some(WhitelistError::NotTransferring)
        } else {
            None
        }
    }

    /// The fixed message of the error kind.
    pub fn message(&self) -> (m: &'static str)
        ensures
            m@ == self.spec_message(),
    {
        match self {
            WhitelistError::InvalidWhitelistAccount => "Invalid whitelist account",
            WhitelistError::AccountAlreadyExists => "Account already exists",
            WhitelistError::AccountDoesNotExist => "Account does not exist",
            WhitelistError::AccountDoesNotMatch => "Whitelist PDA does not expected PDA",
            WhitelistError::AccountNotWhitelisted => "Whitelist PDA does not exist",
            WhitelistError::DeserializeWhitelistData => "Failed to deserialize whitelist data",
            WhitelistError::NotTransferring => "TransferHook: Not transferring",
        }
    }

    /// The message of each kind, as a specification.
    pub open spec fn spec_message(&self) -> Seq<char> {
        match self {
            WhitelistError::InvalidWhitelistAccount => "Invalid whitelist account"@,
            WhitelistError::AccountAlreadyExists => "Account already exists"@,
            WhitelistError::AccountDoesNotExist => "Account does not exist"@,
            WhitelistError::AccountDoesNotMatch => "Whitelist PDA does not expected PDA"@,
            WhitelistError::AccountNotWhitelisted => "Whitelist PDA does not exist"@,
            WhitelistError::DeserializeWhitelistData => "Failed to deserialize whitelist data"@,
            WhitelistError::NotTransferring => "TransferHook: Not transferring"@,
        }
    }
}

impl ExtraAccountMetaError {
    /// The number under which the kind is reported across programs.
    pub fn code(&self) -> (c: u32)
        ensures
            c == ERROR_CODE_OFFSET,
    {
        ERROR_CODE_OFFSET
    }

    /// The fixed message of the error kind.
    pub fn message(&self) -> (m: &'static str)
        ensures
            m@ == "Invalid ExtraAccountMeta provided"@,
    {
        "Invalid ExtraAccountMeta provided"
    }
}

} // verus!
