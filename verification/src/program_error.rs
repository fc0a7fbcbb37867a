//! The error type of the token libraries.
use vstd::prelude::*;

verus! {

/// `anchor_lang::prelude::ProgramError`, the error that the token libraries
/// return. The vault and the transfer policy never look inside it: they map
/// it to an error kind of their own.
#[verifier::external_type_specification]
#[verifier::external_body]
pub struct ExProgramError(anchor_lang::prelude::ProgramError);

} // verus!
