//! What the vault hands to the token program when it asks for a transfer.
//!
//! The vault never moves value itself. A deposit or a withdrawal decides
//! whether a transfer is due and describes it; the caller has the token
//! program carry it out, which runs the transfer check on the way, and reports
//! how it ended.
use crate::address::Address;
use crate::interest_bearing_vault::errors::TransferError;
use crate::interest_bearing_vault::state::{Vault, VAULT_SEED};
use anchor_lang::prelude::ProgramError;
use vstd::bytes::spec_u64_to_le_bytes;
use vstd::prelude::*;

verus! {

/// The address of the token program with extensions,
/// `TokenzQdBNbLqP5VEhdkAS6EPFLC1PHnBqCXEpPxuEb`.
pub const TOKEN_2022_PROGRAM_ID: [u8; 32] = [
    6, 221, 246, 225, 238, 117, 143, 222, 24, 66, 93, 188, 228, 108, 205, 218,
    182, 26, 252, 77, 131, 185, 13, 39, 254, 189, 249, 40, 216, 161, 139, 252,
];

/// The address of the token program without extensions,
/// `TokenkegQfeZyiNwAJbNbGKPFXCWuBvf9Ss623VQ5DA`.
pub const TOKEN_PROGRAM_ID: [u8; 32] = [
    6, 221, 246, 225, 215, 101, 161, 147, 217, 203, 225, 70, 206, 235, 121, 172,
    28, 180, 133, 237, 95, 91, 55, 145, 58, 140, 245, 133, 126, 255, 0, 169,
];

/// The first byte of a checked transfer's instruction data.
pub const TRANSFER_CHECKED_TAG: u8 = 12;

/// Whether `id` is one of the two token programs.
pub open spec fn is_token_program(id: Seq<u8>) -> bool {
    id == TOKEN_2022_PROGRAM_ID@ || id == TOKEN_PROGRAM_ID@
}

/// How an outcome of the token program reads to the vault: `Ok` when the
/// value moved, the reason when the transfer was aborted.
pub type TransferOutcome = Result<(), TransferError>;

/// One account of an instruction.
#[derive(Clone, Copy, Debug, PartialEq, Eq)]
pub struct AccountMeta {
    /// The account's address.
    pub pubkey: Address,
    /// Whether the account signs.
    pub is_signer: bool,
    /// Whether the instruction may write to the account.
    pub is_writable: bool,
}

impl AccountMeta {
    /// An account that the instruction may write to.
    pub fn new(pubkey: Address, is_signer: bool) -> (m: AccountMeta)
        ensures
            m == (AccountMeta { pubkey, is_signer, is_writable: true }),
    {
        AccountMeta { pubkey, is_signer, is_writable: true }
    }

    /// An account that the instruction only reads.
    pub fn new_readonly(pubkey: Address, is_signer: bool) -> (m: AccountMeta)
        ensures
            m == (AccountMeta { pubkey, is_signer, is_writable: false }),
    {
        AccountMeta { pubkey, is_signer, is_writable: false }
    }
}

/// An instruction for a program: which program, on which accounts, with what
/// data.
#[derive(Clone, Debug, PartialEq, Eq)]
pub struct Instruction {
    /// The program that executes the instruction.
    pub program_id: Address,
    /// The accounts, in the order the program expects.
    pub accounts: Vec<AccountMeta>,
    /// The data handed to the program.
    pub data: Vec<u8>,
}

/// An [`Instruction`] as contracts see it.
pub struct InstructionView {
    pub program_id: Address,
    pub accounts: Seq<AccountMeta>,
    pub data: Seq<u8>,
}

impl View for Instruction {
    type V = InstructionView;

    open spec fn view(&self) -> InstructionView {
        InstructionView { program_id: self.program_id, accounts: self.accounts@, data: self.data@ }
    }
}

/// The data of a checked transfer: the tag, the amount in eight bytes with
/// the lowest first, and the asset's decimals.
pub open spec fn transfer_checked_data(amount: u64, decimals: u8) -> Seq<u8> {
    seq![TRANSFER_CHECKED_TAG] + spec_u64_to_le_bytes(amount) + seq![decimals]
}

/// The checked-transfer instruction of `amount` from `source` to
/// `destination`, signed by `authority` alone.
pub open spec fn transfer_checked_instruction(
    token_program_id: Address,
    source: Address,
    mint: Address,
    destination: Address,
    authority: Address,
    amount: u64,
    decimals: u8,
) -> InstructionView {
    InstructionView {
        program_id: token_program_id,
        accounts: seq![
            AccountMeta { pubkey: source, is_signer: false, is_writable: true },
            AccountMeta { pubkey: mint, is_signer: false, is_writable: false },
            AccountMeta { pubkey: destination, is_signer: false, is_writable: true },
            AccountMeta { pubkey: authority, is_signer: true, is_writable: false },
        ],
        data: transfer_checked_data(amount, decimals),
    }
}

/// Calls `spl_token_2022::instruction::transfer_checked` with no further
/// signers than the authority.
///
/// Trusted: the outside function refuses exactly the program ids that are
/// neither token program, and else builds the instruction for that program
/// on the source (writable), the mint, the destination (writable) and the
/// authority (signer), in this order, with the data of
/// [`transfer_checked_data`].
#[verifier::external_body]
pub(crate) fn transfer_checked(
    token_program_id: &Address,
    source: &Address,
    mint: &Address,
    destination: &Address,
    authority: &Address,
    amount: u64,
    decimals: u8,
) -> (r: Result<Instruction, ProgramError>)
    ensures
        r is Ok <==> is_token_program(token_program_id@),
        r matches Ok(ix) ==> ix@ == transfer_checked_instruction(
            *token_program_id,
            *source,
            *mint,
            *destination,
            *authority,
            amount,
            decimals,
        ),
{
    let key = anchor_lang::prelude::Pubkey::new_from_array;
    let (program, from, to) = (key(token_program_id.bytes), key(source.bytes), key(destination.bytes));
    let (asset, owner) = (key(mint.bytes), key(authority.bytes));
    let ix = spl_token_2022::instruction::transfer_checked(&program, &from, &asset, &to, &owner, &[], amount, decimals)?;
    let meta = |m: &anchor_lang::prelude::AccountMeta| AccountMeta {
        pubkey: Address { bytes: m.pubkey.to_bytes() },
        is_signer: m.is_signer,
        is_writable: m.is_writable,
    };
    Ok(Instruction {
        program_id: Address { bytes: ix.program_id.to_bytes() },
        accounts: ix.accounts.iter().map(meta).collect(),
        data: ix.data,
    })
}

/// The transfer that a deposit asks for: the depositor, who signed the
/// deposit, moves `amount` into the reserve.
#[derive(Clone, Copy, Debug, PartialEq, Eq)]
pub struct TransferRequest {
    /// The token program that is to carry out the transfer.
    pub token_program: Address,
    /// The token account that is debited.
    pub source: Address,
    /// The asset.
    pub mint: Address,
    /// The token account that is credited.
    pub destination: Address,
    /// The owner of the source, who authorises the debit.
    pub authority: Address,
    /// What the transfer check needs beyond these: the list of extra
    /// accounts, the owner's allow-list record, and the policy program.
    pub additional_accounts: [Address; 3],
    /// How much to move.
    pub amount: u64,
    /// The asset's decimals, which the token program checks.
    pub decimals: u8,
}

/// The vault's authority over its reserve: the seeds of the vault's derived
/// address. The token program accepts them in place of a signature, so no
/// key is ever held. Only a vault record yields one.
#[derive(Clone, Copy, Debug, PartialEq, Eq)]
pub struct VaultSigner {
    authority: Address,
    bump: u8,
}

impl VaultSigner {
    /// The authority whose vault signs.
    pub closed spec fn authority(&self) -> Address {
        self.authority
    }

    /// The bump seed of the vault.
    pub closed spec fn bump(&self) -> u8 {
        self.bump
    }

    /// The seeds, as a specification: the tag, the authority, the bump seed.
    pub open spec fn spec_seeds(&self) -> Seq<Seq<u8>> {
        seq![VAULT_SEED@, self.authority()@, seq![self.bump()]]
    }

    /// The signer of `vault`.
    pub fn of(vault: &Vault) -> (s: VaultSigner)
        ensures
            s.authority() == vault.vault_authority,
            s.bump() == vault.bump,
    {
        VaultSigner { authority: vault.vault_authority, bump: vault.bump }
    }

    /// The seeds to hand to the token program.
    pub fn seeds(&self) -> (s: Vec<Vec<u8>>)
        ensures
            s.deep_view() == self.spec_seeds(),
    {
        let mut bump: Vec<u8> = Vec::new();
        bump.push(self.bump);
        let mut seeds: Vec<Vec<u8>> = Vec::new();
        seeds.push(crate::address::seed_of(&VAULT_SEED));
        seeds.push(self.authority.to_vec());
        seeds.push(bump);
        assert(seeds.deep_view() =~~= self.spec_seeds());
        seeds
    }
}

/// The transfer that a withdrawal asks for: the instruction, and the vault's
/// authority that signs it.
#[derive(Clone, Debug, PartialEq, Eq)]
pub struct SignedTransfer {
    /// The instruction for the token program.
    pub instruction: Instruction,
    /// The accounts that the instruction touches, the programs included.
    pub account_infos: [Address; 8],
    /// The vault's authority over the reserve.
    pub signer: VaultSigner,
}

} // verus!
