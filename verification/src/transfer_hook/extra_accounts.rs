//! The rule that tells the token program which extra account a transfer of
//! the asset needs.
//!
//! The transfer check reads the owner's allow-list record, an account that
//! the sender of a transfer does not name. The rule, written once per asset
//! into a validation account, lets the token program derive that account for
//! every transfer: from the tag `whitelist` and the address of the owner of
//! the source.
use crate::address::Address;
use crate::transfer_hook::errors::ExtraAccountMetaError;
use crate::transfer_hook::state::WHITELIST_SEED;
use anchor_lang::prelude::ProgramError;
use spl_tlv_account_resolution::state::ExtraAccountMetaList;
use spl_transfer_hook_interface::instruction::ExecuteInstruction;
use vstd::prelude::*;

verus! {

/// The place of the source's owner among the accounts of a transfer check:
/// after the source, the asset and the destination.
pub const OWNER_ACCOUNT_INDEX: u8 = 3;

/// The discriminator of an extra account whose address is derived from
/// seeds under the executing program.
pub const PDA_DISCRIMINATOR: u8 = 1;

/// The number of bytes into which the seeds of one extra account must fit.
pub const ADDRESS_CONFIG_BYTES: usize = 32;

/// The number of bytes that one extra account takes in the validation
/// account.
pub const EXTRA_ACCOUNT_META_BYTES: usize = 35;

/// The number of bytes of the validation account that precede the extra
/// accounts: the type, its length, and the number of entries.
pub const EXTRA_ACCOUNT_META_LIST_HEADER_BYTES: usize = 16;

/// One seed of a derived extra account.
#[derive(Clone, Debug, PartialEq, Eq)]
pub enum Seed {
    /// Fixed bytes.
    Literal { bytes: Vec<u8> },
    /// The address of the account at `index` among the accounts of the
    /// instruction.
    AccountKey { index: u8 },
}

/// A [`Seed`] as contracts see it.
pub enum SeedView {
    Literal { bytes: Seq<u8> },
    AccountKey { index: u8 },
}

impl View for Seed {
    type V = SeedView;

    open spec fn view(&self) -> SeedView {
        match self {
            Seed::Literal { bytes } => SeedView::Literal { bytes: bytes@ },
            Seed::AccountKey { index } => SeedView::AccountKey { index: *index },
        }
    }
}

/// The views of a list of seeds.
pub open spec fn seed_views(seeds: Seq<Seed>) -> Seq<SeedView> {
    seeds.map_values(|s: Seed| s@)
}

/// One required extra account, as the validation account stores it.
#[derive(Clone, Copy, Debug, PartialEq, Eq)]
pub struct ExtraAccountMeta {
    /// How `address_config` is to be read.
    pub discriminator: u8,
    /// A fixed address, or the packed seeds of a derived one.
    pub address_config: [u8; 32],
    /// Whether the account signs.
    pub is_signer: bool,
    /// Whether the account is written to.
    pub is_writable: bool,
}

/// The packed form of one seed: a type byte, then for fixed bytes their
/// number and the bytes, for an account's address its index.
pub open spec fn packed_seed(seed: SeedView) -> Seq<u8> {
    match seed {
        SeedView::Literal { bytes } => seq![1u8, bytes.len() as u8] + bytes,
        SeedView::AccountKey { index } => seq![3u8, index],
    }
}

/// The packed forms of the seeds, one after the other.
pub open spec fn packed_seeds(seeds: Seq<SeedView>) -> Seq<u8>
    decreases seeds.len(),
{
    if seeds.len() == 0 {
        Seq::<u8>::empty()
    } else {
        packed_seeds(seeds.drop_last()) + packed_seed(seeds.last())
    }
}

/// `packed`, filled up with zero bytes to the size of an address
/// configuration.
pub open spec fn zero_padded(packed: Seq<u8>) -> Seq<u8> {
    Seq::new(
        ADDRESS_CONFIG_BYTES as nat,
        |i: int| if i < packed.len() { packed[i] } else { 0u8 },
    )
}

/// Whether no fixed seed of `seeds` has more than 253 bytes.
pub open spec fn seeds_are_short(seeds: Seq<SeedView>) -> bool {
    forall|i: int|
        0 <= i < seeds.len() ==> (#[trigger] seeds[i] matches SeedView::Literal { bytes }
            ==> bytes.len() <= 253)
}

/// Calls `spl_tlv_account_resolution::account::ExtraAccountMeta::new_with_seeds`.
///
/// Trusted: the outside function packs the seeds as [`packed_seeds`] says
/// into 32 bytes, the rest zero, and fails exactly when they do not fit; the
/// entry it builds has the discriminator of a derived account and the two
/// flags as given. Seeds of 254 bytes and more, on which its size
/// arithmetic leaves the range of a byte, are left out.
#[verifier::external_body]
pub(crate) fn new_with_seeds(seeds: &Vec<Seed>, is_signer: bool, is_writable: bool) -> (r: Result<
    ExtraAccountMeta,
    ProgramError,
>)
    requires
        seeds_are_short(seed_views(seeds@)),
    ensures
        r is Ok <==> packed_seeds(seed_views(seeds@)).len() <= ADDRESS_CONFIG_BYTES,
        r matches Ok(meta) ==> {
            &&& meta.discriminator == PDA_DISCRIMINATOR
            &&& meta.address_config@ == zero_padded(packed_seeds(seed_views(seeds@)))
            &&& meta.is_signer == is_signer
            &&& meta.is_writable == is_writable
        },
{
    let configs: Vec<spl_tlv_account_resolution::seeds::Seed> = seeds.iter().map(|s| match s {
        Seed::Literal { bytes } => spl_tlv_account_resolution::seeds::Seed::Literal { bytes: bytes.clone() },
        Seed::AccountKey { index } => spl_tlv_account_resolution::seeds::Seed::AccountKey { index: *index },
    }).collect();
    let meta = spl_tlv_account_resolution::account::ExtraAccountMeta::new_with_seeds(&configs, is_signer, is_writable)?;
    Ok(ExtraAccountMeta {
        discriminator: meta.discriminator,
        address_config: meta.address_config,
        is_signer: meta.is_signer.into(),
        is_writable: meta.is_writable.into(),
    })
}

/// What `ExtraAccountMetaList::init` for the transfer check leaves in a
/// validation account that held `data`, when it is given `metas`; `None`
/// where it fails.
pub uninterp spec fn written_meta_list(data: Seq<u8>, metas: Seq<ExtraAccountMeta>) -> Option<
    Seq<u8>,
>;

/// Whether every byte of `data` is zero, as in an account that was just
/// created.
pub open spec fn is_blank(data: Seq<u8>) -> bool {
    forall|i: int| 0 <= i < data.len() ==> data[i] == 0
}

/// The number of bytes that a validation account with `n` extra accounts
/// needs.
pub open spec fn meta_list_size(n: nat) -> nat {
    EXTRA_ACCOUNT_META_LIST_HEADER_BYTES as nat + EXTRA_ACCOUNT_META_BYTES as nat * n
}

/// Calls `spl_tlv_account_resolution::state::ExtraAccountMetaList::init` for
/// the instruction of the transfer check.
///
/// Trusted: on success the account holds what [`written_meta_list`] names,
/// and a blank account of exactly the size for the list takes it, as the
/// outside function's documentation shows (as long as the size fits 32
/// bits). On an account that is not blank the outside function may panic:
/// such accounts are left out. On failure the account's content is not
/// known; its size never changes.
#[verifier::external_body]
pub(crate) fn init_execute_meta_list(data: &mut Vec<u8>, metas: &Vec<ExtraAccountMeta>) -> (r:
    Result<(), ProgramError>)
    requires
        is_blank(old(data)@),
    ensures
        final(data)@.len() == old(data)@.len(),
        match r {
            Ok(()) => written_meta_list(old(data)@, metas@) == Some(final(data)@),
            Err(_) => written_meta_list(old(data)@, metas@) is None,
        },
        old(data)@.len() == meta_list_size(metas@.len()) && old(data)@.len() <= u32::MAX ==> r
            is Ok,
{
    let list: Vec<spl_tlv_account_resolution::account::ExtraAccountMeta> = metas.iter().map(
        |m| spl_tlv_account_resolution::account::ExtraAccountMeta {
            discriminator: m.discriminator,
            address_config: m.address_config,
            is_signer: m.is_signer.into(),
            is_writable: m.is_writable.into(),
        },
    ).collect();
    ExtraAccountMetaList::init::<ExecuteInstruction>(data, &list)
}

/// Calls `spl_tlv_account_resolution::state::ExtraAccountMetaList::size_of`.
///
/// Trusted: the size for `num_items` extra accounts is the header of 16
/// bytes and 35 bytes for each, wherever that is within the machine's
/// range.
#[verifier::external_body]
pub(crate) fn meta_list_size_of(num_items: usize) -> (r: Result<usize, ProgramError>)
    ensures
        meta_list_size(num_items as nat) <= usize::MAX ==> r is Ok,
        r matches Ok(size) ==> meta_list_size(num_items as nat) <= usize::MAX ==> size
            == meta_list_size(num_items as nat),
{
    ExtraAccountMetaList::size_of(num_items)
}

/// The seeds of the one rule: the tag `whitelist`, then the address of the
/// owner of the source.
pub open spec fn whitelist_rule_seeds() -> Seq<SeedView> {
    seq![
        SeedView::Literal { bytes: WHITELIST_SEED@ },
        SeedView::AccountKey { index: OWNER_ACCOUNT_INDEX },
    ]
}

/// The address configuration of the one rule.
pub open spec fn whitelist_rule_config() -> Seq<u8> {
    seq![
        1u8, 9, 119, 104, 105, 116, 101, 108, 105, 115, 116, 3, 3, 0, 0, 0,
        0, 0, 0, 0, 0, 0, 0, 0, 0, 0, 0, 0, 0, 0, 0, 0,
    ]
}

/// Whether `meta` is the one rule: an account derived under the policy
/// program from the tag and the owner's address, that neither signs nor is
/// written to.
pub open spec fn is_whitelist_rule(meta: ExtraAccountMeta) -> bool {
    &&& meta.discriminator == PDA_DISCRIMINATOR
    &&& meta.address_config@ == whitelist_rule_config()
    &&& !meta.is_signer
    &&& !meta.is_writable
}

/// The packed seeds of the rule are its address configuration.
pub proof fn lemma_whitelist_rule_config()
    ensures
        packed_seeds(whitelist_rule_seeds()).len() == 13,
        zero_padded(packed_seeds(whitelist_rule_seeds())) == whitelist_rule_config(),
{
    let seeds = whitelist_rule_seeds();
    let first = seeds.drop_last();
    assert(first.len() == 1);
    assert(first.drop_last().len() == 0);
    reveal_with_fuel(packed_seeds, 3);
    let packed = packed_seeds(seeds);
    assert(packed_seeds(first.drop_last()) =~= Seq::<u8>::empty());
    assert(first.last() == seeds[0]);
    assert(packed_seed(seeds[0]) =~= seq![1u8, 9, 119, 104, 105, 116, 101, 108, 105, 115, 116]);
    assert(packed_seed(seeds[1]) =~= seq![3u8, 3]);
    assert(packed =~= seq![1u8, 9, 119, 104, 105, 116, 101, 108, 105, 115, 116, 3, 3]);
    assert(zero_padded(packed) =~= whitelist_rule_config());
}

/// The accounts of the declaration of an asset's extra accounts.
#[derive(Clone, Debug, PartialEq, Eq)]
pub struct InitializeExtraAccountMetaList {
    /// Who pays for the validation account.
    pub payer: Address,
    /// The content of the asset's validation account, blank when it was
    /// just created.
    pub extra_account_meta_list: Vec<u8>,
    /// The asset.
    pub mint: Address,
}

impl InitializeExtraAccountMetaList {
    /// The extra accounts that the transfer check requires: the one rule of
    /// [`is_whitelist_rule`].
    pub fn extra_account_metas() -> (r: Result<Vec<ExtraAccountMeta>, ExtraAccountMetaError>)
        ensures
            r is Ok,
            r matches Ok(metas) ==> metas@.len() == 1 && is_whitelist_rule(metas@[0]),
    {
        let mut seeds: Vec<Seed> = Vec::new();
        seeds.push(Seed::Literal { bytes: crate::address::seed_of(&WHITELIST_SEED) });
        seeds.push(Seed::AccountKey { index: OWNER_ACCOUNT_INDEX });
        proof {
            assert(seed_views(seeds@) =~= whitelist_rule_seeds());
            lemma_whitelist_rule_config();
        }
        let meta = match new_with_seeds(&seeds, false, false) {
            Ok(meta) => meta,
            Err(_) => {
                return Err(ExtraAccountMetaError::InvalidExtraAccountMeta);
            },
        };
        let mut metas: Vec<ExtraAccountMeta> = Vec::new();
        metas.push(meta);
        Ok(metas)
    }

    /// The size that the validation account of an asset must have: room for
    /// the one rule.
    pub fn space() -> (r: Result<usize, ExtraAccountMetaError>)
        ensures
            r == Ok::<usize, ExtraAccountMetaError>(51),
    {
        let metas = match Self::extra_account_metas() {
            Ok(metas) => metas,
            Err(e) => {
                return Err(e);
            },
        };
        match meta_list_size_of(metas.len()) {
            Ok(size) => Ok(size),
            Err(_) => Err(ExtraAccountMetaError::InvalidExtraAccountMeta),
        }
    }
}

/// Whether every byte of `data` is zero.
pub fn blank(data: &Vec<u8>) -> (b: bool)
    ensures
        b == is_blank(data@),
{
    let mut i: usize = 0;
    while i < data.len()
        invariant
            i <= data.len(),
            forall|j: int| 0 <= j < i ==> data@[j] == 0,
        decreases data.len() - i,
    {
        if data[i] != 0 {
            return false;
        }
        i += 1;
    }
    true
}

/// Writes the rule into the validation account of the asset.
///
/// The account must be blank, as a new account is: an account that was
/// written before is refused with `InvalidExtraAccountMeta`, so the rule of
/// an asset is written once and never changed. A blank account of
/// [`InitializeExtraAccountMetaList::space`] bytes always takes the rule; one
/// of another size takes it if the list fits, and is else refused in the
/// same way. A refused account is left as it was.
pub fn initialize_extra_accounts(ctx: &mut InitializeExtraAccountMetaList) -> (r: Result<
    (),
    ExtraAccountMetaError,
>)
    ensures
        !is_blank(old(ctx).extra_account_meta_list@) ==> r is Err,
        is_blank(old(ctx).extra_account_meta_list@) && old(ctx).extra_account_meta_list@.len()
            == 51 ==> r is Ok,
        exists|rule: ExtraAccountMeta|
            {
                &&& is_whitelist_rule(rule)
                &&& is_blank(old(ctx).extra_account_meta_list@) ==> (r is Ok <==> written_meta_list(
                    old(ctx).extra_account_meta_list@,
                    seq![rule],
                ) is Some)
                &&& r is Ok ==> written_meta_list(old(ctx).extra_account_meta_list@, seq![rule])
                    == Some(final(ctx).extra_account_meta_list@)
            },
        r is Ok ==> final(ctx).extra_account_meta_list@.len() == old(
            ctx,
        ).extra_account_meta_list@.len(),
        r is Err ==> r == Err::<(), ExtraAccountMetaError>(
            ExtraAccountMetaError::InvalidExtraAccountMeta,
        ) && final(ctx).extra_account_meta_list@ == old(ctx).extra_account_meta_list@,
        final(ctx).payer == old(ctx).payer,
        final(ctx).mint == old(ctx).mint,
{
    let metas = match InitializeExtraAccountMetaList::extra_account_metas() {
        Ok(metas) => metas,
        Err(e) => {
            return Err(e);
        },
    };
    assert(metas@ =~= seq![metas@[0]]);
    if !blank(&ctx.extra_account_meta_list) {
        return Err(ExtraAccountMetaError::InvalidExtraAccountMeta);
    }
    let mut data = ctx.extra_account_meta_list.clone();
    match init_execute_meta_list(&mut data, &metas) {
        Ok(()) => {
            ctx.extra_account_meta_list = data;
            Ok(())
        },
        Err(_) => Err(ExtraAccountMetaError::InvalidExtraAccountMeta),
    }
}

} // verus!
