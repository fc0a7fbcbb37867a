//! The allow-list record and where it lives.
use crate::address::{program_address, seed_of, try_find_program_address, Address};
use crate::layout::{lemma_address_bytes_are_injective, put_address, read_address};
use crate::transfer_hook::errors::WhitelistError;
use vstd::prelude::*;

verus! {

/// The address of the transfer-policy program,
/// `6cAZiTnevHt88rM8WyzaMTaUXQ7vB2hXnpRZW65Jrg2Z`. Every allow-list record
/// and every list of extra accounts is derived under it.
pub const ID: [u8; 32] = [
    83, 76, 147, 185, 214, 116, 29, 173, 254, 71, 122, 53, 138, 221, 45, 57,
    184, 129, 230, 211, 118, 3, 153, 150, 135, 142, 129, 148, 49, 28, 26, 206,
];

/// The tag under which allow-list records are derived: `whitelist`.
pub const WHITELIST_SEED: [u8; 9] = [119, 104, 105, 116, 101, 108, 105, 115, 116];

/// The tag under which the list of extra accounts of an asset is derived:
/// `extra-account-metas`.
pub const EXTRA_ACCOUNT_METAS_SEED: [u8; 19] = [
    101, 120, 116, 114, 97, 45, 97, 99, 99, 111, 117, 110, 116, 45, 109, 101, 116, 97, 115,
];

/// The address of the transfer-policy program.
pub fn id() -> (a: Address)
    ensures
        a@ == ID@,
{
    Address::new(ID)
}

/// The record that approves one address for transfers of one asset.
///
/// That the record exists under its derived address is the approval; it
/// carries no flag.
#[derive(Clone, Copy, Debug, PartialEq, Eq)]
pub struct Whitelist {
    /// The approved address.
    pub address: Address,
    /// The governed asset.
    pub mint: Address,
    /// The bump seed of the record's derived address.
    pub bump: u8,
}

/// A [`Whitelist`] record as contracts see it.
pub struct WhitelistView {
    pub address: Seq<u8>,
    pub mint: Seq<u8>,
    pub bump: u8,
}

impl View for Whitelist {
    type V = WhitelistView;

    open spec fn view(&self) -> WhitelistView {
        WhitelistView { address: self.address@, mint: self.mint@, bump: self.bump }
    }
}

/// An allow-list account as an operation sees it: its address, and the
/// record in it unless the account is empty.
#[derive(Clone, Copy, Debug, PartialEq, Eq)]
pub struct WhitelistAccount {
    /// The address of the account.
    pub key: Address,
    /// The record, or `None` for an account that was never created or was
    /// closed.
    pub entry: Option<Whitelist>,
}

impl WhitelistAccount {
    /// The account at `key` with nothing in it.
    pub fn empty(key: Address) -> (a: WhitelistAccount)
        ensures
            a.key == key,
            a.entry is None,
    {
        WhitelistAccount { key, entry: None }
    }

    /// The account at `key` as its stored content `data` shows it: empty
    /// if there is no content, and else holding the record that is stored
    /// there.
    ///
    /// Fails with `DeserializeWhitelistData` for content that is not empty
    /// and has not the size of a stored record.
    pub fn read(key: Address, data: &[u8]) -> (r: Result<WhitelistAccount, WhitelistError>)
        ensures
            data@.len() == 0 ==> r == Ok::<WhitelistAccount, WhitelistError>(
                WhitelistAccount { key, entry: None },
            ),
            data@.len() == WHITELIST_LEN ==> r is Ok,
            r matches Ok(account) ==> account.key == key,
            r matches Ok(WhitelistAccount { entry: Some(record), .. }) ==> record.spec_pack()
                == data@,
            r matches Ok(WhitelistAccount { entry: None, .. }) ==> data@.len() == 0,
            data@.len() != 0 && data@.len() != WHITELIST_LEN ==> r == Err::<
                WhitelistAccount,
                WhitelistError,
            >(WhitelistError::DeserializeWhitelistData),
    {
        if data.len() == 0 {
            return Ok(WhitelistAccount { key, entry: None });
        }
        match Whitelist::unpack(data) {
            Some(record) => Ok(WhitelistAccount { key, entry: Some(record) }),
            None => Err(WhitelistError::DeserializeWhitelistData),
        }
    }

    /// Whether the account holds a record.
    pub fn is_initialized(&self) -> (b: bool)
        ensures
            b == self.entry is Some,
    {
        self.entry.is_some()
    }
}

/// The number of bytes of a stored allow-list record.
pub const WHITELIST_LEN: usize = 65;

impl Whitelist {
    /// The stored form of the record: the address, the asset, the bump
    /// seed.
    pub open spec fn spec_pack(&self) -> Seq<u8> {
        self.address@ + self.mint@ + seq![self.bump]
    }

    /// Writes the record in its stored form.
    pub fn pack(&self) -> (data: Vec<u8>)
        ensures
            data@ == self.spec_pack(),
            data@.len() == WHITELIST_LEN,
    {
        let mut data: Vec<u8> = Vec::new();
        put_address(&mut data, &self.address);
        put_address(&mut data, &self.mint);
        data.push(self.bump);
        assert(data@ =~= self.spec_pack());
        data
    }

    /// Reads a record from its stored form: `None` unless `data` has the
    /// size of a stored record, and else the one record that is stored so.
    /// So what was written is read back.
    pub fn unpack(data: &[u8]) -> (r: Option<Whitelist>)
        ensures
            r is Some <==> data@.len() == WHITELIST_LEN,
            r matches Some(record) ==> record.spec_pack() == data@,
            forall|written: Whitelist|
                #[trigger] written.spec_pack() == data@ ==> r == Some(written),
    {
        if data.len() != WHITELIST_LEN {
            return None;
        }
        let record = Whitelist {
            address: read_address(data, 0),
            mint: read_address(data, 32),
            bump: data[64],
        };
        assert(record.spec_pack() =~= data@);
        assert forall|written: Whitelist| #[trigger] written.spec_pack() == data@ implies written
            == record by {
            Self::lemma_pack_is_injective(written, record);
        }
        Some(record)
    }

    /// Two records with the same stored form are the same record.
    pub proof fn lemma_pack_is_injective(a: Whitelist, b: Whitelist)
        requires
            a.spec_pack() == b.spec_pack(),
        ensures
            a == b,
    {
        let (x, y) = (a.spec_pack(), b.spec_pack());
        assert(a.address@ =~= x.subrange(0, 32));
        assert(b.address@ =~= y.subrange(0, 32));
        assert(a.mint@ =~= x.subrange(32, 64));
        assert(b.mint@ =~= y.subrange(32, 64));
        assert(a.bump == x[64]);
        assert(b.bump == y[64]);
        lemma_address_bytes_are_injective(a.address, b.address);
        lemma_address_bytes_are_injective(a.mint, b.mint);
    }
}

/// The seeds of the allow-list record of `address` for the asset `mint`.
pub open spec fn whitelist_seeds(mint: Seq<u8>, address: Seq<u8>) -> Seq<Seq<u8>> {
    seq![WHITELIST_SEED@, mint, address]
}

/// The derived address, with its bump seed, of the allow-list record of
/// `address` for the asset `mint`.
pub open spec fn whitelist_pda(mint: Seq<u8>, address: Seq<u8>) -> Option<(Seq<u8>, u8)> {
    program_address(whitelist_seeds(mint, address), ID@)
}

/// The seeds of the list of extra accounts of the asset `mint`.
pub open spec fn extra_account_metas_seeds(mint: Seq<u8>) -> Seq<Seq<u8>> {
    seq![EXTRA_ACCOUNT_METAS_SEED@, mint]
}

/// The derived address, with its bump seed, of the list of extra accounts of
/// the asset `mint`.
pub open spec fn extra_account_metas_pda(mint: Seq<u8>) -> Option<(Seq<u8>, u8)> {
    program_address(extra_account_metas_seeds(mint), ID@)
}

/// Derives where the allow-list record of `address` for the asset `mint`
/// lives. `None` only where no address can be derived at all.
pub fn whitelist_address(mint: &Address, address: &Address) -> (r: Option<(Address, u8)>)
    ensures
        match r {
            Some((key, bump)) => whitelist_pda(mint@, address@) == Some((key@, bump)),
            None => whitelist_pda(mint@, address@) is None,
        },
{
    let mut seeds: Vec<Vec<u8>> = Vec::new();
    seeds.push(seed_of(&WHITELIST_SEED));
    seeds.push(mint.to_vec());
    seeds.push(address.to_vec());
    assert(seeds.deep_view() =~~= whitelist_seeds(mint@, address@));
    try_find_program_address(&seeds, &id())
}

/// Derives where the list of extra accounts of the asset `mint` lives.
/// `None` only where no address can be derived at all.
pub fn extra_account_metas_address(mint: &Address) -> (r: Option<(Address, u8)>)
    ensures
        match r {
            Some((key, bump)) => extra_account_metas_pda(mint@) == Some((key@, bump)),
            None => extra_account_metas_pda(mint@) is None,
        },
{
    let mut seeds: Vec<Vec<u8>> = Vec::new();
    seeds.push(seed_of(&EXTRA_ACCOUNT_METAS_SEED));
    seeds.push(mint.to_vec());
    assert(seeds.deep_view() =~~= extra_account_metas_seeds(mint@));
    try_find_program_address(&seeds, &id())
}

} // verus!
