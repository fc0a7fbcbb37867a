//! The records of the vault and where they live.
use crate::address::{program_address, seed_of, try_find_program_address, Address};
use crate::layout::{
    lemma_address_bytes_are_injective, lemma_u64_bytes_are_injective, lemma_u64_bytes_len,
    put_address, put_u64, read_address, read_u64,
};
use vstd::bytes::spec_u64_to_le_bytes;
use vstd::prelude::*;

verus! {

/// The address of the vault program,
/// `GaHcCA1SB8gjXCBG6ZDDo9d8j8F8fz5cRsSYgfhkuDzp`. Every vault and every
/// registry entry is derived under it.
pub const ID: [u8; 32] = [
    231, 102, 63, 119, 227, 38, 69, 32, 41, 104, 49, 246, 32, 201, 191, 15,
    161, 72, 40, 169, 173, 34, 67, 244, 167, 158, 162, 30, 21, 71, 181, 153,
];

/// The tag under which vaults are derived: `vault`.
pub const VAULT_SEED: [u8; 5] = [118, 97, 117, 108, 116];

/// The tag under which registry entries are derived: `vault_registry`.
pub const VAULT_REGISTRY_SEED: [u8; 14] = [
    118, 97, 117, 108, 116, 95, 114, 101, 103, 105, 115, 116, 114, 121,
];

/// The address of the vault program.
pub fn id() -> (a: Address)
    ensures
        a@ == ID@,
{
    Address::new(ID)
}

/// The custodial record of one authority's pooled reserve of one asset.
#[derive(Clone, Copy, Debug, PartialEq, Eq)]
pub struct Vault {
    /// The only identity that may withdraw.
    pub vault_authority: Address,
    /// The asset that the vault holds.
    pub mint: Address,
    /// The token account that holds the pooled reserve.
    pub token_reserve: Address,
    /// What the reserve holds, by the vault's own count.
    pub token_reserve_amount: u64,
    /// How many deposits were made; a depositor who deposits twice counts
    /// twice.
    pub num_depositors: u64,
    /// The bump seed of the vault's derived address.
    pub bump: u8,
}

/// A [`Vault`] as contracts see it: addresses as their bytes, amounts and
/// counts as natural numbers.
pub struct VaultView {
    pub vault_authority: Seq<u8>,
    pub mint: Seq<u8>,
    pub token_reserve: Seq<u8>,
    pub token_reserve_amount: nat,
    pub num_depositors: nat,
    pub bump: u8,
}

impl View for Vault {
    type V = VaultView;

    open spec fn view(&self) -> VaultView {
        VaultView {
            vault_authority: self.vault_authority@,
            mint: self.mint@,
            token_reserve: self.token_reserve@,
            token_reserve_amount: self.token_reserve_amount as nat,
            num_depositors: self.num_depositors as nat,
            bump: self.bump,
        }
    }
}

/// What one depositor has put into one vault.
#[derive(Clone, Copy, Debug, PartialEq, Eq)]
pub struct VaultRegistryEntry {
    /// The vault that the entry belongs to.
    pub vault: Address,
    /// The asset of that vault.
    pub mint: Address,
    /// The depositor's deposits less the withdrawals booked against them.
    pub token_balance: u64,
    /// How many withdrawals were booked against the entry.
    pub num_withdraws: u64,
    /// How many deposits the depositor made.
    pub num_deposits: u64,
    /// The bump seed of the entry's derived address.
    pub bump: u8,
}

/// A [`VaultRegistryEntry`] as contracts see it.
pub struct VaultRegistryEntryView {
    pub vault: Seq<u8>,
    pub mint: Seq<u8>,
    pub token_balance: nat,
    pub num_withdraws: nat,
    pub num_deposits: nat,
    pub bump: u8,
}

impl View for VaultRegistryEntry {
    type V = VaultRegistryEntryView;

    open spec fn view(&self) -> VaultRegistryEntryView {
        VaultRegistryEntryView {
            vault: self.vault@,
            mint: self.mint@,
            token_balance: self.token_balance as nat,
            num_withdraws: self.num_withdraws as nat,
            num_deposits: self.num_deposits as nat,
            bump: self.bump,
        }
    }
}

/// The asset as the vault's operations see it.
#[derive(Clone, Copy, Debug, PartialEq, Eq)]
pub struct Mint {
    /// The address of the asset.
    pub key: Address,
    /// The number of decimals of its amounts.
    pub decimals: u8,
}

/// The number of bytes of a stored vault.
pub const VAULT_LEN: usize = 113;

/// The number of bytes of a stored registry entry.
pub const VAULT_REGISTRY_ENTRY_LEN: usize = 88;

impl Vault {
    /// The stored form of the vault: the authority, the asset, the reserve
    /// account, the amount in reserve, the count of deposits, the bump seed.
    pub open spec fn spec_pack(&self) -> Seq<u8> {
        self.vault_authority@ + self.mint@ + self.token_reserve@ + spec_u64_to_le_bytes(
            self.token_reserve_amount,
        ) + spec_u64_to_le_bytes(self.num_depositors) + seq![self.bump]
    }

    /// Writes the vault in its stored form.
    pub fn pack(&self) -> (data: Vec<u8>)
        ensures
            data@ == self.spec_pack(),
            data@.len() == VAULT_LEN,
    {
        let mut data: Vec<u8> = Vec::new();
        put_address(&mut data, &self.vault_authority);
        put_address(&mut data, &self.mint);
        put_address(&mut data, &self.token_reserve);
        put_u64(&mut data, self.token_reserve_amount);
        put_u64(&mut data, self.num_depositors);
        data.push(self.bump);
        proof {
            lemma_u64_bytes_len(self.token_reserve_amount);
            lemma_u64_bytes_len(self.num_depositors);
            assert(data@ =~= self.spec_pack());
        }
        data
    }

    /// Reads a vault from its stored form: `None` unless `data` has the
    /// size of a stored vault, and else the one vault that is stored so. So
    /// what was written is read back.
    pub fn unpack(data: &[u8]) -> (r: Option<Vault>)
        ensures
            r is Some <==> data@.len() == VAULT_LEN,
            r matches Some(vault) ==> vault.spec_pack() == data@,
            forall|written: Vault| #[trigger] written.spec_pack() == data@ ==> r == Some(written),
    {
        if data.len() != VAULT_LEN {
            proof {
                assert forall|written: Vault| #[trigger] written.spec_pack() == data@ implies false by {
                    lemma_u64_bytes_len(written.token_reserve_amount);
                    lemma_u64_bytes_len(written.num_depositors);
                }
            }
            return None;
        }
        let vault = Vault {
            vault_authority: read_address(data, 0),
            mint: read_address(data, 32),
            token_reserve: read_address(data, 64),
            token_reserve_amount: read_u64(data, 96),
            num_depositors: read_u64(data, 104),
            bump: data[112],
        };
        assert(vault.spec_pack() =~= data@);
        assert forall|written: Vault| #[trigger] written.spec_pack() == data@ implies written
            == vault by {
            Self::lemma_pack_is_injective(written, vault);
        }
        Some(vault)
    }

    /// Two vaults with the same stored form are the same vault.
    pub proof fn lemma_pack_is_injective(a: Vault, b: Vault)
        requires
            a.spec_pack() == b.spec_pack(),
        ensures
            a == b,
    {
        lemma_u64_bytes_len(a.token_reserve_amount);
        lemma_u64_bytes_len(a.num_depositors);
        lemma_u64_bytes_len(b.token_reserve_amount);
        lemma_u64_bytes_len(b.num_depositors);
        let (x, y) = (a.spec_pack(), b.spec_pack());
        assert(a.vault_authority@ =~= x.subrange(0, 32));
        assert(b.vault_authority@ =~= y.subrange(0, 32));
        assert(a.mint@ =~= x.subrange(32, 64));
        assert(b.mint@ =~= y.subrange(32, 64));
        assert(a.token_reserve@ =~= x.subrange(64, 96));
        assert(b.token_reserve@ =~= y.subrange(64, 96));
        assert(spec_u64_to_le_bytes(a.token_reserve_amount) =~= x.subrange(96, 104));
        assert(spec_u64_to_le_bytes(b.token_reserve_amount) =~= y.subrange(96, 104));
        assert(spec_u64_to_le_bytes(a.num_depositors) =~= x.subrange(104, 112));
        assert(spec_u64_to_le_bytes(b.num_depositors) =~= y.subrange(104, 112));
        assert(a.bump == x[112]);
        assert(b.bump == y[112]);
        lemma_address_bytes_are_injective(a.vault_authority, b.vault_authority);
        lemma_address_bytes_are_injective(a.mint, b.mint);
        lemma_address_bytes_are_injective(a.token_reserve, b.token_reserve);
        lemma_u64_bytes_are_injective(a.token_reserve_amount, b.token_reserve_amount);
        lemma_u64_bytes_are_injective(a.num_depositors, b.num_depositors);
    }
}

impl VaultRegistryEntry {
    /// The stored form of the entry: the vault, the asset, the balance, the
    /// count of withdrawals, the count of deposits. The bump seed is not
    /// stored: it goes with the entry's address.
    pub open spec fn spec_pack(&self) -> Seq<u8> {
        self.vault@ + self.mint@ + spec_u64_to_le_bytes(self.token_balance)
            + spec_u64_to_le_bytes(self.num_withdraws) + spec_u64_to_le_bytes(self.num_deposits)
    }

    /// Writes the entry in its stored form.
    pub fn pack(&self) -> (data: Vec<u8>)
        ensures
            data@ == self.spec_pack(),
            data@.len() == VAULT_REGISTRY_ENTRY_LEN,
    {
        let mut data: Vec<u8> = Vec::new();
        put_address(&mut data, &self.vault);
        put_address(&mut data, &self.mint);
        put_u64(&mut data, self.token_balance);
        put_u64(&mut data, self.num_withdraws);
        put_u64(&mut data, self.num_deposits);
        proof {
            lemma_u64_bytes_len(self.token_balance);
            lemma_u64_bytes_len(self.num_withdraws);
            lemma_u64_bytes_len(self.num_deposits);
            assert(data@ =~= self.spec_pack());
        }
        data
    }

    /// Reads the entry that stands at the bump seed `bump` from its stored
    /// form: `None` unless `data` has the size of a stored entry, and else
    /// the one entry that is stored so. So what was written is read back.
    pub fn unpack(data: &[u8], bump: u8) -> (r: Option<VaultRegistryEntry>)
        ensures
            r is Some <==> data@.len() == VAULT_REGISTRY_ENTRY_LEN,
            r matches Some(entry) ==> entry.spec_pack() == data@ && entry.bump == bump,
            forall|written: VaultRegistryEntry|
                #[trigger] written.spec_pack() == data@ && written.bump == bump ==> r == Some(
                    written,
                ),
    {
        if data.len() != VAULT_REGISTRY_ENTRY_LEN {
            proof {
                assert forall|written: VaultRegistryEntry| #[trigger]
                    written.spec_pack() == data@ implies false by {
                    lemma_u64_bytes_len(written.token_balance);
                    lemma_u64_bytes_len(written.num_withdraws);
                    lemma_u64_bytes_len(written.num_deposits);
                }
            }
            return None;
        }
        let entry = VaultRegistryEntry {
            vault: read_address(data, 0),
            mint: read_address(data, 32),
            token_balance: read_u64(data, 64),
            num_withdraws: read_u64(data, 72),
            num_deposits: read_u64(data, 80),
            bump,
        };
        assert(entry.spec_pack() =~= data@);
        assert forall|written: VaultRegistryEntry|
            #[trigger] written.spec_pack() == data@ && written.bump == bump implies written
            == entry by {
            Self::lemma_pack_is_injective(written, entry);
        }
        Some(entry)
    }

    /// Two entries with the same stored form and the same bump seed are the
    /// same entry.
    pub proof fn lemma_pack_is_injective(a: VaultRegistryEntry, b: VaultRegistryEntry)
        requires
            a.spec_pack() == b.spec_pack(),
            a.bump == b.bump,
        ensures
            a == b,
    {
        lemma_u64_bytes_len(a.token_balance);
        lemma_u64_bytes_len(a.num_withdraws);
        lemma_u64_bytes_len(a.num_deposits);
        lemma_u64_bytes_len(b.token_balance);
        lemma_u64_bytes_len(b.num_withdraws);
        lemma_u64_bytes_len(b.num_deposits);
        let (x, y) = (a.spec_pack(), b.spec_pack());
        assert(a.vault@ =~= x.subrange(0, 32));
        assert(b.vault@ =~= y.subrange(0, 32));
        assert(a.mint@ =~= x.subrange(32, 64));
        assert(b.mint@ =~= y.subrange(32, 64));
        assert(spec_u64_to_le_bytes(a.token_balance) =~= x.subrange(64, 72));
        assert(spec_u64_to_le_bytes(b.token_balance) =~= y.subrange(64, 72));
        assert(spec_u64_to_le_bytes(a.num_withdraws) =~= x.subrange(72, 80));
        assert(spec_u64_to_le_bytes(b.num_withdraws) =~= y.subrange(72, 80));
        assert(spec_u64_to_le_bytes(a.num_deposits) =~= x.subrange(80, 88));
        assert(spec_u64_to_le_bytes(b.num_deposits) =~= y.subrange(80, 88));
        lemma_address_bytes_are_injective(a.vault, b.vault);
        lemma_address_bytes_are_injective(a.mint, b.mint);
        lemma_u64_bytes_are_injective(a.token_balance, b.token_balance);
        lemma_u64_bytes_are_injective(a.num_withdraws, b.num_withdraws);
        lemma_u64_bytes_are_injective(a.num_deposits, b.num_deposits);
    }
}

/// The seeds of the vault of `authority`.
pub open spec fn vault_seeds(authority: Seq<u8>) -> Seq<Seq<u8>> {
    seq![VAULT_SEED@, authority]
}

/// The derived address, with its bump seed, of the vault of `authority`.
pub open spec fn vault_pda(authority: Seq<u8>) -> Option<(Seq<u8>, u8)> {
    program_address(vault_seeds(authority), ID@)
}

/// The seeds of the registry entry of `depositor` in the vault at `vault`.
pub open spec fn registry_seeds(vault: Seq<u8>, depositor: Seq<u8>) -> Seq<Seq<u8>> {
    seq![VAULT_REGISTRY_SEED@, vault, depositor]
}

/// The derived address, with its bump seed, of the registry entry of
/// `depositor` in the vault at `vault`.
pub open spec fn registry_pda(vault: Seq<u8>, depositor: Seq<u8>) -> Option<(Seq<u8>, u8)> {
    program_address(registry_seeds(vault, depositor), ID@)
}

/// Derives where the vault of `authority` lives: one vault per authority.
/// `None` only where no address can be derived at all.
pub fn vault_address(authority: &Address) -> (r: Option<(Address, u8)>)
    ensures
        match r {
            Some((key, bump)) => vault_pda(authority@) == Some((key@, bump)),
            None => vault_pda(authority@) is None,
        },
{
    let mut seeds: Vec<Vec<u8>> = Vec::new();
    seeds.push(seed_of(&VAULT_SEED));
    seeds.push(authority.to_vec());
    assert(seeds.deep_view() =~~= vault_seeds(authority@));
    try_find_program_address(&seeds, &id())
}

/// Derives where the registry entry of `depositor` in the vault at `vault`
/// lives. `None` only where no address can be derived at all.
pub fn registry_address(vault: &Address, depositor: &Address) -> (r: Option<(Address, u8)>)
    ensures
        match r {
            Some((key, bump)) => registry_pda(vault@, depositor@) == Some((key@, bump)),
            None => registry_pda(vault@, depositor@) is None,
        },
{
    let mut seeds: Vec<Vec<u8>> = Vec::new();
    seeds.push(seed_of(&VAULT_REGISTRY_SEED));
    seeds.push(vault.to_vec());
    seeds.push(depositor.to_vec());
    assert(seeds.deep_view() =~~= registry_seeds(vault@, depositor@));
    try_find_program_address(&seeds, &id())
}

} // verus!
