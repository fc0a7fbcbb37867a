use whitelist_vault::address::Address;
use whitelist_vault::interest_bearing_vault::state::{
    Vault, VaultRegistryEntry, VAULT_LEN, VAULT_REGISTRY_ENTRY_LEN,
};
use whitelist_vault::layout::{put, put_address, put_u64, read_address, read_u64};
use whitelist_vault::transfer_hook::errors::WhitelistError;
use whitelist_vault::transfer_hook::state::{Whitelist, WhitelistAccount, WHITELIST_LEN};

fn key(n: u8) -> Address {
    Address::new([n; 32])
}

fn vault() -> Vault {
    Vault {
        vault_authority: key(1),
        mint: key(2),
        token_reserve: key(3),
        token_reserve_amount: 0x0807_0605_0403_0201,
        num_depositors: 258,
        bump: 254,
    }
}

#[test]
fn vault_is_stored_field_by_field() {
    let data = vault().pack();
    assert_eq!(data.len(), 113);
    assert_eq!(VAULT_LEN, 113);
    assert_eq!(data[0..32], [1u8; 32]);
    assert_eq!(data[32..64], [2u8; 32]);
    assert_eq!(data[64..96], [3u8; 32]);
    assert_eq!(data[96..104], [1, 2, 3, 4, 5, 6, 7, 8]);
    assert_eq!(data[104..112], [2, 1, 0, 0, 0, 0, 0, 0]);
    assert_eq!(data[112], 254);
}

#[test]
fn vault_reads_back_as_written() {
    let v = vault();
    assert_eq!(Vault::unpack(&v.pack()), Some(v));
    let zero = Vault {
        vault_authority: key(0),
        mint: key(0),
        token_reserve: key(0),
        token_reserve_amount: 0,
        num_depositors: 0,
        bump: 0,
    };
    assert_eq!(zero.pack(), vec![0u8; 113]);
    assert_eq!(Vault::unpack(&[0u8; 113]), Some(zero));
    let full = Vault { token_reserve_amount: u64::MAX, num_depositors: u64::MAX, ..v };
    assert_eq!(Vault::unpack(&full.pack()), Some(full));
}

#[test]
fn vault_of_another_size_is_not_read() {
    let mut data = vault().pack();
    assert_eq!(Vault::unpack(&data[..112]), None);
    data.push(0);
    assert_eq!(Vault::unpack(&data), None);
    assert_eq!(Vault::unpack(&[]), None);
}

#[test]
fn registry_entry_is_stored_without_its_bump_seed() {
    let entry = VaultRegistryEntry {
        vault: key(9),
        mint: key(2),
        token_balance: 500,
        num_withdraws: 1,
        num_deposits: 513,
        bump: 77,
    };
    let data = entry.pack();
    assert_eq!(data.len(), 88);
    assert_eq!(VAULT_REGISTRY_ENTRY_LEN, 88);
    assert_eq!(data[0..32], [9u8; 32]);
    assert_eq!(data[32..64], [2u8; 32]);
    assert_eq!(data[64..72], [244, 1, 0, 0, 0, 0, 0, 0]);
    assert_eq!(data[72..80], [1, 0, 0, 0, 0, 0, 0, 0]);
    assert_eq!(data[80..88], [1, 2, 0, 0, 0, 0, 0, 0]);
    assert_eq!(VaultRegistryEntry::unpack(&data, 77), Some(entry));
    assert_eq!(
        VaultRegistryEntry::unpack(&data, 78),
        Some(VaultRegistryEntry { bump: 78, ..entry })
    );
    assert_eq!(VaultRegistryEntry::unpack(&data[1..], 77), None);
    assert_eq!(entry.pack(), VaultRegistryEntry { bump: 0, ..entry }.pack());
}

#[test]
fn allow_list_record_is_stored_field_by_field() {
    let record = Whitelist { address: key(11), mint: key(12), bump: 253 };
    let data = record.pack();
    assert_eq!(data.len(), 65);
    assert_eq!(WHITELIST_LEN, 65);
    assert_eq!(data[0..32], [11u8; 32]);
    assert_eq!(data[32..64], [12u8; 32]);
    assert_eq!(data[64], 253);
    assert_eq!(Whitelist::unpack(&data), Some(record));
    assert_eq!(Whitelist::unpack(&data[..64]), None);
    assert_eq!(Whitelist::unpack(&[0u8; 66]), None);
}

#[test]
fn fields_are_appended_and_read_in_place() {
    let mut data = vec![9u8];
    put(&mut data, &vec![1, 2]);
    put(&mut data, &Vec::new());
    put_u64(&mut data, 0x0102);
    put_address(&mut data, &key(4));
    let mut expected = vec![9u8, 1, 2, 2, 1, 0, 0, 0, 0, 0, 0];
    expected.extend_from_slice(&[4u8; 32]);
    assert_eq!(data, expected);
    assert_eq!(read_u64(&data, 3), 0x0102);
    assert_eq!(read_u64(&data, 0), u64::from_le_bytes([9, 1, 2, 2, 1, 0, 0, 0]));
    assert_eq!(read_address(&data, 11), key(4));
    let mut shifted = [4u8; 32];
    shifted[0] = 0;
    assert_eq!(read_address(&data, 10), Address::new(shifted));
}

#[test]
fn allow_list_account_is_read_from_its_content() {
    let record = Whitelist { address: key(11), mint: key(12), bump: 253 };
    assert_eq!(WhitelistAccount::read(key(20), &[]), Ok(WhitelistAccount::empty(key(20))));
    assert_eq!(
        WhitelistAccount::read(key(20), &record.pack()),
        Ok(WhitelistAccount { key: key(20), entry: Some(record) })
    );
    assert_eq!(
        WhitelistAccount::read(key(20), &[0u8; 65]),
        Ok(WhitelistAccount {
            key: key(20),
            entry: Some(Whitelist { address: key(0), mint: key(0), bump: 0 }),
        })
    );
    assert_eq!(
        WhitelistAccount::read(key(20), &[0u8; 64]),
        Err(WhitelistError::DeserializeWhitelistData)
    );
    assert_eq!(
        WhitelistAccount::read(key(20), &[7u8]),
        Err(WhitelistError::DeserializeWhitelistData)
    );
}
