use anchor_lang::prelude::Pubkey;
use anchor_spl::token_2022::spl_token_2022::extension::transfer_hook::TransferHookAccount;
use anchor_spl::token_2022::spl_token_2022::extension::{
    BaseStateWithExtensionsMut, ExtensionType, PodStateWithExtensionsMut,
};
use anchor_spl::token_2022::spl_token_2022::pod::PodAccount;
use anchor_spl::token_2022::spl_token_2022::state::Account;
use spl_tlv_account_resolution::account::ExtraAccountMeta as OutsideMeta;
use spl_tlv_account_resolution::seeds::Seed as OutsideSeed;
use spl_tlv_account_resolution::state::ExtraAccountMetaList;
use spl_transfer_hook_interface::instruction::ExecuteInstruction;
use whitelist_vault::address::{seed_of, Address};
use whitelist_vault::transfer_hook::errors::{
    ExtraAccountMetaError, WhitelistError, ERROR_CODE_OFFSET,
};
use whitelist_vault::transfer_hook::extra_accounts::{
    blank, initialize_extra_accounts, ExtraAccountMeta, InitializeExtraAccountMetaList,
};
use whitelist_vault::transfer_hook::on_transfer::{decide, TransferHook};
use whitelist_vault::transfer_hook::state::{
    extra_account_metas_address, id, whitelist_address, Whitelist, WhitelistAccount,
    EXTRA_ACCOUNT_METAS_SEED, ID, WHITELIST_SEED,
};
use whitelist_vault::transfer_hook::whitelist_operations::WhitelistOperations;

fn key(n: u8) -> Address {
    Address::new([n; 32])
}

fn program() -> Pubkey {
    Pubkey::from_str_const("6cAZiTnevHt88rM8WyzaMTaUXQ7vB2hXnpRZW65Jrg2Z")
}

fn token_account_with_flag(transferring: bool) -> Vec<u8> {
    let len =
        ExtensionType::try_calculate_account_len::<Account>(&[ExtensionType::TransferHookAccount])
            .unwrap();
    let mut data = vec![0u8; len];
    {
        let mut state =
            PodStateWithExtensionsMut::<PodAccount>::unpack_uninitialized(&mut data).unwrap();
        state.base.state = 1;
        state.init_account_type().unwrap();
        let extension = state.init_extension::<TransferHookAccount>(true).unwrap();
        extension.transferring = transferring.into();
    }
    data
}

fn token_account_without_flag() -> Vec<u8> {
    let len = ExtensionType::try_calculate_account_len::<Account>(&[]).unwrap();
    let mut data = vec![0u8; len];
    {
        let state =
            PodStateWithExtensionsMut::<PodAccount>::unpack_uninitialized(&mut data).unwrap();
        state.base.state = 1;
    }
    data
}

fn operations(user: Address, mint: Address) -> (WhitelistOperations, u8) {
    let (whitelist_acc, w_bump) = whitelist_address(&mint, &user).unwrap();
    let accounts = WhitelistOperations {
        admin: key(100),
        address: user,
        mint,
        whitelist_pda: WhitelistAccount::empty(whitelist_acc),
    };
    (accounts, w_bump)
}

fn hook(source: Vec<u8>, mint: Address, owner: Address, account: WhitelistAccount) -> TransferHook {
    TransferHook {
        source_token: source,
        mint,
        destination_token: key(50),
        owner,
        extra_account_meta_list: extra_account_metas_address(&mint).unwrap().0,
        user_whitelist_account: account,
    }
}

#[test]
fn test_add_to_whitelist() {
    let user = key(11);
    let mint = key(12);
    let (mut accounts, w_bump) = operations(user, mint);
    let res = accounts.add_to_whitelist(w_bump);
    assert!(res.is_ok(), "Add to whitelist failed");
    assert_eq!(
        accounts.whitelist_pda.entry,
        Some(Whitelist { address: user, mint, bump: w_bump })
    );
    assert!(accounts.whitelist_pda.is_initialized());
}

#[test]
fn test_remove_from_whitelist() {
    let user = key(11);
    let mint = key(12);
    let (mut accounts, w_bump) = operations(user, mint);
    let res = accounts.add_to_whitelist(w_bump);
    assert!(res.is_ok(), "Add to whitelist failed");
    let res = accounts.remove_from_whitelist();
    assert!(res.is_ok());
    let wl_account = accounts.whitelist_pda.entry;
    assert!(wl_account.is_none(), "Remove from whitelist failed");
    assert!(!accounts.whitelist_pda.is_initialized());
}

#[test]
fn adding_twice_is_adding_once() {
    let (mut accounts, bump) = operations(key(11), key(12));
    assert_eq!(accounts.add_to_whitelist(bump), Ok(()));
    let once = accounts;
    assert_eq!(accounts.add_to_whitelist(bump), Ok(()));
    assert_eq!(accounts, once);
    assert!(accounts.whitelist_pda.entry.is_some());
}

#[test]
fn removing_what_was_never_added_fails() {
    let (mut accounts, _) = operations(key(11), key(12));
    let before = accounts;
    assert_eq!(accounts.remove_from_whitelist(), Err(WhitelistError::AccountDoesNotExist));
    assert_eq!(accounts, before);
}

#[test]
fn removing_twice_fails_the_second_time() {
    let (mut accounts, bump) = operations(key(11), key(12));
    accounts.add_to_whitelist(bump).unwrap();
    assert_eq!(accounts.remove_from_whitelist(), Ok(()));
    assert_eq!(accounts.remove_from_whitelist(), Err(WhitelistError::AccountDoesNotExist));
}

#[test]
fn allow_list_addresses_are_derived_under_the_policy_program() {
    assert_eq!(ID, program().to_bytes());
    assert_eq!(id().bytes, program().to_bytes());
    assert_eq!(&WHITELIST_SEED, b"whitelist");
    assert_eq!(&EXTRA_ACCOUNT_METAS_SEED, b"extra-account-metas");
    assert_eq!(seed_of(&WHITELIST_SEED), b"whitelist".to_vec());
    let mint = key(12);
    let user = key(11);
    let (expected, bump) = Pubkey::find_program_address(
        &["whitelist".as_bytes(), mint.bytes.as_ref(), user.bytes.as_ref()],
        &program(),
    );
    assert_eq!(whitelist_address(&mint, &user), Some((Address::new(expected.to_bytes()), bump)));
    assert_ne!(whitelist_address(&mint, &user), whitelist_address(&user, &mint));
    let (expected, bump) =
        Pubkey::find_program_address(&[b"extra-account-metas", mint.bytes.as_ref()], &program());
    assert_eq!(
        extra_account_metas_address(&mint),
        Some((Address::new(expected.to_bytes()), bump))
    );
}

#[test]
fn address_equality_is_equality_of_bytes() {
    let mut bytes = [7u8; 32];
    let a = Address::new(bytes);
    assert!(a == Address::new([7u8; 32]));
    bytes[31] = 8;
    assert!(a != Address::new(bytes));
    assert_eq!(a.to_vec(), vec![7u8; 32]);
}

#[test]
fn transfer_of_a_listed_owner_is_approved() {
    let (mut accounts, bump) = operations(key(11), key(12));
    accounts.add_to_whitelist(bump).unwrap();
    let mut h = hook(token_account_with_flag(true), key(12), key(11), accounts.whitelist_pda);
    let before = h.clone();
    assert_eq!(h.check_is_transferring(), Ok(()));
    assert_eq!(h.transfer_hook(500), Ok(()));
    assert_eq!(h.transfer_hook(0), Ok(()));
    assert_eq!(h, before);
}

#[test]
fn check_outside_a_transfer_is_refused() {
    let (mut accounts, bump) = operations(key(11), key(12));
    accounts.add_to_whitelist(bump).unwrap();
    let mut h = hook(token_account_with_flag(false), key(12), key(11), accounts.whitelist_pda);
    assert_eq!(h.check_is_transferring(), Err(WhitelistError::NotTransferring));
    assert_eq!(h.transfer_hook(500), Err(WhitelistError::NotTransferring));
    // a token account that carries no flag at all
    let mut h = hook(token_account_without_flag(), key(12), key(11), accounts.whitelist_pda);
    assert_eq!(h.check_is_transferring(), Err(WhitelistError::NotTransferring));
    assert_eq!(h.transfer_hook(500), Err(WhitelistError::NotTransferring));
    // no token account
    let mut h = hook(vec![1, 2, 3], key(12), key(11), accounts.whitelist_pda);
    assert_eq!(h.transfer_hook(500), Err(WhitelistError::NotTransferring));
    let mut h = hook(Vec::new(), key(12), key(11), accounts.whitelist_pda);
    assert_eq!(h.transfer_hook(500), Err(WhitelistError::NotTransferring));
}

#[test]
fn transfer_of_an_unlisted_owner_is_aborted() {
    let (accounts, _) = operations(key(11), key(12));
    let mut h = hook(token_account_with_flag(true), key(12), key(11), accounts.whitelist_pda);
    assert_eq!(h.transfer_hook(500), Err(WhitelistError::AccountNotWhitelisted));
}

#[test]
fn transfer_after_removal_is_aborted() {
    let (mut accounts, bump) = operations(key(11), key(12));
    accounts.add_to_whitelist(bump).unwrap();
    let mut h = hook(token_account_with_flag(true), key(12), key(11), accounts.whitelist_pda);
    assert_eq!(h.transfer_hook(500), Ok(()));
    accounts.remove_from_whitelist().unwrap();
    let mut h = hook(token_account_with_flag(true), key(12), key(11), accounts.whitelist_pda);
    assert_eq!(h.transfer_hook(500), Err(WhitelistError::AccountNotWhitelisted));
}

#[test]
fn record_of_another_owner_or_asset_does_not_match() {
    let (mut accounts, bump) = operations(key(11), key(12));
    accounts.add_to_whitelist(bump).unwrap();
    // the record of owner 11 handed in for owner 13
    let mut h = hook(token_account_with_flag(true), key(12), key(13), accounts.whitelist_pda);
    assert_eq!(h.transfer_hook(500), Err(WhitelistError::AccountDoesNotMatch));
    // the record for asset 12 handed in for asset 14
    let mut h = hook(token_account_with_flag(true), key(14), key(11), accounts.whitelist_pda);
    assert_eq!(h.transfer_hook(500), Err(WhitelistError::AccountDoesNotMatch));
}

#[test]
fn decision_looks_at_flag_then_record_then_address() {
    let entry = Whitelist { address: key(11), mint: key(12), bump: 254 };
    let listed = WhitelistAccount { key: key(20), entry: Some(entry) };
    let empty = WhitelistAccount::empty(key(20));
    assert_eq!(decide(Some(true), &listed, Some((key(20), 254))), Ok(()));
    assert_eq!(decide(Some(true), &listed, Some((key(20), 1))), Ok(()));
    assert_eq!(
        decide(Some(true), &listed, Some((key(21), 254))),
        Err(WhitelistError::AccountDoesNotMatch)
    );
    assert_eq!(decide(Some(true), &listed, None), Err(WhitelistError::AccountDoesNotMatch));
    assert_eq!(
        decide(Some(true), &empty, Some((key(20), 254))),
        Err(WhitelistError::AccountNotWhitelisted)
    );
    assert_eq!(
        decide(Some(true), &empty, Some((key(21), 254))),
        Err(WhitelistError::AccountNotWhitelisted)
    );
    assert_eq!(
        decide(Some(false), &listed, Some((key(20), 254))),
        Err(WhitelistError::NotTransferring)
    );
    assert_eq!(decide(None, &listed, Some((key(20), 254))), Err(WhitelistError::NotTransferring));
    assert_eq!(decide(None, &empty, None), Err(WhitelistError::NotTransferring));
}

#[test]
fn the_rule_derives_from_the_tag_and_the_owner() {
    let metas = InitializeExtraAccountMetaList::extra_account_metas().unwrap();
    let mut config = [0u8; 32];
    config[0] = 1;
    config[1] = 9;
    config[2..11].copy_from_slice(b"whitelist");
    config[11] = 3;
    config[12] = 3;
    assert_eq!(
        metas,
        vec![ExtraAccountMeta {
            discriminator: 1,
            address_config: config,
            is_signer: false,
            is_writable: false,
        }]
    );
    let outside = OutsideMeta::new_with_seeds(
        &[OutsideSeed::Literal { bytes: b"whitelist".to_vec() }, OutsideSeed::AccountKey { index: 3 }],
        false,
        false,
    )
    .unwrap();
    assert_eq!(metas[0].discriminator, outside.discriminator);
    assert_eq!(metas[0].address_config, outside.address_config);
    assert_eq!(metas[0].is_signer, bool::from(outside.is_signer));
    assert_eq!(metas[0].is_writable, bool::from(outside.is_writable));
}

#[test]
fn the_validation_account_needs_51_bytes() {
    assert_eq!(InitializeExtraAccountMetaList::space(), Ok(51));
    assert_eq!(ExtraAccountMetaList::size_of(1).unwrap(), 51);
}

#[test]
fn the_rule_is_written_into_a_blank_account() {
    let size = InitializeExtraAccountMetaList::space().unwrap();
    let mut ctx = InitializeExtraAccountMetaList {
        payer: key(1),
        extra_account_meta_list: vec![0u8; size],
        mint: key(12),
    };
    assert_eq!(initialize_extra_accounts(&mut ctx), Ok(()));
    assert_eq!(ctx.payer, key(1));
    assert_eq!(ctx.mint, key(12));
    assert_eq!(ctx.extra_account_meta_list.len(), size);
    assert!(!blank(&ctx.extra_account_meta_list));

    let mut expected = vec![0u8; size];
    let outside = OutsideMeta::new_with_seeds(
        &[OutsideSeed::Literal { bytes: b"whitelist".to_vec() }, OutsideSeed::AccountKey { index: 3 }],
        false,
        false,
    )
    .unwrap();
    ExtraAccountMetaList::init::<ExecuteInstruction>(&mut expected, &[outside]).unwrap();
    assert_eq!(ctx.extra_account_meta_list, expected);
    // the entry count, then the rule: discriminator, seeds, flags
    assert_eq!(ctx.extra_account_meta_list[12..16], [1, 0, 0, 0]);
    assert_eq!(ctx.extra_account_meta_list[16], 1);
    assert_eq!(ctx.extra_account_meta_list[17..19], [1, 9]);
    assert_eq!(&ctx.extra_account_meta_list[19..28], b"whitelist");
    assert_eq!(ctx.extra_account_meta_list[28..30], [3, 3]);

    // a larger blank account takes the rule as well
    let mut ctx = InitializeExtraAccountMetaList {
        payer: key(1),
        extra_account_meta_list: vec![0u8; size + 40],
        mint: key(12),
    };
    assert_eq!(initialize_extra_accounts(&mut ctx), Ok(()));
    assert_eq!(ctx.extra_account_meta_list[..size], expected[..]);
}

#[test]
fn the_rule_is_written_once() {
    let size = InitializeExtraAccountMetaList::space().unwrap();
    let mut ctx = InitializeExtraAccountMetaList {
        payer: key(1),
        extra_account_meta_list: vec![0u8; size],
        mint: key(12),
    };
    assert_eq!(initialize_extra_accounts(&mut ctx), Ok(()));
    let written = ctx.clone();
    assert_eq!(
        initialize_extra_accounts(&mut ctx),
        Err(ExtraAccountMetaError::InvalidExtraAccountMeta)
    );
    assert_eq!(ctx, written);
}

#[test]
fn an_account_too_small_for_the_rule_is_refused_unchanged() {
    for size in [0usize, 1, 11, 12, 16, 50] {
        let mut ctx = InitializeExtraAccountMetaList {
            payer: key(1),
            extra_account_meta_list: vec![0u8; size],
            mint: key(12),
        };
        assert_eq!(
            initialize_extra_accounts(&mut ctx),
            Err(ExtraAccountMetaError::InvalidExtraAccountMeta)
        );
        assert_eq!(ctx.extra_account_meta_list, vec![0u8; size]);
    }
}

#[test]
fn blank_means_all_zero() {
    assert!(blank(&Vec::new()));
    assert!(blank(&vec![0u8; 51]));
    let mut data = vec![0u8; 51];
    data[50] = 1;
    assert!(!blank(&data));
}

#[test]
fn whitelist_error_messages() {
    assert_eq!(WhitelistError::InvalidWhitelistAccount.message(), "Invalid whitelist account");
    assert_eq!(WhitelistError::AccountAlreadyExists.message(), "Account already exists");
    assert_eq!(WhitelistError::AccountDoesNotExist.message(), "Account does not exist");
    assert_eq!(
        WhitelistError::AccountDoesNotMatch.message(),
        "Whitelist PDA does not expected PDA"
    );
    assert_eq!(WhitelistError::AccountNotWhitelisted.message(), "Whitelist PDA does not exist");
    assert_eq!(
        WhitelistError::DeserializeWhitelistData.message(),
        "Failed to deserialize whitelist data"
    );
    assert_eq!(WhitelistError::NotTransferring.message(), "TransferHook: Not transferring");
    assert_eq!(
        ExtraAccountMetaError::InvalidExtraAccountMeta.message(),
        "Invalid ExtraAccountMeta provided"
    );
}

#[test]
fn whitelist_error_codes_count_up_from_the_offset() {
    assert_eq!(ERROR_CODE_OFFSET, 6000);
    let kinds = [
        WhitelistError::InvalidWhitelistAccount,
        WhitelistError::AccountAlreadyExists,
        WhitelistError::AccountDoesNotExist,
        WhitelistError::AccountDoesNotMatch,
        WhitelistError::AccountNotWhitelisted,
        WhitelistError::DeserializeWhitelistData,
        WhitelistError::NotTransferring,
    ];
    for (i, kind) in kinds.iter().enumerate() {
        assert_eq!(kind.code(), 6000 + u32::try_from(i).unwrap());
        assert_eq!(WhitelistError::from_code(kind.code()), Some(*kind));
    }
    assert_eq!(WhitelistError::from_code(5999), None);
    assert_eq!(WhitelistError::from_code(6007), None);
    assert_eq!(WhitelistError::from_code(0), None);
    assert_eq!(WhitelistError::from_code(u32::MAX), None);
    assert_eq!(ExtraAccountMetaError::InvalidExtraAccountMeta.code(), 6000);
}
