use slipless_hook::addr::{addr_eq, derive_pda, Address};
use slipless_hook::badge::TokenBadge;
use slipless_hook::error::SliplessError;
use slipless_hook::meta::{build_seed_meta, descriptor_list_size, serialize_meta_list, MetaEntry};
use slipless_hook::state::{
    badge_tag_bytes, metas_tag_bytes, InitializeExtraAccountMetaList, IssueBadge, SliplessHook,
    StoredAccount, TokenAccountInfo, TransferHook, ADDRESS_LENGTH, DESTINATION_TOKEN_INDEX,
    OWNER_FIELD_OFFSET,
};

fn addr(x: u8) -> Address {
    Address::new(vec![x; 32])
}

fn fresh_hook() -> SliplessHook {
    SliplessHook::new(addr(7))
}

fn init_ctx(mint: u8) -> InitializeExtraAccountMetaList {
    InitializeExtraAccountMetaList { payer: addr(1), mint: addr(mint) }
}

fn issue_ctx(user: u8) -> IssueBadge {
    IssueBadge { authority: addr(2), user: addr(user) }
}

fn transfer_ctx(mint: u8, dest_owner: u8) -> TransferHook {
    TransferHook {
        source_token: TokenAccountInfo { mint: addr(mint), owner: addr(3) },
        mint: addr(mint),
        destination_token: TokenAccountInfo { mint: addr(mint), owner: addr(dest_owner) },
        owner_delegate: addr(3),
    }
}

#[test]
fn initialize_once_then_reject_second() {
    let mut hook = fresh_hook();
    let first = hook.initialize_extra_account_meta_list(&init_ctx(10));
    let slot = first.expect("first initialization must succeed");

    let before = match hook.account_at(&slot) {
        Some(StoredAccount::MetaList { data, .. }) => data.clone(),
        _ => panic!("descriptor record expected"),
    };

    let second = hook.initialize_extra_account_meta_list(&init_ctx(10));
    assert_eq!(second, Err(SliplessError::AlreadyInitialized));

    // The first descriptor is unchanged by the failed second attempt.
    match hook.account_at(&slot) {
        Some(StoredAccount::MetaList { data, .. }) => assert_eq!(*data, before),
        _ => panic!("descriptor record expected"),
    }
    assert_eq!(hook.accounts.len(), 1);
}

#[test]
fn initialize_distinct_mints_both_succeed() {
    let mut hook = fresh_hook();
    let a = hook.initialize_extra_account_meta_list(&init_ctx(10)).unwrap();
    let b = hook.initialize_extra_account_meta_list(&init_ctx(11)).unwrap();
    assert_ne!(a, b);
    assert_eq!(hook.accounts.len(), 2);
}

#[test]
fn descriptor_layout_matches_declared_encoding() {
    let mut hook = fresh_hook();
    let slot = hook.initialize_extra_account_meta_list(&init_ctx(10)).unwrap();

    let (metas, data) = match hook.account_at(&slot) {
        Some(StoredAccount::MetaList { metas, data }) => (metas.clone(), data.clone()),
        _ => panic!("descriptor record expected"),
    };

    // Exactly one account-requirement entry, read-only, marked as a PDA.
    assert_eq!(metas.len(), 1);
    let entry = &metas[0];
    assert_eq!(entry.discriminator, 1);
    assert!(!entry.is_signer);
    assert!(!entry.is_writable);

    // Seed config: literal "token-badge", then 32 bytes at offset 32 of the
    // account at index 2, zero-padded to 32 bytes.
    let mut expected_config = vec![1u8, 11];
    expected_config.extend_from_slice(b"token-badge");
    expected_config.extend_from_slice(&[4, DESTINATION_TOKEN_INDEX, OWNER_FIELD_OFFSET, ADDRESS_LENGTH]);
    expected_config.resize(32, 0);
    assert_eq!(entry.address_config, expected_config);

    // Serialized bytes: 8-byte type discriminator, little-endian value length
    // and entry count, the packed entry, then untouched zero padding.
    assert_eq!(data.len(), 8 + descriptor_list_size(1));
    let disc = solana_program::hash::hash(b"spl-transfer-hook-interface:execute").to_bytes();
    assert_eq!(&data[0..8], &disc[0..8]);
    assert_eq!(&data[8..12], &39u32.to_le_bytes());
    assert_eq!(&data[12..16], &1u32.to_le_bytes());
    assert_eq!(data[16], 1);
    assert_eq!(&data[17..49], expected_config.as_slice());
    assert_eq!(&data[49..51], &[0u8, 0u8]);
    assert!(data[51..].iter().all(|&b| b == 0));
}

#[test]
fn derived_slots_match_runtime_derivation() {
    let mut hook = fresh_hook();
    let mint = addr(10);
    let user = addr(20);
    let descriptor_slot = hook
        .initialize_extra_account_meta_list(&InitializeExtraAccountMetaList {
            payer: addr(1),
            mint: mint.clone(),
        })
        .unwrap();
    let badge_slot = hook
        .issue_badge(&IssueBadge { authority: addr(2), user: user.clone() }, 1000)
        .unwrap();

    let pid = solana_program::pubkey::Pubkey::new_from_array([7u8; 32]);
    let (expected_descriptor, _) = solana_program::pubkey::Pubkey::find_program_address(
        &[b"extra-account-metas", &[10u8; 32]],
        &pid,
    );
    let (expected_badge, _) = solana_program::pubkey::Pubkey::find_program_address(
        &[b"token-badge", &[20u8; 32]],
        &pid,
    );
    assert_eq!(descriptor_slot.bytes, expected_descriptor.to_bytes().to_vec());
    assert_eq!(badge_slot.bytes, expected_badge.to_bytes().to_vec());

    // The public derivation agrees with what the operations derived.
    let via_lib = derive_pda(&metas_tag_bytes(), &mint, &hook.program_id).unwrap();
    assert!(addr_eq(&via_lib, &descriptor_slot));
    let via_lib_badge = derive_pda(&badge_tag_bytes(), &user, &hook.program_id).unwrap();
    assert!(addr_eq(&via_lib_badge, &badge_slot));
}

#[test]
fn derivation_is_deterministic_across_calls() {
    let mint = addr(10);
    let pid = addr(7);
    let a = derive_pda(&metas_tag_bytes(), &mint, &pid).unwrap();
    let b = derive_pda(&metas_tag_bytes(), &mint, &pid).unwrap();
    assert_eq!(a, b);

    // Two independent states derive the same slot for the same mint.
    let mut h1 = fresh_hook();
    let mut h2 = fresh_hook();
    let s1 = h1.initialize_extra_account_meta_list(&init_ctx(10)).unwrap();
    let s2 = h2.initialize_extra_account_meta_list(&init_ctx(10)).unwrap();
    assert_eq!(s1, s2);
}

#[test]
fn issue_badge_once_then_reject_second() {
    let mut hook = fresh_hook();
    let slot = hook.issue_badge(&issue_ctx(20), 1111).unwrap();

    match hook.account_at(&slot) {
        Some(StoredAccount::Badge { badge }) => {
            assert_eq!(badge.authority, addr(2));
            assert_eq!(badge.user, addr(20));
            assert_eq!(badge.issued_at, 1111);
        }
        _ => panic!("badge record expected"),
    }

    // A later attempt, by another authority and at another time, fails and
    // the first badge's fields survive.
    let second = hook.issue_badge(&IssueBadge { authority: addr(9), user: addr(20) }, 2222);
    assert_eq!(second, Err(SliplessError::AlreadyInitialized));
    match hook.account_at(&slot) {
        Some(StoredAccount::Badge { badge }) => {
            assert_eq!(badge.authority, addr(2));
            assert_eq!(badge.user, addr(20));
            assert_eq!(badge.issued_at, 1111);
        }
        _ => panic!("badge record expected"),
    }
}

#[test]
fn transfer_allowed_for_badged_owner() {
    let mut hook = fresh_hook();
    hook.initialize_extra_account_meta_list(&init_ctx(10)).unwrap();
    hook.issue_badge(&issue_ctx(20), 1000).unwrap();
    assert_eq!(hook.transfer_hook(&transfer_ctx(10, 20), 500), Ok(()));
}

#[test]
fn transfer_rejected_without_badge() {
    let mut hook = fresh_hook();
    hook.initialize_extra_account_meta_list(&init_ctx(10)).unwrap();
    hook.issue_badge(&issue_ctx(20), 1000).unwrap();
    // Owner 21 has no badge: the derived slot is empty.
    assert_eq!(
        hook.transfer_hook(&transfer_ctx(10, 21), 500),
        Err(SliplessError::MissingAccount)
    );
}

#[test]
fn transfer_rejected_for_mismatched_badge() {
    // A badge recording the wrong user sits at the destination owner's badge
    // slot: the check's own field comparison must reject it.
    let pid = addr(7);
    let owner = addr(20);
    let slot = derive_pda(&badge_tag_bytes(), &owner, &pid).unwrap();
    let badge = TokenBadge { authority: addr(2), user: addr(21), issued_at: 1000 };
    let hook = SliplessHook {
        program_id: pid,
        accounts: vec![(slot, StoredAccount::Badge { badge })],
    };
    assert_eq!(
        hook.transfer_hook(&transfer_ctx(10, 20), 500),
        Err(SliplessError::InvalidBadgeUser)
    );
}

#[test]
fn transfer_rejected_when_slot_holds_no_badge_record() {
    // Something other than a badge sits at the badge slot.
    let pid = addr(7);
    let owner = addr(20);
    let slot = derive_pda(&badge_tag_bytes(), &owner, &pid).unwrap();
    let entry = build_seed_meta(&badge_tag_bytes(), 2, 32, 32, false, false).unwrap();
    let metas: Vec<MetaEntry> = vec![entry];
    let data = serialize_meta_list(&metas, 8 + descriptor_list_size(1)).unwrap();
    let hook = SliplessHook {
        program_id: pid,
        accounts: vec![(slot, StoredAccount::MetaList { metas, data })],
    };
    assert_eq!(
        hook.transfer_hook(&transfer_ctx(10, 20), 500),
        Err(SliplessError::MalformedBinding)
    );
}

#[test]
fn transfer_rejected_on_wrong_mint_binding() {
    let mut hook = fresh_hook();
    hook.initialize_extra_account_meta_list(&init_ctx(10)).unwrap();
    hook.issue_badge(&issue_ctx(20), 1000).unwrap();

    let mut ctx = transfer_ctx(10, 20);
    ctx.destination_token.mint = addr(11);
    assert_eq!(hook.transfer_hook(&ctx, 500), Err(SliplessError::MalformedBinding));

    let mut ctx2 = transfer_ctx(10, 20);
    ctx2.source_token.mint = addr(11);
    assert_eq!(hook.transfer_hook(&ctx2, 500), Err(SliplessError::MalformedBinding));
}

#[test]
fn seed_meta_rejects_oversized_tag() {
    let tag: Vec<u8> = vec![97u8; 30];
    assert_eq!(
        build_seed_meta(&tag, 2, 32, 32, false, false),
        Err(SliplessError::LayoutMismatch)
    );
    // The boundary: a 26-byte tag still fits (2 + 26 + 4 = 32).
    let tag26: Vec<u8> = vec![97u8; 26];
    assert!(build_seed_meta(&tag26, 2, 32, 32, false, false).is_ok());
    let tag27: Vec<u8> = vec![97u8; 27];
    assert!(build_seed_meta(&tag27, 2, 32, 32, false, false).is_err());
}

#[test]
fn serialize_rejects_short_buffer() {
    let entry = build_seed_meta(&badge_tag_bytes(), 2, 32, 32, false, false).unwrap();
    let metas: Vec<MetaEntry> = vec![entry];
    assert_eq!(
        serialize_meta_list(&metas, descriptor_list_size(1) - 1),
        Err(SliplessError::LayoutMismatch)
    );
    let ok = serialize_meta_list(&metas, descriptor_list_size(1)).unwrap();
    assert_eq!(ok.len(), descriptor_list_size(1));
}

#[test]
fn full_scenario_one_mint_two_users() {
    let mut hook = fresh_hook();

    // Mint initialized once: descriptor with exactly one entry at the
    // derived slot.
    let descriptor_slot = hook.initialize_extra_account_meta_list(&init_ctx(10)).unwrap();
    match hook.account_at(&descriptor_slot) {
        Some(StoredAccount::MetaList { metas, .. }) => assert_eq!(metas.len(), 1),
        _ => panic!("descriptor record expected"),
    }

    // Badge issued for one user; the badge records that user.
    let badge_slot = hook.issue_badge(&issue_ctx(20), 1000).unwrap();
    match hook.account_at(&badge_slot) {
        Some(StoredAccount::Badge { badge }) => assert_eq!(badge.user, addr(20)),
        _ => panic!("badge record expected"),
    }

    // Transfer to the badged user is allowed; to an unbadged user rejected.
    assert_eq!(hook.transfer_hook(&transfer_ctx(10, 20), 500), Ok(()));
    assert_eq!(
        hook.transfer_hook(&transfer_ctx(10, 21), 500),
        Err(SliplessError::MissingAccount)
    );

    // A failed second initialization leaves everything in place.
    assert_eq!(
        hook.initialize_extra_account_meta_list(&init_ctx(10)),
        Err(SliplessError::AlreadyInitialized)
    );
    assert_eq!(hook.accounts.len(), 2);
}

#[test]
fn distinct_tags_partition_slots_for_same_key() {
    // The same 32 bytes used once as a mint and once as a user land in
    // different slots, so a descriptor and a badge can coexist.
    let mut hook = fresh_hook();
    let descriptor_slot = hook
        .initialize_extra_account_meta_list(&InitializeExtraAccountMetaList {
            payer: addr(1),
            mint: addr(20),
        })
        .unwrap();
    let badge_slot = hook.issue_badge(&issue_ctx(20), 1000).unwrap();
    assert_ne!(descriptor_slot, badge_slot);
    assert_eq!(hook.accounts.len(), 2);
}
