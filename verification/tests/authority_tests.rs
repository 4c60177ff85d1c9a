use unicus_ts::authority::{
    auction_authority, check_auction_authority, check_order_authority, order_authority,
};

fn asset_bytes() -> [u8; 32] {
    let mut a = [0u8; 32];
    for (i, b) in a.iter_mut().enumerate() {
        *b = i as u8;
    }
    a
}

fn program_bytes() -> [u8; 32] {
    [7u8; 32]
}

#[test]
fn derivation_is_stable_across_calls() {
    let asset = asset_bytes();
    let program = program_bytes();
    let first = order_authority(&asset, &program).expect("derivation should succeed");
    let second = order_authority(&asset, &program).expect("derivation should succeed");
    assert_eq!(first, second);
    let a1 = auction_authority(&asset, &program).expect("derivation should succeed");
    let a2 = auction_authority(&asset, &program).expect("derivation should succeed");
    assert_eq!(a1, a2);
}

#[test]
fn derivation_matches_the_runtime_search() {
    let asset = asset_bytes();
    let program = program_bytes();
    let program_id = solana_pubkey::Pubkey::new_from_array(program);
    let (expected_addr, expected_bump) =
        solana_pubkey::Pubkey::find_program_address(&[b"order", &asset], &program_id);
    let (addr, bump) = order_authority(&asset, &program).expect("derivation should succeed");
    assert_eq!(addr, expected_addr.to_bytes());
    assert_eq!(bump, expected_bump);

    let (expected_addr, expected_bump) =
        solana_pubkey::Pubkey::find_program_address(&[b"auction", &asset], &program_id);
    let (addr, bump) = auction_authority(&asset, &program).expect("derivation should succeed");
    assert_eq!(addr, expected_addr.to_bytes());
    assert_eq!(bump, expected_bump);
}

#[test]
fn verification_routine_accepts_only_the_derived_pair() {
    let asset = asset_bytes();
    let program = program_bytes();
    let (addr, bump) = order_authority(&asset, &program).expect("derivation should succeed");
    assert!(check_order_authority(&asset, &program, &addr, bump));
    assert!(!check_order_authority(&asset, &program, &addr, bump.wrapping_add(1)));
    let mut wrong = addr;
    wrong[0] = wrong[0].wrapping_add(1);
    assert!(!check_order_authority(&asset, &program, &wrong, bump));

    let (a_addr, a_bump) = auction_authority(&asset, &program).expect("derivation should succeed");
    assert!(check_auction_authority(&asset, &program, &a_addr, a_bump));
    assert!(!check_auction_authority(&asset, &program, &addr, bump) || (addr, bump) == (a_addr, a_bump));
}
