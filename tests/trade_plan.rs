use pump_sniper::address::Address;
use pump_sniper::protocol::{
    ASSOCIATED_TOKEN_PROGRAM, ATA_SELECTOR, FEE_RECIPIENT, GLOBAL_ACCOUNT, PROXY_PROGRAM, PUMP_PROGRAM_ID,
    SYSVAR_RENT, TOKEN_PROGRAM,
};
use pump_sniper::trade::{pump_buy, pump_sell, resolve_anchor, AnchorSource, COMPUTE_UNIT_LIMIT, COMPUTE_UNIT_PRICE};

fn addr(tag: u8) -> Address {
    Address::new_from_array([tag; 32])
}

#[test]
fn buy_plan_has_ata_then_buy() {
    let user = addr(1);
    let mint = addr(2);
    let plan = pump_buy(&user, &mint, 3_040_166_666_666, 100_000_000).unwrap();
    assert_eq!(plan.compute_unit_price, COMPUTE_UNIT_PRICE);
    assert_eq!(plan.compute_unit_limit, COMPUTE_UNIT_LIMIT);
    assert_eq!(plan.instructions.len(), 2);
    let ata = &plan.instructions[0];
    assert_eq!(ata.program_id.bytes, PROXY_PROGRAM);
    let mut ata_data = ATA_SELECTOR.to_vec();
    ata_data.push(0);
    assert_eq!(ata.data, ata_data);
    assert_eq!(ata.accounts.len(), 6);
    assert_eq!(ata.accounts[0].pubkey, user);
    assert!(ata.accounts[0].is_signer && ata.accounts[0].is_writable);
    assert_eq!(ata.accounts[5].pubkey.bytes, ASSOCIATED_TOKEN_PROGRAM);

    let buy = &plan.instructions[1];
    assert_eq!(buy.program_id.bytes, PROXY_PROGRAM);
    let mut data = vec![82, 225, 119, 231, 78, 29, 45, 70];
    data.extend_from_slice(&3_040_166_666_666u64.to_le_bytes());
    data.extend_from_slice(&100_000_000u64.to_le_bytes());
    assert_eq!(buy.data, data);
    assert_eq!(buy.accounts.len(), 12);
    assert_eq!(buy.accounts[0].pubkey.bytes, GLOBAL_ACCOUNT);
    assert_eq!(buy.accounts[1].pubkey.bytes, FEE_RECIPIENT);
    assert!(buy.accounts[1].is_writable && !buy.accounts[1].is_signer);
    assert_eq!(buy.accounts[2].pubkey, mint);
    assert!(!buy.accounts[2].is_writable);
    assert_eq!(buy.accounts[6].pubkey, user);
    assert_eq!(buy.accounts[8].pubkey.bytes, TOKEN_PROGRAM);
    assert_eq!(buy.accounts[9].pubkey.bytes, SYSVAR_RENT);
    assert_eq!(buy.accounts[11].pubkey.bytes, PUMP_PROGRAM_ID);
    // The user's token account is the one the first instruction creates.
    assert_eq!(buy.accounts[5].pubkey, ata.accounts[1].pubkey);
}

#[test]
fn derived_accounts_are_distinct_from_their_inputs() {
    let user = addr(1);
    let mint = addr(2);
    let plan = pump_buy(&user, &mint, 1, 1).unwrap();
    let buy = &plan.instructions[1];
    let curve = buy.accounts[3].pubkey;
    let curve_ata = buy.accounts[4].pubkey;
    let user_ata = buy.accounts[5].pubkey;
    for derived in [curve, curve_ata, user_ata] {
        assert_ne!(derived, user);
        assert_ne!(derived, mint);
        assert_ne!(derived.bytes, PUMP_PROGRAM_ID);
        assert_ne!(derived.bytes, ASSOCIATED_TOKEN_PROGRAM);
    }
    assert_ne!(curve, curve_ata);
    assert_ne!(curve_ata, user_ata);
    // Another mint derives another curve.
    let other = pump_buy(&user, &addr(3), 1, 1).unwrap();
    assert_ne!(other.instructions[1].accounts[3].pubkey, curve);
}

#[test]
fn sell_plan_matches_buy_accounts() {
    let user = addr(1);
    let mint = addr(2);
    let buy = pump_buy(&user, &mint, 1, 1).unwrap();
    let sell = pump_sell(&user, &mint, 555, 0).unwrap();
    assert_eq!(sell.instructions.len(), 1);
    let ix = &sell.instructions[0];
    let mut data = vec![83, 225, 119, 231, 78, 29, 45, 70];
    data.extend_from_slice(&555u64.to_le_bytes());
    data.extend_from_slice(&0u64.to_le_bytes());
    assert_eq!(ix.data, data);
    assert_eq!(ix.accounts.len(), 12);
    for i in 0..7 {
        assert_eq!(ix.accounts[i], buy.instructions[1].accounts[i]);
    }
    assert_eq!(ix.accounts[8].pubkey.bytes, ASSOCIATED_TOKEN_PROGRAM);
    assert_eq!(ix.accounts[9].pubkey.bytes, TOKEN_PROGRAM);
}

#[test]
fn anchor_source_prefers_cached() {
    let h = addr(4);
    assert_eq!(resolve_anchor(Some(h)), AnchorSource::Cached(h));
    assert_eq!(resolve_anchor(None), AnchorSource::Fetch);
}

#[test]
fn derived_accounts_have_known_values() {
    let plan = pump_buy(&addr(1), &addr(2), 1, 1).unwrap();
    let buy = &plan.instructions[1];
    let curve: [u8; 32] = [
        221, 235, 185, 85, 203, 7, 2, 213, 175, 97, 4, 89, 197, 18, 23, 111, 250, 15, 94, 235, 20, 220, 129, 4, 193,
        213, 111, 97, 215, 158, 107, 17,
    ];
    let curve_ata: [u8; 32] = [
        60, 66, 114, 68, 5, 12, 17, 95, 180, 96, 103, 20, 161, 93, 92, 179, 43, 44, 38, 136, 113, 235, 7, 60, 61, 144,
        41, 24, 123, 208, 191, 126,
    ];
    let user_ata: [u8; 32] = [
        176, 99, 127, 233, 131, 55, 212, 154, 113, 76, 127, 21, 154, 224, 163, 171, 181, 82, 90, 105, 151, 7, 247, 203,
        116, 68, 185, 82, 224, 246, 133, 60,
    ];
    assert_eq!(buy.accounts[3].pubkey.bytes, curve);
    assert_eq!(buy.accounts[4].pubkey.bytes, curve_ata);
    assert_eq!(buy.accounts[5].pubkey.bytes, user_ata);
}
