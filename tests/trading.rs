use pump_sniper::address::Address;
use pump_sniper::auto_trader::{estimated_sell_amount, AutoTrader, SnipeError, SnipeOrder};
use pump_sniper::blockhash_cache::BlockhashCache;
use pump_sniper::processor::{CompiledInstruction, Message, TransactionProcessor};
use pump_sniper::protocol::PUMP_PROGRAM_ID;
use pump_sniper::reserves::{Price, ReserveLedger, TokenReserves};
use pump_sniper::sell_schedule::{resolve_sell_amount, sell_due_time, SellSchedule};

fn addr(tag: u8) -> Address {
    Address::new_from_array([tag; 32])
}

fn create_data() -> Vec<u8> {
    let mut out = vec![0x18, 0x1e, 0xc8, 0x28, 0x05, 0x1c, 0x07, 0x77];
    for text in ["Tok", "TOK", "uri"] {
        out.extend_from_slice(&(text.len() as u32).to_le_bytes());
        out.extend_from_slice(text.as_bytes());
    }
    out.extend_from_slice(&[7u8; 32]);
    out
}

fn buy_data(amount: u64, cost: u64) -> Vec<u8> {
    let mut out = vec![0x66, 0x06, 0x3d, 0x12, 0x01, 0xda, 0xeb, 0xea];
    out.extend_from_slice(&amount.to_le_bytes());
    out.extend_from_slice(&cost.to_le_bytes());
    out
}

fn message(target: Address, mint: Address, data: Vec<Vec<u8>>) -> Message {
    Message {
        account_keys: vec![addr(1), mint, addr(3), target],
        instructions: data
            .into_iter()
            .map(|d| CompiledInstruction { program_id_index: 3, data: d })
            .collect(),
    }
}

fn price_f64(p: Price) -> f64 {
    (p.lamports as f64 / 1e9) / (p.units as f64 / 1e6)
}

#[test]
fn create_then_buy_end_to_end() {
    let target = addr(9);
    let mint = addr(2);
    let mut processor = TransactionProcessor::new(target);
    processor.set_auto_trader();
    let msg = message(target, mint, vec![create_data(), buy_data(1_000_000, 2_000_000_000)]);
    let candidates = processor.process_entries(&vec![msg], 77);
    assert_eq!(candidates.len(), 1);
    let c = candidates[0];
    assert_eq!(c.mint, mint);
    assert_eq!(c.sol_amount, 2_000_000_000);
    assert_eq!(c.slot, 77);
    assert_eq!(c.token_price, Price { lamports: 30_000_000_000, units: 1_073_000_000_000_000 });
    let p = price_f64(c.token_price);
    assert!((p - 0.00000002796).abs() < 1e-11, "price {}", p);
    // 1_073_000_000_000_000 - 1_000_000 token units.
    assert_eq!(
        processor.reserves_of(&mint),
        Some(TokenReserves {
            virtual_sol_reserves: 32_000_000_000,
            virtual_token_reserves: 1_072_999_999_000_000,
        })
    );
}

#[test]
fn protocol_program_instructions_are_scanned_too() {
    let target = addr(9);
    let mint = addr(2);
    let mut processor = TransactionProcessor::new(target);
    let msg = Message {
        account_keys: vec![addr(1), mint, addr(3), target, Address::new_from_array(PUMP_PROGRAM_ID)],
        instructions: vec![CompiledInstruction { program_id_index: 4, data: create_data() }],
    };
    let candidates = processor.process_entries(&vec![msg], 1);
    assert!(candidates.is_empty());
    assert!(processor.reserves_of(&mint).is_some());
}

#[test]
fn buy_without_create_reports_default_price_and_keeps_ledger_empty() {
    let target = addr(9);
    let mint = addr(4);
    let mut processor = TransactionProcessor::new(target);
    processor.set_auto_trader();
    let msg = message(target, mint, vec![buy_data(10, 600_000_000)]);
    let candidates = processor.process_entries(&vec![msg], 3);
    assert_eq!(candidates.len(), 1);
    assert_eq!(candidates[0].token_price, Price { lamports: 33, units: 1_000_000 });
    assert_eq!(processor.reserves_of(&mint), None);
}

#[test]
fn bad_and_unrelated_transactions_are_skipped() {
    let target = addr(9);
    let mint = addr(2);
    let mut processor = TransactionProcessor::new(target);
    processor.set_auto_trader();
    let unrelated = message(addr(8), mint, vec![create_data()]);
    let too_few_accounts = Message {
        account_keys: vec![addr(1), target],
        instructions: vec![CompiledInstruction { program_id_index: 1, data: create_data() }],
    };
    let bad_index = Message {
        account_keys: vec![addr(1), mint, addr(3), target],
        instructions: vec![CompiledInstruction { program_id_index: 200, data: create_data() }],
    };
    let garbage_then_good = message(target, mint, vec![vec![1, 2, 3], create_data(), buy_data(5, 500_000_000)]);
    let candidates = processor.process_entries(&vec![unrelated, too_few_accounts, bad_index, garbage_then_good], 5);
    assert_eq!(candidates.len(), 1);
    assert_eq!(
        processor.reserves_of(&mint),
        Some(TokenReserves { virtual_sol_reserves: 30_500_000_000, virtual_token_reserves: 1_072_999_999_999_995 })
    );
}

#[test]
fn reporting_off_yields_no_candidates() {
    let target = addr(9);
    let mint = addr(2);
    let mut processor = TransactionProcessor::new(target);
    let msg = message(target, mint, vec![create_data(), buy_data(1, 1)]);
    assert!(processor.process_entries(&vec![msg], 1).is_empty());
    assert_eq!(processor.price_of(&mint), Price { lamports: 30_000_000_001, units: 1_072_999_999_999_999 });
}

#[test]
fn reserves_saturate_and_stay_monotone() {
    let mint = addr(5);
    let mut ledger = ReserveLedger::new();
    ledger.on_create(&mint);
    ledger.on_create(&mint);
    let before = ledger.on_buy(&mint, u64::MAX, u64::MAX);
    assert_eq!(before, Price { lamports: 30_000_000_000, units: 1_073_000_000_000_000 });
    assert_eq!(
        ledger.reserves_of(&mint),
        Some(TokenReserves { virtual_sol_reserves: u64::MAX, virtual_token_reserves: 0 })
    );
    ledger.on_buy(&mint, 1, 1);
    assert_eq!(
        ledger.reserves_of(&mint),
        Some(TokenReserves { virtual_sol_reserves: u64::MAX, virtual_token_reserves: 0 })
    );
    assert_eq!(ledger.price_of(&mint), Some(Price { lamports: u64::MAX, units: 0 }));
}

#[test]
fn price_stays_positive_after_create_and_buys() {
    let mint = addr(6);
    let mut ledger = ReserveLedger::new();
    assert_eq!(ledger.price_of(&mint), None);
    assert_eq!(ledger.price_or_default(&mint), Price { lamports: 33, units: 1_000_000 });
    ledger.on_create(&mint);
    for _ in 0..10 {
        ledger.on_buy(&mint, 50_000_000_000_000, 1_000_000_000);
        let p = ledger.price_of(&mint).unwrap();
        assert!(p.lamports > 0 && p.units > 0);
        assert!(price_f64(p) > 0.0);
    }
}

#[test]
fn decision_window_is_inclusive() {
    let mut trader = AutoTrader::new();
    trader.set_price_range(500, 900);
    assert!(!trader.should_snipe(499));
    assert!(trader.should_snipe(500));
    assert!(trader.should_snipe(700));
    assert!(trader.should_snipe(900));
    assert!(!trader.should_snipe(901));
}

#[test]
fn default_trader_configuration() {
    let mut trader = AutoTrader::new();
    assert!(!trader.running);
    assert_eq!(trader.min_sol_price, 500_000_000);
    assert_eq!(trader.max_sol_price, 1_000_000_000);
    assert_eq!(trader.buy_amount, 100_000_000);
    assert_eq!(trader.sell_delay_ms, 5000);
    trader.set_buy_amount(7);
    trader.set_sell_delay(9);
    trader.start();
    assert!(trader.running);
    assert_eq!(trader.buy_amount, 7);
    assert_eq!(trader.sell_delay_ms, 9);
}

#[test]
fn snipe_order_from_initial_price() {
    let trader = AutoTrader::new();
    let price = Price { lamports: 30_000_000_000, units: 1_073_000_000_000_000 };
    assert_eq!(
        trader.snipe_token(price),
        Ok(SnipeOrder { token_amount: 3_040_166_666_666, max_sol_cost: 100_000_000, sell_delay_ms: 5000 })
    );
    let mut big = AutoTrader::new();
    big.set_buy_amount(2_000_000_000);
    assert_eq!(big.snipe_token(price).unwrap().token_amount, 60_803_333_333_333);
}

#[test]
fn snipe_order_rejects_zero_price_and_saturates() {
    let mut trader = AutoTrader::new();
    assert_eq!(trader.snipe_token(Price { lamports: 0, units: 5 }), Err(SnipeError::ZeroPrice));
    assert_eq!(trader.snipe_token(Price { lamports: 5, units: 0 }).unwrap().token_amount, 0);
    trader.set_buy_amount(u64::MAX);
    assert_eq!(trader.snipe_token(Price { lamports: 1, units: u64::MAX }).unwrap().token_amount, u64::MAX);
}

#[test]
fn fallback_sell_amount() {
    assert_eq!(estimated_sell_amount(), 2_575_757_575_757);
    assert_eq!(resolve_sell_amount(None), 2_575_757_575_757);
    assert_eq!(resolve_sell_amount(Some(42)), 42);
}

#[test]
fn cache_serves_within_ttl_and_expires_after() {
    let mut cache = BlockhashCache::new(500);
    assert_eq!(cache.get_latest_blockhash(1_000), None);
    let h = addr(11);
    cache.record_blockhash(h, 1_000);
    assert_eq!(cache.get_latest_blockhash(1_000), Some(h));
    assert_eq!(cache.get_latest_blockhash(1_499), Some(h));
    assert_eq!(cache.get_latest_blockhash(1_500), None);
    let h2 = addr(12);
    cache.record_blockhash(h2, 1_500);
    assert_eq!(cache.get_latest_blockhash(1_600), Some(h2));
}

#[test]
fn scheduled_sell_is_released_once_when_due() {
    let mut schedule = SellSchedule::new();
    let mint = addr(21);
    schedule.store_mint_with_amount(&mint, 1234, 5_000, 10_000);
    assert!(schedule.get_and_remove_mints_to_sell(14_999).is_empty());
    assert_eq!(schedule.get_mint_amount(&mint), Some(1234));
    let due = schedule.get_and_remove_mints_to_sell(15_000);
    assert_eq!(due.len(), 1);
    assert_eq!(due[0].mint, mint);
    assert_eq!(due[0].amount, 1234);
    assert!(schedule.get_and_remove_mints_to_sell(15_000).is_empty());
    assert_eq!(schedule.get_mint_amount(&mint), None);
}

#[test]
fn rescheduling_replaces_the_entry() {
    let mut schedule = SellSchedule::new();
    let a = addr(1);
    let b = addr(2);
    schedule.store_mint_with_amount(&a, 1, 100, 0);
    schedule.store_mint_with_amount(&b, 2, 50, 0);
    schedule.store_mint_with_amount(&a, 3, 10, 0);
    let due = schedule.get_and_remove_mints_to_sell(60);
    assert_eq!(due.len(), 2);
    assert_eq!((due[0].mint, due[0].amount), (b, 2));
    assert_eq!((due[1].mint, due[1].amount), (a, 3));
}

#[test]
fn due_time_saturates() {
    assert_eq!(sell_due_time(10, 5), 15);
    assert_eq!(sell_due_time(u64::MAX - 1, 5), u64::MAX);
}
