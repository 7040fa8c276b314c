use trade_decoder::action::Action;
use trade_decoder::amount::Uint256;
use trade_decoder::format::format_with_padding;
use trade_decoder::frames::{sum_calls, CallFrame, CallKind};
use trade_decoder::hexparse::parse_hash;
use trade_decoder::holdings::holdings_percentage;
use trade_decoder::logs::{address_from_word, find_counterparty, scan_for_counterparty, transfer_signature, Log};
use trade_decoder::report::{buy_report, native_delta_with_gas, require_contract_data, require_found, sell_report, DecodeError, TokenInfo};
use trade_decoder::sim::{replay_request, ForkSession};

fn addr(tag: u8) -> Vec<u8> {
    let mut a = vec![0u8; 20];
    a[19] = tag;
    a
}

fn topic_for(address: &[u8]) -> Vec<u8> {
    let mut t = vec![0u8; 12];
    t.extend_from_slice(address);
    t
}

fn leaf(kind: CallKind, to: Option<Vec<u8>>, value: Option<u64>) -> CallFrame {
    CallFrame { kind, to, value: value.map(Uint256::from_u64), input: None, calls: Vec::new() }
}

fn transfer_log(emitter: Vec<u8>, from: &[u8], to: &[u8]) -> Log {
    Log { address: emitter, topics: vec![transfer_signature(), topic_for(from), topic_for(to)] }
}

#[test]
fn aggregates_matching_nodes_across_shapes() {
    let target = addr(1);
    let other = addr(2);
    // two matching siblings under a non-matching root, one matching node
    // nested deeper under a non-matching ancestor
    let deep = CallFrame {
        kind: CallKind::Other,
        to: Some(other.clone()),
        value: Some(Uint256::from_u64(999)),
        input: None,
        calls: vec![leaf(CallKind::Call, Some(target.clone()), Some(7))],
    };
    let root = CallFrame {
        kind: CallKind::Other,
        to: None,
        value: None,
        input: None,
        calls: vec![
            leaf(CallKind::Call, Some(target.clone()), Some(5)),
            leaf(CallKind::Call, Some(target.clone()), Some(11)),
            leaf(CallKind::Call, Some(other.clone()), Some(100)),
            deep,
        ],
    };
    let total = sum_calls(&root, &target).expect("sum fits");
    assert_eq!(total, Uint256::from_u64(23));
}

#[test]
fn aggregate_counts_matching_root_itself() {
    let target = addr(1);
    let root = CallFrame {
        kind: CallKind::Call,
        to: Some(target.clone()),
        value: Some(Uint256::from_u64(3)),
        input: None,
        calls: vec![leaf(CallKind::Call, Some(target.clone()), Some(4))],
    };
    assert_eq!(sum_calls(&root, &target).unwrap(), Uint256::from_u64(7));
}

#[test]
fn aggregate_without_match_is_zero() {
    let target = addr(1);
    let other = addr(2);
    let root = CallFrame {
        kind: CallKind::Other,
        to: Some(target.clone()),
        value: Some(Uint256::from_u64(50)),
        input: None,
        calls: vec![
            leaf(CallKind::Call, Some(other.clone()), Some(5)),
            leaf(CallKind::Call, None, Some(6)),
            leaf(CallKind::Call, Some(target.clone()), None),
        ],
    };
    assert_eq!(sum_calls(&root, &target).unwrap(), Uint256::zero());
}

#[test]
fn aggregate_empty_tree_is_zero() {
    let target = addr(1);
    let root = leaf(CallKind::Other, None, None);
    assert_eq!(sum_calls(&root, &target).unwrap(), Uint256::zero());
}

#[test]
fn format_zero_with_eighteen_decimals() {
    assert_eq!(format_with_padding(&Uint256::zero(), 18), "0,000000000000000000");
}

#[test]
fn format_one_native_unit() {
    let one_ether = Uint256::from_u64(1_000_000_000_000_000_000);
    assert_eq!(format_with_padding(&one_ether, 18), "1,000000000000000000");
}

#[test]
fn format_value_longer_than_decimals() {
    assert_eq!(format_with_padding(&Uint256::from_u64(123456), 2), "1234,56");
    assert_eq!(format_with_padding(&Uint256::from_u64(123456), 0), "123456,");
}

#[test]
fn format_value_shorter_than_decimals() {
    assert_eq!(format_with_padding(&Uint256::from_u64(45), 6), "0,000045");
}

#[test]
fn format_full_width_value() {
    // 2^256 - 1, the largest amount, has 78 digits
    let max = Uint256 { w0: u64::MAX, w1: u64::MAX, w2: u64::MAX, w3: u64::MAX };
    let s = format_with_padding(&max, 18);
    assert_eq!(
        s,
        "115792089237316195423570985008687907853269984665640564039457,584007913129639935"
    );
}

#[test]
fn direction_parsing_accepts_exactly_buy_and_sell() {
    assert_eq!(Action::from_str(&"buy".to_string()), Some(Action::Buy));
    assert_eq!(Action::from_str(&"sell".to_string()), Some(Action::Sell));
    assert_eq!(Action::from_str(&"hold".to_string()), None);
    assert_eq!(Action::from_str(&"Buy".to_string()), None);
    assert_eq!(Action::from_str(&"".to_string()), None);
}

#[test]
fn transfer_signature_is_the_known_topic() {
    // keccak256("Transfer(address,address,uint256)")
    let expected: [u8; 32] = [
        0xdd, 0xf2, 0x52, 0xad, 0x1b, 0xe2, 0xc8, 0x9b, 0x69, 0xc2, 0xb0, 0x68, 0xfc, 0x37,
        0x8d, 0xaa, 0x95, 0x2b, 0xa7, 0xf1, 0x63, 0xc4, 0xa1, 0x16, 0x28, 0xf5, 0x5a, 0x4d,
        0xf5, 0x23, 0xb3, 0xef,
    ];
    assert_eq!(transfer_signature(), expected.to_vec());
}

#[test]
fn buy_scan_finds_receiver_log_and_sell_scan_does_not() {
    let trader = addr(9);
    let pool = addr(4);
    let token = addr(7);
    let logs = vec![transfer_log(token.clone(), &pool, &trader)];
    let found = find_counterparty(&logs, &trader, Action::Buy).expect("buy scan matches");
    assert_eq!(found.0, token);
    assert_eq!(found.1, 0);
    // the decoded sender is the pool, not the trader: no sell match
    assert!(find_counterparty(&logs, &trader, Action::Sell).is_none());
}

#[test]
fn scanner_takes_first_matching_log_in_receipt_order() {
    let trader = addr(9);
    let pool = addr(4);
    let token_a = addr(7);
    let token_b = addr(8);
    let logs = vec![
        transfer_log(token_a.clone(), &trader, &pool),
        transfer_log(token_b.clone(), &trader, &pool),
    ];
    let found = find_counterparty(&logs, &trader, Action::Sell).expect("sell scan matches");
    assert_eq!(found.0, token_a);
    assert_eq!(found.1, 0);
}

#[test]
fn scanner_skips_non_transfer_topics() {
    let trader = addr(9);
    let token = addr(7);
    let mut wrong_sig = transfer_log(token.clone(), &addr(4), &trader);
    wrong_sig.topics[0] = vec![0u8; 32];
    let logs = vec![wrong_sig, transfer_log(token.clone(), &addr(4), &trader)];
    let found = find_counterparty(&logs, &trader, Action::Buy).expect("second log matches");
    assert_eq!(found.1, 1);
}

#[test]
fn no_transfer_log_yields_no_counterparty_found() {
    let trader = addr(9);
    let mut not_transfer = transfer_log(addr(7), &addr(4), &trader);
    not_transfer.topics[0] = vec![1u8; 32];
    let logs = vec![not_transfer];
    let outcome = scan_for_counterparty(&logs, &trader, Action::Buy);
    assert_eq!(outcome.unwrap_err(), DecodeError::NoCounterpartyFound);
    let empty: Vec<Log> = Vec::new();
    assert_eq!(
        scan_for_counterparty(&empty, &trader, Action::Sell).unwrap_err(),
        DecodeError::NoCounterpartyFound
    );
}

#[test]
fn single_topic_transfer_log_decodes_no_trader_leg() {
    // a log carrying only the signature topic has no sender to decode, so a
    // sell scan passes it over; a buy scan reads the last topic, which is
    // the signature itself and names no ordinary trader
    let trader = addr(9);
    let logs = vec![Log { address: addr(7), topics: vec![transfer_signature()] }];
    assert!(find_counterparty(&logs, &trader, Action::Sell).is_none());
    assert!(find_counterparty(&logs, &trader, Action::Buy).is_none());
}

#[test]
fn format_with_the_widest_decimal_count() {
    // 77 fractional digits, the most a 256-bit integer can ever need
    let s = format_with_padding(&Uint256::zero(), 77);
    assert_eq!(s.len(), 79);
    assert_eq!(&s[0..2], "0,");
    assert!(s[2..].bytes().all(|b| b == b'0'));
}

#[test]
fn address_from_word_takes_low_twenty_bytes() {
    let trader = addr(9);
    let word = topic_for(&trader);
    assert_eq!(address_from_word(&word), trader);
}

#[test]
fn buy_scenario_reports_both_legs() {
    // transaction value: 1 native unit at 18 decimals; one transfer of
    // 500 token units at 6 decimals from a pool to the trader
    let trader = addr(9);
    let pool = addr(4);
    let token_addr = addr(7);
    let logs = vec![transfer_log(token_addr.clone(), &pool, &trader)];
    let (found_token, _) = find_counterparty(&logs, &trader, Action::Buy).expect("one match");
    assert_eq!(found_token, token_addr);
    let token = TokenInfo { address: found_token, decimals: 6, symbol: "TKN".to_string() };
    let tx_value = Uint256::from_u64(1_000_000_000_000_000_000);
    let pre = Uint256::from_u64(1_000_000);
    let post = Uint256::from_u64(501_000_000);
    let report = buy_report(&tx_value, &token, &pre, &post).expect("consistent balances");
    assert_eq!(report.sent, "Sent 1,000000000000000000 ether");
    assert_eq!(report.received, "Received 500,000000 tkn");
}

#[test]
fn sell_scenario_reports_both_legs() {
    let trader = addr(9);
    let pool = addr(4);
    let token_addr = addr(7);
    let logs = vec![transfer_log(token_addr.clone(), &trader, &pool)];
    let (found_token, _) = find_counterparty(&logs, &trader, Action::Sell).expect("one match");
    let token = TokenInfo { address: found_token, decimals: 6, symbol: "TKN".to_string() };
    // the trader's token balance drops by 500 units; the pool pays
    // 2 native units through a nested value-call
    let pre = Uint256::from_u64(501_000_000);
    let post = Uint256::from_u64(1_000_000);
    let trace = CallFrame {
        kind: CallKind::Other,
        to: Some(pool.clone()),
        value: None,
        input: None,
        calls: vec![leaf(CallKind::Call, Some(trader.clone()), Some(2_000_000_000_000_000_000))],
    };
    let report = sell_report(&trace, &trader, &token, &pre, &post).expect("consistent");
    assert_eq!(report.sent, "Sent 500,000000 tkn");
    assert_eq!(report.received, "Received 2,000000000000000000 ether");
}

#[test]
fn sell_native_delta_adds_gas_never_subtracts() {
    // raw balance delta: 90 - 100 would be negative; the gas the sender paid
    // (5 * 4 = 20) is added back, leaving 10 received
    let pre = Uint256::from_u64(100);
    let post = Uint256::from_u64(90);
    let n = native_delta_with_gas(&pre, &post, 5, 4).expect("gas covers the dip");
    assert_eq!(n, Uint256::from_u64(10));
    // were the gas term subtracted the result could not be 10
    let bigger = native_delta_with_gas(&Uint256::zero(), &Uint256::from_u64(90), 5, 4).unwrap();
    assert_eq!(bigger, Uint256::from_u64(110));
}

#[test]
fn inconsistent_balances_are_reported_not_wrapped() {
    let token = TokenInfo { address: addr(7), decimals: 6, symbol: "TKN".to_string() };
    let r = buy_report(&Uint256::zero(), &token, &Uint256::from_u64(10), &Uint256::from_u64(3));
    assert_eq!(r.unwrap_err(), DecodeError::BalanceInconsistent);
    let trace = leaf(CallKind::Other, None, None);
    let r = sell_report(&trace, &addr(9), &token, &Uint256::from_u64(3), &Uint256::from_u64(10));
    assert_eq!(r.unwrap_err(), DecodeError::BalanceInconsistent);
    let r = native_delta_with_gas(&Uint256::from_u64(1000), &Uint256::zero(), 0, 0);
    assert_eq!(r.unwrap_err(), DecodeError::BalanceInconsistent);
}

#[test]
fn checked_arithmetic_reports_edges() {
    let max = Uint256 { w0: u64::MAX, w1: u64::MAX, w2: u64::MAX, w3: u64::MAX };
    assert!(max.checked_add(&Uint256::from_u64(1)).is_none());
    assert_eq!(max.checked_add(&Uint256::zero()).unwrap(), max);
    assert!(Uint256::zero().checked_sub(&Uint256::from_u64(1)).is_none());
    let carry = Uint256 { w0: u64::MAX, w1: 0, w2: 0, w3: 0 };
    let sum = carry.checked_add(&Uint256::from_u64(1)).unwrap();
    assert_eq!(sum, Uint256 { w0: 0, w1: 1, w2: 0, w3: 0 });
    let back = sum.checked_sub(&Uint256::from_u64(1)).unwrap();
    assert_eq!(back, carry);
}

#[test]
fn divmod_small_splits_exactly() {
    let v = Uint256::from_u128(12345678901234567890123456789);
    let (q, r) = v.divmod_small(10);
    assert_eq!(q, Uint256::from_u128(1234567890123456789012345678));
    assert_eq!(r, 9);
}

#[test]
fn holdings_percentage_is_basis_points() {
    // 2500 basis points of 200000 is a quarter: 50000
    let h = Uint256::from_u64(200_000);
    assert_eq!(holdings_percentage(&h, 2_500).unwrap(), Uint256::from_u64(50_000));
    // rounding is toward zero
    assert_eq!(holdings_percentage(&Uint256::from_u64(3), 5_000).unwrap(), Uint256::from_u64(1));
}

#[test]
fn parse_hash_accepts_prefixed_and_bare_hex() {
    let text = b"0xddf252ad1be2c89b69c2b068fc378daa952ba7f163c4a11628f55a4df523b3ef".to_vec();
    let h = parse_hash(&text).expect("well formed");
    assert_eq!(h, transfer_signature());
    let bare = b"ddf252ad1be2c89b69c2b068fc378daa952ba7f163c4a11628f55a4df523b3ef".to_vec();
    assert_eq!(parse_hash(&bare).unwrap(), transfer_signature());
    let upper = b"0xDDF252AD1BE2C89B69C2B068FC378DAA952BA7F163C4A11628F55A4DF523B3EF".to_vec();
    assert_eq!(parse_hash(&upper).unwrap(), transfer_signature());
}

#[test]
fn parse_hash_rejects_malformed_text() {
    assert_eq!(parse_hash(&b"0x1234".to_vec()).unwrap_err(), DecodeError::ParseError);
    assert_eq!(parse_hash(&Vec::new()).unwrap_err(), DecodeError::ParseError);
    let bad = b"zzf252ad1be2c89b69c2b068fc378daa952ba7f163c4a11628f55a4df523b3ef".to_vec();
    assert_eq!(parse_hash(&bad).unwrap_err(), DecodeError::ParseError);
}

#[test]
fn absent_fetches_are_classified() {
    assert_eq!(require_found::<u32>(None).unwrap_err(), DecodeError::NotFound);
    assert_eq!(require_found(Some(5u32)).unwrap(), 5);
    assert_eq!(require_contract_data::<u8>(None).unwrap_err(), DecodeError::ContractCallError);
    assert_eq!(require_contract_data(Some(7u8)).unwrap(), 7);
}

#[test]
fn replay_request_needs_recipient_and_value() {
    let sender = addr(3);
    let good = CallFrame {
        kind: CallKind::Call,
        to: Some(addr(5)),
        value: Some(Uint256::from_u64(42)),
        input: Some(vec![0xab, 0xcd]),
        calls: Vec::new(),
    };
    let req = replay_request(&good, &sender).expect("replayable");
    assert_eq!(req.from, sender);
    assert_eq!(req.to, addr(5));
    assert_eq!(req.value, Uint256::from_u64(42));
    assert_eq!(req.input, vec![0xab, 0xcd]);
    let no_recipient = leaf(CallKind::Call, None, Some(1));
    assert_eq!(replay_request(&no_recipient, &sender).unwrap_err(), DecodeError::SimulationError);
    let no_value = leaf(CallKind::Call, Some(addr(5)), None);
    assert_eq!(replay_request(&no_value, &sender).unwrap_err(), DecodeError::SimulationError);
}

#[test]
fn fork_session_keeps_both_observations_apart() {
    let mut session = ForkSession::new(addr(3));
    session.impersonation_enabled();
    session.sender_impersonated();
    session.record_pre(Uint256::from_u64(1_000_000));
    session.record_replay(true).expect("included");
    session.record_post(Uint256::from_u64(501_000_000));
    let (pre, post) = session.observed();
    assert_eq!(pre, Uint256::from_u64(1_000_000));
    assert_eq!(post, Uint256::from_u64(501_000_000));
    assert_eq!(post.checked_sub(&pre).unwrap(), Uint256::from_u64(500_000_000));
}

#[test]
fn failed_replay_is_a_simulation_error() {
    let mut session = ForkSession::new(addr(3));
    session.impersonation_enabled();
    session.sender_impersonated();
    session.record_pre(Uint256::zero());
    assert_eq!(session.record_replay(false).unwrap_err(), DecodeError::SimulationError);
}
