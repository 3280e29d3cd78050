use token_manager::address::parse_address;
use token_manager::amount::{allowance_below, narrow, resolve_debit};
use token_manager::payload::{address_field, amount_field};
use token_manager::{
    Action, ActionService, Address, Amount, CollectErc20Payload, DistributeBasePayload,
    DistributeErc20Payload, Event, FlowError, FromWalletWithPercent, Phase,
    ReceiversWithProportions, Wide,
};

const ADDR_A: &str = "0x00000000000000000000000000000000000000aa";
const ADDR_B: &str = "0x00000000000000000000000000000000000000bb";
const TOKEN: &str = "0x1111111111111111111111111111111111111111";
const MANAGER: &str = "0xABcdEF0123456789abcdef0123456789ABCDEF01";

fn addr(s: &str) -> Address {
    parse_address(s).unwrap()
}

fn amt(x: u64) -> Amount {
    Amount::from_u64(x)
}

fn wide(x: u64) -> Wide {
    Wide { low: amt(x), high: Amount::zero() }
}

fn service() -> ActionService {
    ActionService::new(addr(MANAGER))
}

fn base(pairs: &[(&str, &str)], amount: &str) -> DistributeBasePayload {
    DistributeBasePayload {
        receivers_with_proportions: pairs
            .iter()
            .map(|(r, p)| ReceiversWithProportions { receiver: r.to_string(), proportion: p.to_string() })
            .collect(),
        amount: amount.to_string(),
    }
}

fn collect(pairs: &[(&str, &str)], token: &str) -> CollectErc20Payload {
    CollectErc20Payload {
        sets: pairs
            .iter()
            .map(|(f, p)| FromWalletWithPercent { from: f.to_string(), scaled_percent: p.to_string() })
            .collect(),
        token_address: token.to_string(),
    }
}

#[test]
fn address_text_is_decoded() {
    let a = addr(MANAGER);
    assert_eq!(a.bytes[0], 0xab);
    assert_eq!(a.bytes[1], 0xcd);
    assert_eq!(a.bytes[19], 0x01);
    assert_eq!(addr(ADDR_A).bytes[19], 0xaa);
    assert!(parse_address("0X00000000000000000000000000000000000000aa").is_some());
}

#[test]
fn malformed_addresses_are_rejected() {
    assert!(parse_address("00000000000000000000000000000000000000aa").is_none());
    assert!(parse_address("0x0000000000000000000000000000000000000aa").is_none());
    assert!(parse_address("0x000000000000000000000000000000000000000aa").is_none());
    assert!(parse_address("0x00000000000000000000000000000000000000zz").is_none());
    assert!(parse_address("").is_none());
    assert!(matches!(address_field(&"0xabc".to_string()), Err(FlowError::MalformedInput(_))));
}

#[test]
fn amount_text_is_parsed() {
    assert_eq!(amount_field(&"1000".to_string()).ok(), Some(amt(1000)));
    assert_eq!(amount_field(&"0".to_string()).ok(), Some(amt(0)));
    assert!(matches!(amount_field(&"12a".to_string()), Err(FlowError::MalformedInput(_))));
    assert!(matches!(amount_field(&"-5".to_string()), Err(FlowError::MalformedInput(_))));
    let too_big = "1".to_string() + &"0".repeat(78);
    assert!(amount_field(&too_big).is_err());
    let max = "115792089237316195423570985008687907853269984665640564039457584007913129639935";
    assert_eq!(amount_field(&max.to_string()).ok(), Some(Amount { limbs: [u64::MAX; 4] }));
}

#[test]
fn debit_is_floor_of_scaled_share() {
    assert_eq!(resolve_debit(amt(1_000_000), amt(250_000)), wide(250_000));
    assert_eq!(resolve_debit(amt(999), amt(1_000)), wide(0));
    assert_eq!(resolve_debit(amt(1_999_999), amt(500_000)), wide(999_999));
    assert_eq!(resolve_debit(amt(150), amt(1_000_000)), wide(150));
}

#[test]
fn debit_beyond_256_bits_is_kept_whole() {
    let max = Amount { limbs: [u64::MAX; 4] };
    let d = resolve_debit(max, amt(2_000_000));
    assert_eq!(d.high, amt(1));
    assert_eq!(d.low, Amount { limbs: [u64::MAX - 1, u64::MAX, u64::MAX, u64::MAX] });
    assert!(narrow(d).is_none());
    assert!(allowance_below(max, d));
}

#[test]
fn allowance_comparison_is_numeric() {
    assert!(allowance_below(amt(100), wide(150)));
    assert!(!allowance_below(amt(150), wide(150)));
    assert!(!allowance_below(Amount { limbs: [0, 1, 0, 0] }, wide(u64::MAX)));
    assert_eq!(narrow(wide(7)), Some(amt(7)));
}

#[test]
fn native_distribution_submits_once_with_value() {
    let (mut w, a) = service()
        .distribute_native_tokens(&base(&[(ADDR_A, "50"), (ADDR_B, "50")], "1000"))
        .ok()
        .unwrap();
    assert!(matches!(a, Action::DistributeNative));
    assert_eq!(w.amount, amt(1000));
    assert_eq!(w.wallets, vec![addr(ADDR_A), addr(ADDR_B)]);
    assert_eq!(w.weights, vec![amt(50), amt(50)]);
    match w.step(Event::Submitted("0xfeed".to_string())) {
        Action::Done(Ok(resp)) => {
            assert_eq!(resp.tx_hash_distribute, Some("0xfeed".to_string()));
            assert_eq!(resp.tx_hash_approve, None);
            assert_eq!(resp.error, None);
        }
        _ => panic!("expected completion"),
    }
}

#[test]
fn malformed_distribution_fails_before_any_call() {
    let s = service();
    assert!(matches!(
        s.distribute_native_tokens(&base(&[(ADDR_A, "50")], "ten")),
        Err(FlowError::MalformedInput(_))
    ));
    assert!(matches!(
        s.distribute_native_tokens(&base(&[(ADDR_A, "x50")], "10")),
        Err(FlowError::MalformedInput(_))
    ));
    assert!(matches!(
        s.distribute_native_tokens(&base(&[("00000000000000000000000000000000000000aa", "50")], "10")),
        Err(FlowError::MalformedInput(_))
    ));
    let p = DistributeErc20Payload { base: base(&[(ADDR_A, "1")], "10"), token_address: "0x11".to_string() };
    assert!(matches!(s.distribute_erc20_tokens(&p), Err(FlowError::MalformedInput(_))));
    assert!(matches!(
        s.collect_erc20_tokens(&collect(&[(ADDR_A, "1.5")], TOKEN)),
        Err(FlowError::MalformedInput(_))
    ));
}

#[test]
fn erc20_distribution_skips_approval_when_allowance_suffices() {
    let p = DistributeErc20Payload { base: base(&[(ADDR_A, "1")], "500"), token_address: TOKEN.to_string() };
    let (mut w, a) = service().distribute_erc20_tokens(&p).ok().unwrap();
    match a {
        Action::ReadOwnAllowance { token, spender } => {
            assert_eq!(token, addr(TOKEN));
            assert_eq!(spender, addr(MANAGER));
        }
        _ => panic!("expected an allowance read"),
    }
    assert!(matches!(w.step(Event::Value(amt(500))), Action::DistributeToken));
    match w.step(Event::Submitted("0x02".to_string())) {
        Action::Done(Ok(resp)) => {
            assert_eq!(resp.tx_hash_approve, None);
            assert_eq!(resp.tx_hash_distribute, Some("0x02".to_string()));
        }
        _ => panic!("expected completion"),
    }
}

#[test]
fn erc20_distribution_approves_exact_total_when_short() {
    let p = DistributeErc20Payload { base: base(&[(ADDR_A, "1")], "500"), token_address: TOKEN.to_string() };
    let (mut w, _) = service().distribute_erc20_tokens(&p).ok().unwrap();
    match w.step(Event::Value(amt(499))) {
        Action::Approve { token, spender, amount } => {
            assert_eq!(token, addr(TOKEN));
            assert_eq!(spender, addr(MANAGER));
            assert_eq!(amount, amt(500));
        }
        _ => panic!("expected an approval"),
    }
    assert!(matches!(w.step(Event::Submitted("0x01".to_string())), Action::DistributeToken));
    match w.step(Event::Submitted("0x02".to_string())) {
        Action::Done(Ok(resp)) => {
            assert_eq!(resp.tx_hash_approve, Some("0x01".to_string()));
            assert_eq!(resp.tx_hash_distribute, Some("0x02".to_string()));
        }
        _ => panic!("expected completion"),
    }
}

#[test]
fn failed_approval_stops_distribution() {
    let p = DistributeErc20Payload { base: base(&[(ADDR_A, "1")], "500"), token_address: TOKEN.to_string() };
    let (mut w, _) = service().distribute_erc20_tokens(&p).ok().unwrap();
    w.step(Event::Value(amt(0)));
    match w.step(Event::Failure("reverted".to_string())) {
        Action::Done(Err(FlowError::RemoteCallFailure(m))) => assert_eq!(m, "reverted"),
        _ => panic!("expected a remote failure"),
    }
    assert!(matches!(w.step(Event::Submitted("0x09".to_string())), Action::Done(Err(_))));
}

#[test]
fn collection_refuses_when_one_wallet_is_short() {
    let (mut w, a) = service()
        .collect_erc20_tokens(&collect(&[(ADDR_A, "1000000"), (ADDR_B, "1000000")], TOKEN))
        .ok()
        .unwrap();
    match a {
        Action::ReadBalance { token, owner } => {
            assert_eq!(token, addr(TOKEN));
            assert_eq!(owner, addr(ADDR_A));
        }
        _ => panic!("expected a balance read"),
    }
    assert!(matches!(w.step(Event::Value(amt(150))), Action::ReadBalance { .. }));
    match w.step(Event::Value(amt(100))) {
        Action::ReadAllowance { owner, spender, .. } => {
            assert_eq!(owner, addr(ADDR_A));
            assert_eq!(spender, addr(MANAGER));
        }
        _ => panic!("expected an allowance read"),
    }
    match w.step(Event::Value(amt(100))) {
        Action::Done(Err(FlowError::InsufficientAllowance { wallet, needed, has })) => {
            assert_eq!(wallet, addr(ADDR_A));
            assert_eq!(needed, wide(150));
            assert_eq!(has, amt(100));
            assert_eq!(needed.low.limbs[0] - has.limbs[0], 50);
        }
        _ => panic!("expected an insufficient allowance"),
    }
    assert!(matches!(w.phase, Phase::Failed(_)));
    assert!(matches!(w.step(Event::Value(amt(1_000))), Action::Done(Err(_))));
}

#[test]
fn collection_refuses_when_last_wallet_is_short() {
    let (mut w, _) = service()
        .collect_erc20_tokens(&collect(&[(ADDR_A, "250000"), (ADDR_B, "500000")], TOKEN))
        .ok()
        .unwrap();
    w.step(Event::Value(amt(1_000_000)));
    w.step(Event::Value(amt(1_000)));
    match w.step(Event::Value(amt(250_000))) {
        Action::ReadAllowance { owner, .. } => assert_eq!(owner, addr(ADDR_B)),
        _ => panic!("expected an allowance read"),
    }
    match w.step(Event::Value(amt(499))) {
        Action::Done(Err(FlowError::InsufficientAllowance { wallet, needed, has })) => {
            assert_eq!(wallet, addr(ADDR_B));
            assert_eq!(needed, wide(500));
            assert_eq!(has, amt(499));
        }
        _ => panic!("expected an insufficient allowance"),
    }
}

#[test]
fn collection_submits_after_all_allowances_suffice() {
    let (mut w, _) = service()
        .collect_erc20_tokens(&collect(&[(ADDR_A, "250000"), (ADDR_B, "500000")], TOKEN))
        .ok()
        .unwrap();
    w.step(Event::Value(amt(1_000_000)));
    w.step(Event::Value(amt(1_000)));
    assert_eq!(w.debits, vec![wide(250_000), wide(500)]);
    w.step(Event::Value(amt(250_000)));
    assert!(matches!(w.step(Event::Value(amt(500))), Action::CollectToken));
    assert_eq!(w.weights, vec![amt(250_000), amt(500_000)]);
    match w.step(Event::Submitted("0x03".to_string())) {
        Action::Done(Ok(resp)) => {
            assert_eq!(resp.tx_hash_approve, None);
            assert_eq!(resp.tx_hash_distribute, Some("0x03".to_string()));
        }
        _ => panic!("expected completion"),
    }
}

#[test]
fn empty_collection_goes_straight_to_transfer() {
    let (w, a) = service().collect_erc20_tokens(&collect(&[], TOKEN)).ok().unwrap();
    assert!(matches!(a, Action::CollectToken));
    assert!(matches!(w.phase, Phase::Executing));
}

#[test]
fn balance_read_failure_is_reported() {
    let (mut w, _) = service().collect_erc20_tokens(&collect(&[(ADDR_A, "1")], TOKEN)).ok().unwrap();
    match w.step(Event::Failure("node down".to_string())) {
        Action::Done(Err(FlowError::RemoteCallFailure(m))) => assert_eq!(m, "node down"),
        _ => panic!("expected a remote failure"),
    }
}

#[test]
fn unexpected_event_is_ignored() {
    let (mut w, _) = service().collect_erc20_tokens(&collect(&[(ADDR_A, "1")], TOKEN)).ok().unwrap();
    assert!(matches!(w.step(Event::Submitted("0x05".to_string())), Action::ReadBalance { .. }));
    assert!(w.debits.is_empty());
}
