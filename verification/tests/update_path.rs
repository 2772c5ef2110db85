use std_reference_basic::{Error, Event, Pallet};

fn owner() -> Vec<u8> {
    vec![0x0a]
}

fn relayer() -> Vec<u8> {
    vec![0x0b, 0x0b]
}

fn oracle_with_relayer() -> Pallet {
    let mut oracle = Pallet::new(Some(owner()));
    assert_eq!(
        oracle.set_relayer(owner(), relayer(), true),
        Ok(Event::SetRelayer(relayer(), true))
    );
    oracle
}

#[test]
fn relay_writes_the_entry_and_reports_it() {
    let mut oracle = oracle_with_relayer();
    let events = oracle.relay(relayer(), vec![(b"BTC".to_vec(), 50_000_000_000_000, 1000, 1)]);
    assert_eq!(
        events,
        Ok(vec![Event::RefDataUpdate(b"BTC".to_vec(), 50_000_000_000_000, 1000, 1)])
    );
    assert_eq!(oracle.get_refs(b"BTC".to_vec()), Some((50_000_000_000_000, 1000, 1)));
}

#[test]
fn relay_by_unknown_account_is_relayer_not_set() {
    let mut oracle = oracle_with_relayer();
    assert_eq!(
        oracle.relay(vec![0x0c], vec![(b"BTC".to_vec(), 7, 8, 9)]),
        Err(Error::RelayerNotSet)
    );
    assert_eq!(oracle.get_refs(b"BTC".to_vec()), None);
}

#[test]
fn relay_by_revoked_account_is_not_a_relayer() {
    let mut oracle = oracle_with_relayer();
    assert!(oracle.relay(relayer(), vec![(b"BTC".to_vec(), 11, 12, 13)]).is_ok());
    assert_eq!(
        oracle.set_relayer(owner(), relayer(), false),
        Ok(Event::SetRelayer(relayer(), false))
    );
    assert_eq!(
        oracle.relay(relayer(), vec![(b"BTC".to_vec(), 21, 22, 23), (b"ETH".to_vec(), 1, 1, 1)]),
        Err(Error::NotARelayer)
    );
    assert_eq!(oracle.get_refs(b"BTC".to_vec()), Some((11, 12, 13)));
    assert_eq!(oracle.get_refs(b"ETH".to_vec()), None);
    assert_eq!(oracle.owner, Some(owner()));
    assert_eq!(oracle.authorize_relayer(&relayer()), Ok(false));
}

#[test]
fn relay_reinstated_after_revocation() {
    let mut oracle = oracle_with_relayer();
    assert!(oracle.set_relayer(owner(), relayer(), false).is_ok());
    assert!(oracle.set_relayer(owner(), relayer(), true).is_ok());
    assert!(oracle.relay(relayer(), vec![(b"ETH".to_vec(), 5, 6, 7)]).is_ok());
    assert_eq!(oracle.get_refs(b"ETH".to_vec()), Some((5, 6, 7)));
}

#[test]
fn relay_of_an_empty_batch_changes_nothing() {
    let mut oracle = oracle_with_relayer();
    assert_eq!(oracle.relay(relayer(), vec![]), Ok(vec![]));
    assert_eq!(oracle.get_refs(b"BTC".to_vec()), None);
}

#[test]
fn relay_of_an_empty_batch_still_checks_the_caller() {
    let mut oracle = oracle_with_relayer();
    assert_eq!(oracle.relay(owner(), vec![]), Err(Error::RelayerNotSet));
}

#[test]
fn later_item_for_a_repeated_symbol_wins() {
    let mut oracle = oracle_with_relayer();
    let batch = vec![
        (b"BTC".to_vec(), 1, 10, 100),
        (b"ETH".to_vec(), 2, 20, 200),
        (b"BTC".to_vec(), 3, 30, 300),
        (b"BAND".to_vec(), 4, 40, 400),
        (b"ETH".to_vec(), 5, 50, 500),
    ];
    let events = oracle.relay(relayer(), batch);
    assert_eq!(
        events,
        Ok(vec![
            Event::RefDataUpdate(b"BTC".to_vec(), 1, 10, 100),
            Event::RefDataUpdate(b"ETH".to_vec(), 2, 20, 200),
            Event::RefDataUpdate(b"BTC".to_vec(), 3, 30, 300),
            Event::RefDataUpdate(b"BAND".to_vec(), 4, 40, 400),
            Event::RefDataUpdate(b"ETH".to_vec(), 5, 50, 500),
        ])
    );
    assert_eq!(oracle.get_refs(b"BTC".to_vec()), Some((3, 30, 300)));
    assert_eq!(oracle.get_refs(b"ETH".to_vec()), Some((5, 50, 500)));
    assert_eq!(oracle.get_refs(b"BAND".to_vec()), Some((4, 40, 400)));
    assert_eq!(oracle.get_refs(b"DOT".to_vec()), None);
}

#[test]
fn a_second_relay_overwrites_and_keeps_the_rest() {
    let mut oracle = oracle_with_relayer();
    assert!(oracle
        .relay(relayer(), vec![(b"BTC".to_vec(), 1, 10, 100), (b"ETH".to_vec(), 2, 20, 200)])
        .is_ok());
    assert!(oracle.relay(relayer(), vec![(b"BTC".to_vec(), 9, 90, 900)]).is_ok());
    assert_eq!(oracle.get_refs(b"BTC".to_vec()), Some((9, 90, 900)));
    assert_eq!(oracle.get_refs(b"ETH".to_vec()), Some((2, 20, 200)));
}

#[test]
fn relay_accepts_any_numbers() {
    let mut oracle = oracle_with_relayer();
    assert!(oracle
        .relay(
            relayer(),
            vec![(b"ZERO".to_vec(), 0, 0, 0), (b"MAX".to_vec(), u64::MAX, u64::MAX, u64::MAX)]
        )
        .is_ok());
    assert_eq!(oracle.get_refs(b"ZERO".to_vec()), Some((0, 0, 0)));
    assert_eq!(oracle.get_refs(b"MAX".to_vec()), Some((u64::MAX, u64::MAX, u64::MAX)));
}

#[test]
fn symbols_are_case_significant_and_may_be_any_bytes() {
    let mut oracle = oracle_with_relayer();
    assert!(oracle
        .relay(
            relayer(),
            vec![
                (b"btc".to_vec(), 1, 1, 1),
                (b"BTC".to_vec(), 2, 2, 2),
                (vec![], 3, 3, 3),
                (vec![0xff, 0xfe, 0x00], 4, 4, 4),
            ]
        )
        .is_ok());
    assert_eq!(oracle.get_refs(b"btc".to_vec()), Some((1, 1, 1)));
    assert_eq!(oracle.get_refs(b"BTC".to_vec()), Some((2, 2, 2)));
    assert_eq!(oracle.get_refs(vec![]), Some((3, 3, 3)));
    assert_eq!(oracle.get_refs(vec![0xff, 0xfe, 0x00]), Some((4, 4, 4)));
    assert_eq!(oracle.get_refs(b"Btc".to_vec()), None);
    assert_eq!(oracle.get_refs(b"BT".to_vec()), None);
}

#[test]
fn a_relayed_usd_entry_is_stored_but_not_resolved() {
    let mut oracle = oracle_with_relayer();
    assert!(oracle.relay(relayer(), vec![(b"USD".to_vec(), 77, 88, 99)]).is_ok());
    assert_eq!(oracle.get_refs(b"USD".to_vec()), Some((77, 88, 99)));
    assert_eq!(oracle.get_ref_data(b"USD".to_vec(), Some(5)), Some((1_000_000_000, 5)));
}
