use chain_events::bus::{EventBus, RecvOutcome, BUS_CAPACITY};
use chain_events::events::{Event, NewBlock, NewPendingTx};
use chain_events::producers::{
    header_fee_check, process_block_header, publish_block_events, BlockHeader, TxResolver,
    MAX_IN_FLIGHT,
};
use chain_events::uint256::Uint256;

fn u(x: u64) -> Uint256 {
    Uint256::from_u64(x)
}

fn block_event(n: u64) -> Event {
    Event::Block(NewBlock { block_number: n, base_fee: u(7), next_base_fee: u(7) })
}

fn header(n: u64) -> BlockHeader {
    BlockHeader {
        number: Some(n),
        gas_used: u(15_000_000),
        gas_limit: u(30_000_000),
        base_fee_per_gas: Some(u(1_000)),
    }
}

#[test]
fn no_subscriber_means_no_delivery() {
    // A message sent while nobody is subscribed is not replayed to a
    // receiver that joins afterward.
    let mut bus = EventBus::new();
    bus.send(block_event(1));
    let mut rx = bus.subscribe();
    assert!(matches!(rx.recv(&bus), RecvOutcome::Empty));
}

#[test]
fn per_receiver_cursor_and_order() {
    let mut bus = EventBus::new();
    let mut rx1 = bus.subscribe();
    let mut rx2 = bus.subscribe();
    bus.send(block_event(10));
    bus.send(block_event(11));
    for rx in [&mut rx1, &mut rx2] {
        match rx.recv(&bus) {
            RecvOutcome::Received(Event::Block(b)) => assert_eq!(b.block_number, 10),
            _ => panic!("expected the first block event"),
        }
        match rx.recv(&bus) {
            RecvOutcome::Received(Event::Block(b)) => assert_eq!(b.block_number, 11),
            _ => panic!("expected the second block event"),
        }
        assert!(matches!(rx.recv(&bus), RecvOutcome::Empty));
    }
}

#[test]
fn lagged_receiver_loses_oldest_messages() {
    // A receiver left more than BUS_CAPACITY sends behind is told how much
    // it lost, and the next message it gets is not the oldest ever sent.
    let mut bus = EventBus::new();
    let mut rx = bus.subscribe();
    let total: u64 = 600;
    for n in 0..total {
        bus.send(block_event(n));
    }
    match rx.recv(&bus) {
        RecvOutcome::Lagged(skipped) => assert_eq!(skipped, total - BUS_CAPACITY as u64),
        _ => panic!("expected a lag notice"),
    }
    match rx.recv(&bus) {
        RecvOutcome::Received(Event::Block(b)) => {
            assert_eq!(b.block_number, total - BUS_CAPACITY as u64);
            assert_ne!(b.block_number, 0);
        }
        _ => panic!("expected the oldest retained block event"),
    }
}

#[test]
fn header_without_number_is_skipped() {
    let mut bus = EventBus::new();
    let mut rx = bus.subscribe();
    let mut h = header(5);
    h.number = None;
    let published = process_block_header(&h, &mut bus);
    assert!(published.is_none());
    assert!(matches!(rx.recv(&bus), RecvOutcome::Empty));
}

#[test]
fn missing_base_fee_defaults_to_zero() {
    let mut bus = EventBus::new();
    let mut rx = bus.subscribe();
    let mut h = header(5);
    h.base_fee_per_gas = None;
    let published = process_block_header(&h, &mut bus).unwrap();
    assert_eq!(published.base_fee.try_as_u64(), Some(0));
    // Zero base fee keeps the prediction at the perturbation alone.
    assert!(published.next_base_fee.try_as_u64().unwrap() <= 8);
    match rx.recv(&bus) {
        RecvOutcome::Received(Event::Block(b)) => assert_eq!(b.block_number, 5),
        _ => panic!("expected the published block event"),
    }
}

#[test]
fn block_events_arrive_in_block_number_order() {
    let mut bus = EventBus::new();
    let mut rx = bus.subscribe();
    let mut headers = vec![header(1), header(2), header(2)];
    headers.push(BlockHeader { number: None, ..header(0) });
    headers.push(header(5));
    let count = publish_block_events(&headers, &mut bus);
    assert_eq!(count, 4);
    let mut got: Vec<u64> = Vec::new();
    loop {
        match rx.recv(&bus) {
            RecvOutcome::Received(Event::Block(b)) => got.push(b.block_number),
            RecvOutcome::Empty => break,
            _ => panic!("expected only block events"),
        }
    }
    // exactly the numbered headers' numbers, in arrival order
    assert_eq!(got, vec![1, 2, 2, 5]);
}

#[test]
fn header_fee_check_decides_overflow() {
    assert!(header_fee_check(&header(1)));
    let mut h = header(1);
    h.base_fee_per_gas = None;
    assert!(header_fee_check(&h));
    // the largest representable base fee on an overfull block overflows the
    // scaled intermediate, which the check refuses
    let top = Uint256 { w0: u64::MAX, w1: u64::MAX, w2: u64::MAX, w3: u64::MAX };
    let over = BlockHeader {
        number: Some(1),
        gas_used: u(4),
        gas_limit: u(4),
        base_fee_per_gas: Some(top),
    };
    assert!(!header_fee_check(&over));
}

#[test]
fn resolver_bounds_in_flight_requests() {
    let mut resolver = TxResolver::new();
    for _ in 0..MAX_IN_FLIGHT {
        assert!(resolver.try_begin_resolution());
    }
    assert!(!resolver.try_begin_resolution());
    let mut bus = EventBus::new();
    let published = resolver.finish_resolution(None, &mut bus);
    assert!(!published);
    assert!(resolver.try_begin_resolution());
    assert!(!resolver.try_begin_resolution());
}

#[test]
fn resolved_transaction_is_published_intact() {
    let mut bus = EventBus::new();
    let mut rx = bus.subscribe();
    let mut resolver = TxResolver::new();
    assert!(resolver.try_begin_resolution());
    let mut tx = ethers_core::types::Transaction::default();
    tx.nonce = ethers_core::types::U256::from(7u64);
    tx.gas = ethers_core::types::U256::from(21_000u64);
    let published = resolver.finish_resolution(Some(tx.clone()), &mut bus);
    assert!(published);
    match rx.recv(&bus) {
        RecvOutcome::Received(Event::PendingTx(p)) => {
            assert_eq!(p.added_block, None);
            assert_eq!(p.tx, tx);
        }
        _ => panic!("expected the pending transaction event"),
    }
}

#[test]
fn pending_tx_defaults_to_unincluded() {
    let p = NewPendingTx::default();
    assert_eq!(p.added_block, None);
    let q = p.clone();
    assert_eq!(q.added_block, None);
    assert_eq!(q.tx, p.tx);
}

#[test]
fn default_block_is_zeroed() {
    let b = NewBlock::default();
    assert_eq!(b.block_number, 0);
    assert_eq!(b.base_fee.try_as_u64(), Some(0));
    assert_eq!(b.next_base_fee.try_as_u64(), Some(0));
}
