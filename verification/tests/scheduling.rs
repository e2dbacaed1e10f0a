use obd_bridge::ids::CanId;
use obd_bridge::ids::ECUAddresses;
use obd_bridge::sched::QuerySchedule;

#[test]
fn round_queries_every_ecu_in_order() {
    let (tx, _rx) = ECUAddresses::new();
    let mut sched = QuerySchedule::standard_queries(&tx);
    assert_eq!(sched.round_len(), 3);
    let (dest, query) = sched.next_query();
    assert_eq!(dest, CanId::Standard(0x7E4));
    assert_eq!(query, [0x03, 0x22, 0x01, 0x01, 0, 0, 0, 0]);
    let (dest, query) = sched.next_query();
    assert_eq!(dest, CanId::Standard(0x7A0));
    assert_eq!(query, [0x03, 0x22, 0xC0, 0x0B, 0, 0, 0, 0]);
    let (dest, query) = sched.next_query();
    assert_eq!(dest, CanId::Standard(0x7B3));
    assert_eq!(query, [0x03, 0x22, 0x01, 0x00, 0, 0, 0, 0]);
}

#[test]
fn schedule_wraps_around() {
    let (tx, _rx) = ECUAddresses::new();
    let mut sched = QuerySchedule::standard_queries(&tx);
    let first = sched.next_query();
    let _ = sched.next_query();
    let _ = sched.next_query();
    // The round is over; the next query starts it again, unchanged.
    let again = sched.next_query();
    assert_eq!(first, again);
}

#[test]
fn queries_are_rebuilt_identically_every_round() {
    let (tx, _rx) = ECUAddresses::new();
    let mut a = QuerySchedule::standard_queries(&tx);
    let mut b = QuerySchedule::standard_queries(&tx);
    for _ in 0..7 {
        assert_eq!(a.next_query(), b.next_query());
    }
}
