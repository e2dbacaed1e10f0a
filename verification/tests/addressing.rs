use obd_bridge::ids::CanId;
use obd_bridge::ids::ECUAddresses;

fn rx_address(id: CanId) -> Option<CanId> {
    ECUAddresses::rx_address(id)
}

fn tx_address(id: CanId) -> Option<CanId> {
    ECUAddresses::tx_address(id)
}

fn address_offset(id: CanId, delta: i32) -> Option<CanId> {
    ECUAddresses::address_offset(id, delta)
}

#[test]
fn rx_address_adds_eight() {
    assert_eq!(rx_address(CanId::Standard(0x7E4)), Some(CanId::Standard(0x7EC)));
    assert_eq!(rx_address(CanId::Standard(0x7A0)), Some(CanId::Standard(0x7A8)));
    assert_eq!(rx_address(CanId::Extended(0x18DA10F1)), Some(CanId::Extended(0x18DA10F9)));
}

#[test]
fn tx_address_subtracts_eight() {
    assert_eq!(tx_address(CanId::Standard(0x7EC)), Some(CanId::Standard(0x7E4)));
    assert_eq!(tx_address(CanId::Standard(0x7BB)), Some(CanId::Standard(0x7B3)));
}

#[test]
fn addresses_round_trip() {
    for raw in [0u16, 1, 0x700, 0x7E4, 0x7F7] {
        let rx = rx_address(CanId::Standard(raw)).unwrap();
        assert_eq!(tx_address(rx), Some(CanId::Standard(raw)));
    }
    for raw in [8u16, 0x7EC, 0x7FF] {
        let tx = tx_address(CanId::Standard(raw)).unwrap();
        assert_eq!(rx_address(tx), Some(CanId::Standard(raw)));
    }
}

#[test]
fn addresses_out_of_range() {
    assert_eq!(rx_address(CanId::Standard(0x7F8)), None);
    assert_eq!(rx_address(CanId::Standard(0x7FF)), None);
    assert_eq!(tx_address(CanId::Standard(7)), None);
    assert_eq!(rx_address(CanId::Extended(0x1FFF_FFFF)), None);
}

#[test]
fn address_offset_keeps_kind() {
    assert_eq!(address_offset(CanId::Standard(0x100), 0x20), Some(CanId::Standard(0x120)));
    assert_eq!(address_offset(CanId::Extended(0x100), -0x20), Some(CanId::Extended(0xE0)));
    assert_eq!(address_offset(CanId::Standard(0x10), -0x20), None);
}

#[test]
fn ecu_address_table() {
    let (tx, rx) = ECUAddresses::new();
    assert_eq!(tx.bms, CanId::Standard(0x7E4));
    assert_eq!(tx.tpms, CanId::Standard(0x7A0));
    assert_eq!(tx.hvac, CanId::Standard(0x7B3));
    assert_eq!(rx.bms, CanId::Standard(0x7EC));
    assert_eq!(rx.tpms, CanId::Standard(0x7A8));
    assert_eq!(rx.hvac, CanId::Standard(0x7BB));
}
