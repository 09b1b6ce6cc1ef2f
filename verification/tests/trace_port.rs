use thr_core::swo::{Port, TraceBus};

#[test]
fn port_addresses_are_word_spaced_from_the_base() {
    let bus = &mut TraceBus::new();
    Port::new(0).write(bus, 0u8);
    Port::new(1).write(bus, 0u8);
    Port::new(31).write(bus, 0u8);
    assert_eq!(bus.writes[0].address, 0xE000_0000);
    assert_eq!(bus.writes[1].address, 0xE000_0004);
    assert_eq!(bus.writes[2].address, 0xE000_007C);
}

#[test]
fn byte_write_is_one_atomic_write() {
    let mut bus = TraceBus::new();
    Port::new(3).write(&mut bus, 0xABu8);
    assert_eq!(bus.len(), 1);
    assert_eq!(bus.writes[0].address, 0xE000_000C);
    assert_eq!(bus.writes[0].bytes, vec![0xAB]);
}

#[test]
fn half_word_write_is_big_endian_and_unsplit() {
    let mut bus = TraceBus::new();
    Port::new(0).write(&mut bus, 0x1234u16);
    assert_eq!(bus.len(), 1);
    assert_eq!(bus.writes[0].bytes, vec![0x12, 0x34]);
}

#[test]
fn word_write_is_big_endian_and_unsplit() {
    let mut bus = TraceBus::new();
    Port::new(0).write(&mut bus, 0xDEAD_BEEFu32);
    assert_eq!(bus.len(), 1);
    assert_eq!(bus.writes[0].bytes, vec![0xDE, 0xAD, 0xBE, 0xEF]);
}

#[test]
fn short_byte_runs_go_out_one_byte_at_a_time() {
    let mut bus = TraceBus::new();
    Port::new(0).write_bytes(&mut bus, &[0x0A, 0x0B]);
    assert_eq!(bus.len(), 2);
    assert_eq!(bus.write_at(0).bytes, vec![0x0A]);
    assert_eq!(bus.write_at(1).bytes, vec![0x0B]);
}

#[test]
fn long_byte_runs_group_whole_words_then_leftovers() {
    let mut bus = TraceBus::new();
    Port::new(0).write_bytes(&mut bus, &[1, 2, 3, 4, 5, 6, 7]);
    assert_eq!(bus.len(), 4);
    assert_eq!(bus.write_at(0).bytes, vec![1, 2, 3, 4]);
    assert_eq!(bus.write_at(1).bytes, vec![5]);
    assert_eq!(bus.write_at(2).bytes, vec![6]);
    assert_eq!(bus.write_at(3).bytes, vec![7]);
}

#[test]
fn exact_word_runs_leave_no_leftovers() {
    let mut bus = TraceBus::new();
    Port::new(0).write_bytes(&mut bus, &[1, 2, 3, 4, 5, 6, 7, 8]);
    assert_eq!(bus.len(), 2);
    assert_eq!(bus.write_at(0).bytes, vec![1, 2, 3, 4]);
    assert_eq!(bus.write_at(1).bytes, vec![5, 6, 7, 8]);
}

#[test]
fn empty_byte_run_writes_nothing() {
    let mut bus = TraceBus::new();
    Port::new(0).write_bytes(&mut bus, &[]);
    assert_eq!(bus.len(), 0);
}

#[test]
fn writes_keep_their_order_and_earlier_writes_unchanged() {
    let mut bus = TraceBus::new();
    let port = Port::new(2);
    let port = port.write(&mut bus, 0x01u8);
    let port = port.write(&mut bus, 0x0203u16);
    port.write(&mut bus, 0x0405_0607u32);
    assert_eq!(bus.len(), 3);
    assert_eq!(bus.write_at(0).bytes, vec![0x01]);
    assert_eq!(bus.write_at(1).bytes, vec![0x02, 0x03]);
    assert_eq!(bus.write_at(2).bytes, vec![0x04, 0x05, 0x06, 0x07]);
}
