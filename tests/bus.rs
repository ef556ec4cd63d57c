use gbcore::bus::{Bus, MEMORY_SIZE};

#[test]
fn new_bus_is_zeroed_and_full_size() {
    let bus = Bus::new();
    assert_eq!(bus.memory.len(), MEMORY_SIZE);
    assert!(bus.memory.iter().all(|&b| b == 0));
}

#[test]
fn write_then_read_returns_value() {
    let mut bus = Bus::new();
    bus.write(0x1234, 0xAB);
    assert_eq!(bus.read(0x1234), 0xAB);
    assert_eq!(bus.read(0x1233), 0x00);
    assert_eq!(bus.read(0x1235), 0x00);
}

#[test]
fn last_address_is_reachable() {
    let mut bus = Bus::new();
    bus.write(0xFFFF, 0x42);
    assert_eq!(bus.read(0xFFFF), 0x42);
}

#[test]
fn load_copies_image_at_base() {
    let mut bus = Bus::new();
    bus.write(0x0FF, 0x77);
    bus.write(0x104, 0x99);
    bus.load(0x100, &[1, 2, 3, 4]);
    assert_eq!(bus.read(0x0FF), 0x77);
    assert_eq!(bus.read(0x100), 1);
    assert_eq!(bus.read(0x101), 2);
    assert_eq!(bus.read(0x102), 3);
    assert_eq!(bus.read(0x103), 4);
    assert_eq!(bus.read(0x104), 0x99);
}

#[test]
fn load_can_fill_up_to_the_last_byte() {
    let mut bus = Bus::new();
    bus.load(0xFFFE, &[0xAA, 0xBB]);
    assert_eq!(bus.read(0xFFFE), 0xAA);
    assert_eq!(bus.read(0xFFFF), 0xBB);
}
