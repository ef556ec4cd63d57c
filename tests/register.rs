use gbcore::register::{join, split, Register};

#[test]
fn new_register_file_is_zero() {
    let r = Register::new();
    assert_eq!(
        (r.a, r.b, r.c, r.d, r.e, r.f, r.h, r.l, r.pc, r.sp),
        (0, 0, 0, 0, 0, 0, 0, 0, 0, 0)
    );
}

#[test]
fn pairs_compose_high_and_low_bytes() {
    let mut r = Register::new();
    r.b = 0x12;
    r.c = 0x34;
    r.d = 0xAB;
    r.e = 0xCD;
    r.h = 0xFF;
    r.l = 0x01;
    assert_eq!(r.get_bc(), 0x1234);
    assert_eq!(r.get_de(), 0xABCD);
    assert_eq!(r.get_hl(), 0xFF01);
}

#[test]
fn set_bc_splits_value() {
    let mut r = Register::new();
    r.set_bc(0xBEEF);
    assert_eq!((r.b, r.c), (0xBE, 0xEF));
    assert_eq!(r.get_bc(), 0xBEEF);
    assert_eq!((r.d, r.e, r.h, r.l), (0, 0, 0, 0));
}

#[test]
fn set_de_splits_value() {
    let mut r = Register::new();
    r.set_de(0x0102);
    assert_eq!((r.d, r.e), (0x01, 0x02));
    assert_eq!(r.get_de(), 0x0102);
}

#[test]
fn set_hl_splits_value() {
    let mut r = Register::new();
    r.set_hl(0x7FFF);
    assert_eq!((r.h, r.l), (0x7F, 0xFF));
    assert_eq!(r.get_hl(), 0x7FFF);
}

#[test]
fn pair_round_trip_on_edge_values() {
    for v in [0x0000u16, 0x00FF, 0xFF00, 0xFFFF, 0x8001] {
        let mut r = Register::new();
        r.set_bc(v);
        r.set_de(v);
        r.set_hl(v);
        assert_eq!(r.get_bc(), v);
        assert_eq!(r.get_de(), v);
        assert_eq!(r.get_hl(), v);
    }
}

#[test]
fn join_and_split_are_inverse() {
    assert_eq!(join(0x12, 0x34), 0x1234);
    assert_eq!(split(0x1234), (0x12, 0x34));
    assert_eq!(split(join(0xFF, 0x00)), (0xFF, 0x00));
}
