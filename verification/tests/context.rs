use rpdo::context::{Basic, RpdoContext};
use rpdo::Error;

#[test]
fn new_context_is_zeroed() {
    let ctx = Basic::new(3, 4, false);
    for register in 0..3 {
        assert_eq!(ctx.get_bytes(register, 0, 0).unwrap(), vec![0, 0, 0, 0]);
    }
}

#[test]
fn set_then_get_returns_written_bytes() {
    let mut ctx = Basic::new(2, 8, false);
    ctx.set_bytes(1, 2, &[9, 8, 7]).unwrap();
    assert_eq!(ctx.get_bytes(1, 2, 3).unwrap(), vec![9, 8, 7]);
    // The rest of the register is untouched.
    assert_eq!(ctx.get_bytes(1, 0, 0).unwrap(), vec![0, 0, 9, 8, 7, 0, 0, 0]);
}

#[test]
fn invalid_register_is_always_fatal() {
    let mut ctx = Basic::new(2, 4, true);
    match ctx.set_bytes(2, 0, &[1]) {
        Err(Error::InvalidRegister) => {}
        other => panic!("expected InvalidRegister, got {:?}", other),
    }
    match ctx.get_bytes(7, 0, 1) {
        Err(Error::InvalidRegister) => {}
        other => panic!("expected InvalidRegister, got {:?}", other),
    }
}

#[test]
fn flexible_write_grows_register() {
    let mut ctx = Basic::new(1, 2, true);
    ctx.set_bytes(0, 4, &[5, 6]).unwrap();
    // Grown to offset + len = 6 bytes, zero padded in between.
    assert_eq!(ctx.get_bytes(0, 0, 0).unwrap(), vec![0, 0, 0, 0, 5, 6]);
}

#[test]
fn strict_write_past_end_fails() {
    let mut ctx = Basic::new(1, 4, false);
    match ctx.set_bytes(0, 3, &[1, 2]) {
        Err(Error::InvalidOffset) => {}
        other => panic!("expected InvalidOffset, got {:?}", other),
    }
    // The register is unchanged.
    assert_eq!(ctx.get_bytes(0, 0, 0).unwrap(), vec![0, 0, 0, 0]);
}

#[test]
fn strict_read_past_end_fails() {
    let ctx = Basic::new(1, 4, false);
    match ctx.get_bytes(0, 2, 3) {
        Err(Error::InvalidOffset) => {}
        other => panic!("expected InvalidOffset, got {:?}", other),
    }
    match ctx.get_bytes(0, 5, 1) {
        Err(Error::InvalidOffset) => {}
        other => panic!("expected InvalidOffset, got {:?}", other),
    }
}

#[test]
fn flexible_read_is_zero_padded() {
    let mut ctx = Basic::new(1, 4, true);
    ctx.set_bytes(0, 0, &[1, 2, 3, 4]).unwrap();
    // Read runs past the end: truncate then zero-pad to the requested size.
    assert_eq!(ctx.get_bytes(0, 2, 4).unwrap(), vec![3, 4, 0, 0]);
    // Read entirely past the end: all zeroes.
    assert_eq!(ctx.get_bytes(0, 8, 3).unwrap(), vec![0, 0, 0]);
}

#[test]
fn zero_size_reads_to_end() {
    let mut ctx = Basic::new(1, 6, false);
    ctx.set_bytes(0, 0, &[1, 2, 3, 4, 5, 6]).unwrap();
    assert_eq!(ctx.get_bytes(0, 4, 0).unwrap(), vec![5, 6]);
    assert_eq!(ctx.get_bytes(0, 6, 0).unwrap(), Vec::<u8>::new());
}

#[test]
fn overwrite_in_place() {
    let mut ctx = Basic::new(1, 4, false);
    ctx.set_bytes(0, 0, &[1, 2, 3, 4]).unwrap();
    ctx.set_bytes(0, 1, &[9, 9]).unwrap();
    assert_eq!(ctx.get_bytes(0, 0, 4).unwrap(), vec![1, 9, 9, 4]);
}
