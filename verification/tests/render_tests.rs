use fontdump::render::{render_dec, render_hex};

#[test]
fn decimal_rendering() {
    assert_eq!(render_dec(0), "0");
    assert_eq!(render_dec(7), "7");
    assert_eq!(render_dec(12345), "12345");
    assert_eq!(render_dec(u64::MAX), "18446744073709551615");
}

#[test]
fn hex_rendering_fixed_width() {
    assert_eq!(render_hex(0xDEADBEEF, 8), "deadbeef");
    assert_eq!(render_hex(0, 8), "00000000");
    assert_eq!(render_hex(0x1_0000, 8), "00010000");
    assert_eq!(render_hex(0x41, 6), "000041");
}
