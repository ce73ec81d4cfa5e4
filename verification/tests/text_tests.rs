use metropolis::text::{diagnostics_text, padded_number};

#[test]
fn decimal_padding() {
    assert_eq!(padded_number(42, 10, 8), "00000042");
    assert_eq!(padded_number(0, 10, 3), "000");
    assert_eq!(padded_number(0, 10, 0), "0");
    assert_eq!(padded_number(123456789, 10, 3), "123456789");
    assert_eq!(padded_number(u64::MAX, 10, 0), "18446744073709551615");
}

#[test]
fn hexadecimal_padding() {
    assert_eq!(padded_number(255, 16, 16), "00000000000000FF");
    assert_eq!(padded_number(0xDEADBEEF, 16, 4), "DEADBEEF");
    assert_eq!(padded_number(u64::MAX, 16, 16), "FFFFFFFFFFFFFFFF");
}

#[test]
fn padding_matches_std_formatting() {
    for n in [0u64, 7, 10, 99, 1000, 65535, 1 << 40] {
        assert_eq!(padded_number(n, 10, 8), format!("{:08}", n));
        assert_eq!(padded_number(n, 16, 16), format!("{:016X}", n));
    }
}

#[test]
fn diagnostics_lines() {
    let d = diagnostics_text(1234, 5, 0xABC, 42);
    assert_eq!(d.frame_line, "FRM:  00001234");
    assert_eq!(d.cooldown_line, "CSH:  0005");
    assert_eq!(d.seed_line, "SEED: 0000000000000ABC");
    assert_eq!(d.vehicles_line, "VHC:  042");
}
