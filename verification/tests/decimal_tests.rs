//! Tests of the verified decimal renderer.

use erlvm::decimal::dec_str;

#[test]
fn dec_str_exact_values() {
    assert_eq!(dec_str(0), "0");
    assert_eq!(dec_str(9), "9");
    assert_eq!(dec_str(10), "10");
    assert_eq!(dec_str(12345), "12345");
    assert_eq!(dec_str(u64::MAX), "18446744073709551615");
}
