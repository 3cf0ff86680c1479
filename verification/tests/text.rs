use vipc::text::{from_literal, push_decimal};

#[test]
fn decimal_rendering() {
    for &(n, text) in &[
        (0u64, "0"),
        (9, "9"),
        (10, "10"),
        (1234567890, "1234567890"),
        (u64::MAX, "18446744073709551615"),
    ] {
        let mut s = from_literal("x=");
        push_decimal(&mut s, n);
        assert_eq!(s, format!("x={}", text));
        assert_eq!(s, format!("x={}", n));
    }
}
