use summits::address::is_canonical_address;
use summits::address::standardize_address;

fn zeros(n: usize) -> String {
    let mut s = String::new();
    for _ in 0..n {
        s.push('0');
    }
    s
}

#[test]
fn short_address_is_padded_to_sixty_four_digits() {
    let out = standardize_address("0x5");
    assert_eq!(out, format!("0x{}5", zeros(63)));
    assert_eq!(out.chars().count(), 66);
}

#[test]
fn prefix_is_optional() {
    assert_eq!(standardize_address("5"), standardize_address("0x5"));
    assert_eq!(standardize_address("abc"), format!("0x{}abc", zeros(61)));
}

#[test]
fn standardizing_twice_changes_nothing() {
    for input in ["0x5", "5", "", "0x", "0x0x1", "0xABCDEF", "x0", "0"] {
        let once = standardize_address(input);
        let twice = standardize_address(&once);
        assert_eq!(once, twice, "input {:?}", input);
    }
}

#[test]
fn full_width_address_is_kept() {
    let digits = "f".repeat(64);
    let out = standardize_address(&format!("0x{}", digits));
    assert_eq!(out, format!("0x{}", digits));
    assert_eq!(standardize_address(&digits), format!("0x{}", digits));
}

#[test]
fn empty_address_is_all_zeros() {
    assert_eq!(standardize_address(""), format!("0x{}", zeros(64)));
    assert_eq!(standardize_address("0x"), format!("0x{}", zeros(64)));
}

#[test]
fn overlong_address_is_not_cut() {
    let digits = "1".repeat(70);
    let out = standardize_address(&format!("0x{}", digits));
    assert_eq!(out, format!("0x{}", digits));
    assert_eq!(out.len(), 72);
}

#[test]
fn only_one_prefix_is_removed() {
    let out = standardize_address("0x0x1");
    assert_eq!(out, format!("0x{}0x1", zeros(61)));
    assert_eq!(out.len(), 66);
}

#[test]
fn upper_case_prefix_is_not_a_prefix() {
    assert_eq!(standardize_address("0X5"), format!("0x{}0X5", zeros(61)));
}

#[test]
fn padding_counts_characters_not_bytes() {
    let out = standardize_address("é");
    assert_eq!(out.chars().count(), 66);
    assert!(out.ends_with('é'));
}

#[test]
fn canonical_means_prefix_and_sixty_four_hex_digits() {
    assert!(is_canonical_address(&format!("0x{}", "0".repeat(64))));
    assert!(is_canonical_address(&format!("0x{}", "aF09".repeat(16))));
    assert!(!is_canonical_address(&format!("0x{}", "0".repeat(63))));
    assert!(!is_canonical_address(&format!("0x{}", "0".repeat(65))));
    assert!(!is_canonical_address(&format!("0X{}", "0".repeat(64))));
    assert!(!is_canonical_address(&format!("1x{}", "0".repeat(64))));
    assert!(!is_canonical_address(&format!("0x{}g", "0".repeat(63))));
    assert!(!is_canonical_address(&format!("0x{}é", "0".repeat(63))));
    assert!(!is_canonical_address(""));
    assert!(!is_canonical_address("0x5"));
}

#[test]
fn standardized_hex_is_canonical() {
    for input in ["0x5", "5", "", "0xABCDEF", "0xdeadBEEF0123456789"] {
        assert!(is_canonical_address(&standardize_address(input)), "input {:?}", input);
    }
    assert!(!is_canonical_address(&standardize_address("0xnot hex")));
    assert!(!is_canonical_address(&standardize_address(&"1".repeat(65))));
}
