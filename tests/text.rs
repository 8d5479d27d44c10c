use coin_price::text::{accepts_override, capitalize, confirms, join_capitalized, normalize, same_text};

#[test]
fn capitalize_lowercase_word() {
    assert_eq!(capitalize("bitcoin"), "Bitcoin");
}

#[test]
fn capitalize_empty() {
    assert_eq!(capitalize(""), "");
}

#[test]
fn capitalize_single_upper() {
    assert_eq!(capitalize("X"), "X");
}

#[test]
fn capitalize_keeps_rest() {
    assert_eq!(capitalize("avalanche-2"), "Avalanche-2");
    assert_eq!(capitalize("eTHER"), "ETHER");
}

#[test]
fn capitalize_multi_char_mapping() {
    assert_eq!(capitalize("ßx"), "SSx");
}

#[test]
fn join_capitalized_uses_given_head() {
    assert_eq!(join_capitalized("Q", "bitcoin"), "Qitcoin");
    assert_eq!(join_capitalized("Q", ""), "");
}

#[test]
fn normalize_trims_and_lowercases() {
    assert_eq!(normalize("  BitCoin \n"), "bitcoin");
    assert_eq!(normalize("\n"), "");
}

#[test]
fn same_text_compares() {
    assert!(same_text("abc", "abc"));
    assert!(!same_text("abc", "abd"));
    assert!(!same_text("abc", "ab"));
}

#[test]
fn override_answers() {
    assert!(accepts_override("y\n"));
    assert!(accepts_override(" yes "));
    assert!(accepts_override("oui"));
    assert!(!accepts_override("Y"));
    assert!(!accepts_override("n"));
    assert!(!accepts_override(""));
}

#[test]
fn confirm_answers() {
    assert!(confirms("Y\n"));
    assert!(confirms(" YES"));
    assert!(!confirms("oui"));
    assert!(!confirms("no"));
}
