use agritrust::inputs::{motes_or_default, u32_or_default, u64_or_default};
use agritrust::motes::Motes;

#[test]
fn u64_reads_digits_with_optional_plus() {
    assert_eq!(u64_or_default(Some("42"), 7), 42);
    assert_eq!(u64_or_default(Some("+42"), 7), 42);
    assert_eq!(u64_or_default(Some("0042"), 7), 42);
    assert_eq!(u64_or_default(Some("18446744073709551615"), 7), u64::MAX);
}

#[test]
fn u64_falls_back_to_default() {
    assert_eq!(u64_or_default(None, 7), 7);
    assert_eq!(u64_or_default(Some(""), 7), 7);
    assert_eq!(u64_or_default(Some("+"), 7), 7);
    assert_eq!(u64_or_default(Some("-1"), 7), 7);
    assert_eq!(u64_or_default(Some("1a"), 7), 7);
    assert_eq!(u64_or_default(Some(" 1"), 7), 7);
    assert_eq!(u64_or_default(Some("18446744073709551616"), 7), 7);
}

#[test]
fn u32_bounds() {
    assert_eq!(u32_or_default(Some("4294967295"), 1), u32::MAX);
    assert_eq!(u32_or_default(Some("4294967296"), 1), 1);
    assert_eq!(u32_or_default(Some("820"), 1), 820);
    assert_eq!(u32_or_default(None, 8000), 8000);
}

#[test]
fn motes_reads_decimal_text() {
    assert_eq!(motes_or_default("100000000000", "1"), Motes::from_u64(100_000_000_000));
    assert_eq!(
        motes_or_default("18446744073709551616", "1"),
        Motes::from_words([0, 1, 0, 0, 0, 0, 0, 0])
    );
    // U512 reads the empty text as zero.
    assert_eq!(motes_or_default("", "1"), Motes::zero());
}

#[test]
fn motes_falls_back_to_default() {
    assert_eq!(motes_or_default("abc", "100000000"), Motes::from_u64(100_000_000));
    assert_eq!(motes_or_default("+5", "3"), Motes::from_u64(3));
    assert_eq!(motes_or_default("-5", "3"), Motes::from_u64(3));
}
