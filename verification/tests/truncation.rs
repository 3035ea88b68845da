use statusengine::truncate_with_ellipsis;

#[test]
fn test_truncate_with_ellipsis() {
    assert_eq!(truncate_with_ellipsis("short", 10), "short");
    assert_eq!(truncate_with_ellipsis("verylongbranchname", 10), "very…hname");
    assert_eq!(truncate_with_ellipsis("abc", 2), "..");
}

#[test]
fn test_truncate_text_that_fits_is_unchanged() {
    assert_eq!(truncate_with_ellipsis("", 0), "");
    assert_eq!(truncate_with_ellipsis("", 5), "");
    assert_eq!(truncate_with_ellipsis("abcdef", 6), "abcdef");
    assert_eq!(truncate_with_ellipsis("abc", 100), "abc");
}

#[test]
fn test_truncate_tiny_widths_yield_only_dots() {
    assert_eq!(truncate_with_ellipsis("abcdef", 0), "");
    assert_eq!(truncate_with_ellipsis("abcdef", 1), ".");
    assert_eq!(truncate_with_ellipsis("abcdef", 2), "..");
}

#[test]
fn test_truncate_exact_width_and_center_ellipsis() {
    // Width 5 over 8 characters: 2 from the start, the glyph, 2 from the end.
    assert_eq!(truncate_with_ellipsis("abcdefgh", 5), "ab…gh");
    // An odd remainder gives the extra character to the right segment.
    assert_eq!(truncate_with_ellipsis("abcdefghij", 6), "ab…hij");
    // The boundary case: one character over the width.
    assert_eq!(truncate_with_ellipsis("abcd", 3), "a…d");
    let r = truncate_with_ellipsis("abcdefghijklmnop", 9);
    assert_eq!(r.chars().count(), 9);
    assert_eq!(r, "abcd…mnop");
}

#[test]
fn test_truncate_counts_characters_not_bytes() {
    // Nine multi-byte characters down to five columns.
    assert_eq!(truncate_with_ellipsis("日本語のブランチ名", 5), "日本…チ名");
}
