use linkly_tui::ui::truncate_ellipsis;

#[test]
fn fits_unchanged() {
    assert_eq!(truncate_ellipsis("promo", 10), "promo");
    assert_eq!(truncate_ellipsis("promo", 5), "promo");
}

#[test]
fn cut_adds_ellipsis_and_respects_width() {
    let out = truncate_ellipsis("summer-promo-2026", 8);
    assert_eq!(out, "summer-…");
    assert_eq!(out.chars().count(), 8);
}

#[test]
fn tiny_widths() {
    assert_eq!(truncate_ellipsis("abc", 1), "…");
    assert_eq!(truncate_ellipsis("abc", 0), "");
}

#[test]
fn truncation_never_exceeds_the_width() {
    for max in 0..12 {
        let out = truncate_ellipsis("a-long-value", max);
        assert!(out.chars().count() <= max);
    }
}
