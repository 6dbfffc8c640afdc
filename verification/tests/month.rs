use cycl::category::{category_label, CATEGORIES, DEFAULT_CATEGORY};
use cycl::month::{label, parse, shift, short_label};

#[test]
fn shift_moves_within_a_year() {
    assert_eq!(shift("2026-07", 1), "2026-08");
    assert_eq!(shift("2026-07", -2), "2026-05");
}

#[test]
fn shift_crosses_year_boundaries() {
    assert_eq!(shift("2026-01", -1), "2025-12");
    assert_eq!(shift("2026-12", 1), "2027-01");
    assert_eq!(shift("2026-03", -6), "2025-09");
}

#[test]
fn label_renders_a_readable_month() {
    assert_eq!(label("2026-07"), "Jul 2026");
    assert_eq!(short_label("2026-01"), "Jan");
}

#[test]
fn malformed_months_fall_back_to_january_1970() {
    assert_eq!(parse("garbage"), (1970, 1));
    assert_eq!(parse("2026"), (2026, 1));
    assert_eq!(parse("2026-xx"), (2026, 1));
    assert_eq!(parse("+2026-07-31"), (2026, 7));
    assert_eq!(shift("nonsense", 0), "1970-01");
}

#[test]
fn shift_by_zero_normalizes_and_composes() {
    assert_eq!(shift("2026-13", 0), "2027-01");
    assert_eq!(shift("2026-00", 0), "2025-12");
    assert_eq!(shift(&shift("2026-07", 5), 9), shift("2026-07", 14));
    assert_eq!(shift(&shift("2026-07", -30), 30), "2026-07");
}

#[test]
fn shift_pads_years_and_handles_year_zero() {
    assert_eq!(shift("0000-01", -1), "-001-12");
    assert_eq!(shift("0005-06", 0), "0005-06");
}

#[test]
fn labels_clamp_the_month() {
    assert_eq!(short_label("2026-00"), "Jan");
    assert_eq!(short_label("2026-99"), "Dec");
    assert_eq!(label("x-12"), "Dec 1970");
}

#[test]
fn category_labels() {
    assert_eq!(category_label("this_week"), "This Week");
    assert_eq!(category_label("someday"), "Someday");
    assert_eq!(category_label("whenever"), "whenever");
    assert_eq!(CATEGORIES.len(), 6);
    assert_eq!(DEFAULT_CATEGORY, "someday");
}
