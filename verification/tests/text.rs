use plotview::command::{text_offset, TextAnchor};

#[test]
fn centred_text_starts_half_its_width_to_the_left() {
    assert_eq!(text_offset(TextAnchor::Centered, 40_000, 9_000), (-20_000, 0));
}

#[test]
fn title_is_raised_by_half_its_height() {
    assert_eq!(text_offset(TextAnchor::CenteredRaised, 40_000, 9_000), (-20_000, -4_500));
}

#[test]
fn right_aligned_text_ends_at_the_anchor() {
    assert_eq!(text_offset(TextAnchor::RightAligned, 40_000, 9_000), (-40_000, 0));
}

#[test]
fn upward_text_starts_half_its_width_below() {
    assert_eq!(text_offset(TextAnchor::Upward, 40_000, 9_000), (0, 20_000));
}

#[test]
fn halves_of_odd_measures_round_down() {
    assert_eq!(text_offset(TextAnchor::CenteredRaised, 7, 5), (-3, -2));
    assert_eq!(text_offset(TextAnchor::Upward, 1, 1), (0, 0));
}

#[test]
fn empty_and_widest_measures() {
    for anchor in [
        TextAnchor::Centered,
        TextAnchor::CenteredRaised,
        TextAnchor::RightAligned,
        TextAnchor::Upward,
    ] {
        assert_eq!(text_offset(anchor, 0, 0), (0, 0));
    }
    assert_eq!(text_offset(TextAnchor::RightAligned, u64::MAX, 0), (-(u64::MAX as i128), 0));
    assert_eq!(
        text_offset(TextAnchor::CenteredRaised, u64::MAX, u64::MAX),
        (-(i64::MAX as i128), -(i64::MAX as i128))
    );
}
