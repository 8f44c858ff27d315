use resvg_wrapper::dims::resolve_dimensions;

#[test]
fn zoom_scales_both_axes() {
    assert_eq!(resolve_dimensions(100, 50, 2_000_000, 0, 0), (200, 100));
}

#[test]
fn zoom_overrides_width_and_height_requests() {
    assert_eq!(resolve_dimensions(100, 50, 2_000_000, 7, 9), (200, 100));
}

#[test]
fn fractional_zoom_truncates() {
    assert_eq!(resolve_dimensions(100, 50, 500_000, 0, 0), (50, 25));
    assert_eq!(resolve_dimensions(3, 3, 500_000, 0, 0), (1, 1));
}

#[test]
fn tiny_zoom_result_clamps_to_one() {
    assert_eq!(resolve_dimensions(1, 1, 500_000, 0, 0), (1, 1));
}

#[test]
fn one_micro_zoom_is_still_a_zoom() {
    // The smallest representable zoom takes precedence over explicit
    // width and height, and its tiny result clamps to one pixel.
    assert_eq!(resolve_dimensions(100, 50, 1, 300, 400), (1, 1));
}

#[test]
fn huge_zoom_clamps_to_max() {
    assert_eq!(resolve_dimensions(100, 50, 1_000_000_000, 0, 0), (16384, 16384));
}

#[test]
fn explicit_width_and_height_are_verbatim() {
    assert_eq!(resolve_dimensions(100, 50, 0, 300, 400), (300, 400));
}

#[test]
fn width_only_scales_height_by_aspect() {
    assert_eq!(resolve_dimensions(100, 50, 0, 200, 0), (200, 100));
}

#[test]
fn width_only_truncates_scaled_height() {
    // 33 * 50 / 100 = 16.5, truncated toward zero.
    assert_eq!(resolve_dimensions(100, 50, 0, 33, 0), (33, 16));
}

#[test]
fn height_only_scales_width_by_aspect() {
    assert_eq!(resolve_dimensions(100, 50, 0, 0, 100), (200, 100));
}

#[test]
fn no_directive_keeps_intrinsic_size() {
    assert_eq!(resolve_dimensions(100, 50, 0, 0, 0), (100, 50));
}

#[test]
fn negative_requests_count_as_absent() {
    assert_eq!(resolve_dimensions(100, 50, 0, -5, -7), (100, 50));
    assert_eq!(resolve_dimensions(100, 50, 0, -5, 100), (200, 100));
}

#[test]
fn requested_width_clamps_to_max() {
    let (w, _) = resolve_dimensions(100, 50, 0, 999_999, 0);
    assert_eq!(w, 16384);
}

#[test]
fn oversized_intrinsic_size_clamps() {
    assert_eq!(resolve_dimensions(100_000, 50, 0, 0, 0), (16384, 50));
}
