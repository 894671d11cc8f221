use dsh_installer::window_shape::{CORNER_RADIUS_LOGICAL_PX, client_region_bounds};

#[test]
fn native_radius_tracks_display_scale() {
    assert_eq!((CORNER_RADIUS_LOGICAL_PX as f64 * 1.0 * 2.0).round() as i32, 30);
    assert_eq!((CORNER_RADIUS_LOGICAL_PX as f64 * 1.5 * 2.0).round() as i32, 45);
}

#[test]
fn native_region_excludes_the_hidden_non_client_frame() {
    assert_eq!(
        client_region_bounds(100, 200, 108, 208, 880, 580),
        (8, 8, 889, 589)
    );
}

#[test]
fn native_region_saturates_instead_of_overflowing() {
    assert_eq!(
        client_region_bounds(i32::MIN, 0, i32::MAX, 0, i32::MAX, 10),
        (i32::MAX, 0, i32::MAX, 11)
    );
}
