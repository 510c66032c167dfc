use shroud::tray::drawing::{draw_dash, draw_dots, draw_exclamation, draw_x_mark, IconVariant};

const FG: [u8; 4] = [255, 255, 255, 255];
const BG: [u8; 4] = [255, 100, 100, 100];

// The centre of every icon is foreground.
#[test]
fn drawing_test_center_is_fg() {
    // Center dot should be foreground
    let pixel = draw_dots(16, 16, 16, 32, &FG, &BG);
    assert_eq!(pixel, FG);
    let pixel = draw_dash(16, 16, 16, 32, &FG, &BG);
    assert_eq!(pixel, FG);
    let pixel = draw_x_mark(16, 16, 16, 32, &FG, &BG);
    assert_eq!(pixel, FG);
}

// The far corner of every icon is background.
#[test]
fn drawing_test_corner_is_bg() {
    let pixel = draw_dots(0, 0, 16, 32, &FG, &BG);
    assert_eq!(pixel, BG);
    let pixel = draw_dash(0, 0, 16, 32, &FG, &BG);
    assert_eq!(pixel, BG);
    let pixel = draw_x_mark(0, 0, 16, 32, &FG, &BG);
    assert_eq!(pixel, BG);
    let pixel = draw_exclamation(0, 0, 16, 32, &FG, &BG);
    assert_eq!(pixel, BG);
}

#[test]
fn test_left_dot() {
    // Left dot at approximately (-6, 0) from center
    let pixel = draw_dots(10, 16, 16, 32, &FG, &BG);
    assert_eq!(pixel, FG);
}

#[test]
fn test_right_dot() {
    let pixel = draw_dots(22, 16, 16, 32, &FG, &BG);
    assert_eq!(pixel, FG);
}

#[test]
fn test_horizontal_extent() {
    // Should be foreground near center-x
    let pixel = draw_dash(20, 16, 16, 32, &FG, &BG);
    assert_eq!(pixel, FG);
}

#[test]
fn test_vertical_out_of_range() {
    // Well above center
    let pixel = draw_dash(16, 5, 16, 32, &FG, &BG);
    assert_eq!(pixel, BG);
}

#[test]
fn test_diagonal_is_fg() {
    // On the forward diagonal (dx == dy)
    let pixel = draw_x_mark(19, 19, 16, 32, &FG, &BG);
    assert_eq!(pixel, FG);
}

#[test]
fn test_center_bar_is_fg() {
    // Center of the bar
    let pixel = draw_exclamation(16, 14, 16, 32, &FG, &BG);
    assert_eq!(pixel, FG);
}

#[test]
fn test_dot_area() {
    // The dot is below center at y = center + 5*s ≈ 21 for size=32
    let pixel = draw_exclamation(16, 21, 16, 32, &FG, &BG);
    assert_eq!(pixel, FG);
}

#[test]
fn test_colours_differ() {
    let c1 = IconVariant::Connected.colours();
    let c2 = IconVariant::Failed.colours();
    assert_ne!((c1.0, c1.1, c1.2), (c2.0, c2.1, c2.2));
}

#[test]
fn test_sizes() {
    let sizes = IconVariant::sizes();
    assert_eq!(sizes.len(), 4);
    assert!(sizes.contains(&16));
    assert!(sizes.contains(&48));
}

#[test]
fn test_data_len() {
    assert_eq!(IconVariant::data_len(16), 16 * 16 * 4);
    assert_eq!(IconVariant::data_len(32), 32 * 32 * 4);
}

#[test]
fn test_all_variants_have_colours() {
    for variant in &[
        IconVariant::Connected,
        IconVariant::Connecting,
        IconVariant::Disconnected,
        IconVariant::Degraded,
        IconVariant::Failed,
    ] {
        let c = variant.colours();
        // FG should be white for all
        assert_eq!((c.3, c.4, c.5), (255, 255, 255));
    }
}

// --- scaled shapes ---

#[test]
fn dash_half_width_scales_with_size() {
    // At size 48 the dash reaches 8 * 48 / 32 = 12 pixels to each side.
    assert_eq!(draw_dash(36, 24, 24, 48, &FG, &BG), FG);
    assert_eq!(draw_dash(37, 24, 24, 48, &FG, &BG), BG);
    assert_eq!(draw_dash(12, 24, 24, 48, &FG, &BG), FG);
    assert_eq!(draw_dash(11, 24, 24, 48, &FG, &BG), BG);
    // Half height 2.5 * 1.5 = 3.75 truncates to 3.
    assert_eq!(draw_dash(24, 27, 24, 48, &FG, &BG), FG);
    assert_eq!(draw_dash(24, 28, 24, 48, &FG, &BG), BG);
}

#[test]
fn dots_radius_truncates() {
    // At size 16 the radius 2.5 * 0.5 = 1.25 truncates to 1; dots sit at -3, 0, 3.
    assert_eq!(draw_dots(8, 8, 8, 16, &FG, &BG), FG);
    assert_eq!(draw_dots(5, 8, 8, 16, &FG, &BG), FG);
    assert_eq!(draw_dots(11, 9, 8, 16, &FG, &BG), FG);
    assert_eq!(draw_dots(10, 9, 8, 16, &FG, &BG), BG);
    assert_eq!(draw_dots(8, 10, 8, 16, &FG, &BG), BG);
}

#[test]
fn x_mark_arm_ends() {
    // At size 32 the arms reach 6 pixels; thickness 2.
    assert_eq!(draw_x_mark(22, 22, 16, 32, &FG, &BG), FG);
    assert_eq!(draw_x_mark(23, 23, 16, 32, &FG, &BG), BG);
    assert_eq!(draw_x_mark(10, 22, 16, 32, &FG, &BG), FG);
    assert_eq!(draw_x_mark(19, 16, 16, 32, &FG, &BG), BG);
}

#[test]
fn exclamation_gap_between_bar_and_dot() {
    // Bar from -6 to 2 below the centre, dot of radius 2 at 5.
    assert_eq!(draw_exclamation(16, 10, 16, 32, &FG, &BG), FG);
    assert_eq!(draw_exclamation(16, 9, 16, 32, &FG, &BG), BG);
    assert_eq!(draw_exclamation(16, 18, 16, 32, &FG, &BG), FG);
    assert_eq!(draw_exclamation(18, 21, 16, 32, &FG, &BG), FG);
    assert_eq!(draw_exclamation(19, 21, 16, 32, &FG, &BG), BG);
}

#[test]
fn exact_colours() {
    assert_eq!(IconVariant::Connected.colours(), (46, 160, 67, 255, 255, 255));
    assert_eq!(IconVariant::Connecting.colours(), (245, 158, 11, 255, 255, 255));
    assert_eq!(IconVariant::Disconnected.colours(), (100, 116, 139, 255, 255, 255));
    assert_eq!(IconVariant::Degraded.colours(), (249, 115, 22, 255, 255, 255));
    assert_eq!(IconVariant::Failed.colours(), (239, 68, 68, 255, 255, 255));
}

#[test]
fn exact_sizes_and_lengths() {
    assert_eq!(IconVariant::sizes(), [16, 24, 32, 48]);
    assert_eq!(IconVariant::data_len(48), 9216);
    assert_eq!(IconVariant::data_len(0), 0);
}

#[test]
fn x_mark_is_symmetric() {
    for a in -8..=8 {
        for b in -8..=8 {
            let f = |x: i32, y: i32| draw_x_mark(16 + x, 16 + y, 16, 32, &FG, &BG);
            assert_eq!(f(a, b), f(b, a));
            assert_eq!(f(a, b), f(-a, b));
            assert_eq!(f(a, b), f(a, -b));
        }
    }
}
