use bing_wallpaper_lib::window::{
    default_window_placement, fallback_work_area, fit_window_in_work_area, work_area_from_rect,
    WorkArea,
    DEFAULT_WINDOW_HEIGHT, DEFAULT_WINDOW_WIDTH, LARGE_SCREEN_MARGIN,
};

fn scaled(value: i32, scale: f32) -> i32 {
    (value as f32 * scale).round() as i32
}

#[test]
fn fits_and_centers_at_every_supported_scale() {
    for scale in [1.0f32, 1.25, 1.5, 1.75, 2.0, 2.5, 3.0] {
        for (left, top, width, height) in [
            (0, 0, 1920, 1040),
            (0, 48, 1920, 1032),
            (-1920, -200, 1920, 1040),
            (0, 0, 1366, 728),
            (0, 0, 500, 360),
        ] {
            let p = fit_window_in_work_area(
                WorkArea {
                    left,
                    top,
                    right: left + width,
                    bottom: top + height,
                },
                scaled(DEFAULT_WINDOW_WIDTH, scale),
                scaled(DEFAULT_WINDOW_HEIGHT, scale),
                scaled(LARGE_SCREEN_MARGIN, scale),
            );
            assert!(p.width > 0 && p.height > 0);
            assert!(p.x >= left && p.y >= top);
            assert!(p.x + p.width <= left + width);
            assert!(p.y + p.height <= top + height);
            assert!((2 * (p.x - left) + p.width - width).abs() <= 1);
            assert!((2 * (p.y - top) + p.height - height).abs() <= 1);
            assert!(p.width as f32 / scale <= DEFAULT_WINDOW_WIDTH as f32);
            assert!(p.height as f32 / scale <= DEFAULT_WINDOW_HEIGHT as f32);
        }
    }
}

#[test]
fn large_work_area_keeps_the_default_size() {
    let p = fit_window_in_work_area(
        WorkArea { left: 0, top: 0, right: 1920, bottom: 1040 },
        1200,
        800,
        24,
    );
    assert_eq!((p.x, p.y, p.width, p.height), (360, 120, 1200, 800));
}

#[test]
fn small_work_area_shrinks_the_window() {
    let p = fit_window_in_work_area(
        WorkArea { left: 0, top: 0, right: 800, bottom: 600 },
        1500,
        1000,
        30,
    );
    assert_eq!((p.x, p.y, p.width, p.height), (30, 30, 740, 540));
}

#[test]
fn empty_work_areas_are_not_used() {
    assert_eq!(work_area_from_rect(0, 0, 0, 100), None);
    assert_eq!(work_area_from_rect(0, 10, 100, 5), None);
    assert_eq!(
        work_area_from_rect(-5, 0, 100, 50),
        Some(WorkArea { left: -5, top: 0, right: 100, bottom: 50 })
    );
    let p = default_window_placement(None, 1200, 800, 24);
    assert_eq!((p.x, p.y, p.width, p.height), (24, 24, 1152, 752));
}

#[test]
fn missing_work_area_falls_back_to_the_default_window() {
    assert_eq!(
        fallback_work_area(),
        WorkArea { left: 0, top: 0, right: DEFAULT_WINDOW_WIDTH, bottom: DEFAULT_WINDOW_HEIGHT }
    );
}

#[test]
fn huge_scaled_sizes_still_fit() {
    let p = fit_window_in_work_area(
        WorkArea { left: -100, top: 0, right: 1820, bottom: 1040 },
        i32::MAX,
        i32::MAX,
        i32::MAX / 2,
    );
    assert_eq!((p.x, p.y, p.width, p.height), (859, 519, 1, 1));
    let q = fit_window_in_work_area(WorkArea { left: -100, top: 0, right: 1820, bottom: 1040 }, i32::MAX, 0, 0);
    assert_eq!((q.x, q.y, q.width, q.height), (-100, 520, 1920, 0));
}
