use fake_dpi::{default_dpi, logical_size, map_input, physical_size, Input, Motion, Size, DEFAULT_DPI};

fn size(width: f64, height: f64) -> Size<f64> {
    Size { width, height }
}

fn close(a: f64, b: f64, tolerance: f64) -> bool {
    (a - b).abs() <= tolerance * (1.0 + a.abs().max(b.abs()))
}

#[test]
fn it_works() {
    assert_eq!(2 + 2, 4);
}

#[test]
fn default_factor_is_two() {
    assert_eq!(DEFAULT_DPI, 2);
    let dpi: f64 = default_dpi();
    assert_eq!(dpi, 2.0);
    let whole: u32 = default_dpi();
    assert_eq!(whole, 2);
}

#[test]
fn window_is_built_at_the_declared_size_times_the_factor() {
    assert_eq!(physical_size(2.0, size(800.0, 600.0)), size(1600.0, 1200.0));
    assert_eq!(physical_size(1.5, size(640.0, 480.0)), size(960.0, 720.0));
    assert_eq!(physical_size(0.5, size(3.0, 5.0)), size(1.5, 2.5));
    assert_eq!(physical_size(3.0, size(0.1, 0.2)), size(0.1 * 3.0, 0.2 * 3.0));
}

#[test]
fn reported_size_is_the_window_size_over_the_factor() {
    assert_eq!(logical_size(2.0, size(1600.0, 1200.0)), size(800.0, 600.0));
    assert_eq!(logical_size(4.0, size(10.0, 6.0)), size(2.5, 1.5));
    assert_eq!(logical_size(3.0, size(1.0, 2.0)), size(1.0 / 3.0, 2.0 / 3.0));
}

#[test]
fn width_and_height_are_not_swapped() {
    assert_ne!(physical_size(2.0, size(800.0, 600.0)), size(1200.0, 1600.0));
    assert_ne!(logical_size(2.0, size(1600.0, 1200.0)), size(600.0, 800.0));
}

#[test]
fn default_size_scenario() {
    let dpi: f64 = default_dpi();
    let physical: Size<f64> = physical_size(dpi, size(800.0, 600.0));
    assert_eq!(physical, size(1600.0, 1200.0));
    assert_eq!(logical_size(dpi, physical), size(800.0, 600.0));
    let seen: Input<f64> = map_input(dpi, Input::Move(Motion::MouseCursor([400.0, 300.0])));
    assert_eq!(seen, Input::Move(Motion::MouseCursor([200.0, 150.0])));
}

#[test]
fn unit_factor_changes_no_size() {
    assert_eq!(logical_size(1.0, size(800.0, 600.0)), size(800.0, 600.0));
    assert_eq!(logical_size(1.0, size(0.1, 1.0e300)), size(0.1, 1.0e300));
    assert_eq!(physical_size(1.0, size(641.5, 479.25)), size(641.5, 479.25));
}

#[test]
fn built_window_reports_the_declared_size() {
    for dpi in [1.0, 1.25, 1.5, 2.0, 3.0, 0.7, 10.0] {
        for (w, h) in [(800.0, 600.0), (1.0, 1.0), (1366.0, 768.0), (0.1, 12345.678)] {
            let reported: Size<f64> = logical_size(dpi, physical_size(dpi, size(w, h)));
            assert!(close(reported.width, w, 1.0e-12));
            assert!(close(reported.height, h, 1.0e-12));
        }
    }
}

#[test]
fn built_window_reports_the_declared_size_exactly_for_powers_of_two() {
    for dpi in [0.25, 0.5, 1.0, 2.0, 4.0, 8.0] {
        let reported: Size<f64> = logical_size(dpi, physical_size(dpi, size(801.0, 599.5)));
        assert_eq!(reported, size(801.0, 599.5));
    }
}

#[test]
fn reported_size_follows_a_changed_factor() {
    let inner: Size<f64> = size(1600.0, 1200.0);
    let before: Size<f64> = logical_size(2.0, inner);
    let after: Size<f64> = logical_size(4.0, inner);
    assert_eq!(before, size(800.0, 600.0));
    assert_eq!(after, size(400.0, 300.0));
    assert_eq!(physical_size(2.0, before), inner);
    assert_eq!(physical_size(4.0, after), inner);
}

#[test]
fn reported_size_times_the_factor_is_the_window_size_within_rounding() {
    let inner: Size<f64> = size(1366.0, 768.0);
    for dpi in [1.1, 1.5, 3.0, 7.0] {
        let back: Size<f64> = physical_size(dpi, logical_size(dpi, inner));
        assert!(close(back.width, inner.width, 1.0e-12));
        assert!(close(back.height, inner.height, 1.0e-12));
    }
}

#[test]
fn built_size_is_lost_where_the_product_overflows() {
    let physical: Size<f64> = physical_size(1.0e308, size(1.0e10, 1.0));
    assert_eq!(physical, size(f64::INFINITY, 1.0e308));
    assert_eq!(logical_size(1.0e308, physical), size(f64::INFINITY, 1.0));
}

#[test]
fn integer_sizes() {
    let declared: Size<u32> = Size { width: 800, height: 600 };
    let physical: Size<u32> = physical_size(2, declared);
    assert_eq!(physical, Size { width: 1600, height: 1200 });
    assert_eq!(logical_size(2, physical), declared);
    assert_eq!(logical_size(3, Size { width: 10u32, height: 11u32 }), Size { width: 3, height: 3 });
}
