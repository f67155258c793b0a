//! Text, the zoom chip, the start of the program.

use camera::bits::F32;
use camera::launch::{
    accept_window_size, parse_window_size, preview_window_size, prewarms_formats, WindowSizeError,
};
use camera::startup::{elapsed_ms, milestone, milestone_once, start, StartupClock};
use camera::text::{decimal_text, same_text};
use camera::words::buffer_bytes;
use camera::zoom::{is_zoomed, zoom_label_text};

fn single(value: f32) -> F32 {
    F32 { bits: value.to_bits() }
}

#[test]
fn decimals_are_written_as_usual() {
    for n in [0u64, 7, 10, 99, 100, 12_345, u64::MAX] {
        assert_eq!(decimal_text(n), n.to_string());
    }
    assert!(same_text("wl_output", "wl_output"));
    assert!(!same_text("wl_output", "wl_outpu"));
}

/// The chip, in floating point.
fn label_in_floats(zoom: f32) -> String {
    if zoom >= 10.0 {
        "10x".to_string()
    } else if (zoom - zoom.round()).abs() < 0.05 {
        format!("{}x", zoom.round() as u32)
    } else {
        format!("{:.1}x", zoom)
    }
}

#[test]
fn the_zoom_chip_rounds_as_floats_do() {
    let mut zooms = vec![
        0.0, 0.01, 0.04, 0.05, 0.1, 0.25, 0.5, 0.95, 1.0, 1.04, 1.05, 1.06, 1.25, 1.3, 1.35, 1.5,
        1.75, 1.94, 1.95, 2.0, 2.25, 3.05, 9.94, 9.95, 9.99, 10.0, 12.0, -0.02, -0.3, -1.0, -1.25,
        -7.5, -1234.5, -1.0e9, 1.0e-30, f32::INFINITY, f32::NEG_INFINITY, f32::NAN,
    ];
    let mut bits = 0x3f00_0000u32;
    while bits < 0x4130_0000 {
        zooms.push(f32::from_bits(bits));
        bits += 4099;
    }
    for zoom in zooms {
        assert_eq!(zoom_label_text(single(zoom)), label_in_floats(zoom), "{zoom}");
        assert_eq!(is_zoomed(single(zoom)), (zoom - 1.0).abs() > 0.01, "{zoom}");
    }
    assert_eq!(zoom_label_text(single(1.0)), "1x");
    assert_eq!(zoom_label_text(single(1.3)), "1.3x");
    assert_eq!(zoom_label_text(single(10.0)), "10x");
}

#[test]
fn zoom_starts_a_hundredth_from_one() {
    let mut bits = 0.98f32.to_bits();
    while bits < 1.02f32.to_bits() {
        let zoom = f32::from_bits(bits);
        assert_eq!(is_zoomed(single(zoom)), (zoom - 1.0).abs() > 0.01, "{zoom}");
        if !is_zoomed(single(zoom)) {
            assert_eq!(zoom_label_text(single(zoom)), "1x");
        }
        bits += 7;
    }
}

#[test]
fn singles_are_ordered_as_floats_are() {
    let values = [
        f32::NEG_INFINITY, -2.0, -1.0, -0.0, 0.0, 1.0e-40, 1.0, 1.5, f32::INFINITY, f32::NAN,
    ];
    for a in values {
        for b in values {
            assert_eq!(single(a).is_below(single(b)), a < b, "{a} < {b}");
            assert_eq!(single(a).is_at_most(single(b)), a <= b, "{a} <= {b}");
        }
        assert_eq!(single(a).is_finite(), a.is_finite());
        assert_eq!(single(a).is_nan(), a.is_nan());
    }
}

#[test]
fn words_keep_the_machines_byte_order() {
    let words = [0x0102_0304u32, 0xa0b0_c0d0];
    let mut expected = Vec::new();
    for word in words {
        expected.extend_from_slice(&word.to_ne_bytes());
    }
    assert_eq!(buffer_bytes(&words), expected);
    assert_eq!(buffer_bytes(&[]), Vec::<u8>::new());
}

#[test]
fn the_clock_starts_once() {
    let mut clock = StartupClock::stopped();
    start(&mut clock, 5_000_000);
    start(&mut clock, 9_000_000);
    assert_eq!(clock.started, Some(5_000_000));
    assert_eq!(elapsed_ms(&mut clock, 5_999_999), 0);
    assert_eq!(elapsed_ms(&mut clock, 7_500_000), 2);
    assert_eq!(elapsed_ms(&mut clock, 0), 0);

    let mut late = StartupClock::stopped();
    assert_eq!(elapsed_ms(&mut late, 3_000_000), 0);
    assert_eq!(elapsed_ms(&mut late, 4_000_000), 1);
    let mark = milestone(&mut late, "window", 13_000_000);
    assert_eq!((mark.name, mark.elapsed_ms), ("window", 10));
}

#[test]
fn a_milestone_is_marked_once() {
    let mut clock = StartupClock::stopped();
    let mut emitted = false;
    start(&mut clock, 0);
    let first = milestone_once(&mut clock, "first", &mut emitted, 2_000_000);
    assert_eq!(first.map(|mark| (mark.name, mark.elapsed_ms)), Some(("first", 2)));
    assert!(emitted);
    assert!(milestone_once(&mut clock, "first", &mut emitted, 3_000_000).is_none());
}

#[test]
fn window_sizes_part_at_the_first_x() {
    let parts = |text: &str| parse_window_size(text).ok();
    assert_eq!(parts("400x880"), Some(("400".to_string(), "880".to_string())));
    assert_eq!(parts("1x2x3"), Some(("1".to_string(), "2x3".to_string())));
    assert_eq!(parts("x"), Some((String::new(), String::new())));
    assert_eq!(parts(" 400 x\t880\n"), Some(("400".to_string(), "880".to_string())));
    assert_eq!(parts("\u{3000}1 2x3\u{200b}"), Some(("1 2".to_string(), "3\u{200b}".to_string())));
    let error = parse_window_size("400X880").unwrap_err();
    assert_eq!(error.message(), "expected WIDTHxHEIGHT (e.g. 400x880)");
    assert!(matches!(parse_window_size(""), Err(WindowSizeError::NoSeparator)));
}

#[test]
fn window_sizes_are_finite_and_at_least_one() {
    let check = |width: Result<f32, &str>, height: Result<f32, &str>| {
        let side = |value: Result<f32, &str>| value.map(single).map_err(|e| e.to_string());
        accept_window_size(side(width), side(height)).map_err(|error| error.message())
    };
    assert_eq!(check(Ok(400.0), Ok(880.0)), Ok((single(400.0), single(880.0))));
    assert_eq!(check(Ok(1.0), Ok(1.0)), Ok((single(1.0), single(1.0))));
    assert_eq!(check(Err("bad"), Err("worse")), Err("invalid width: bad".to_string()));
    assert_eq!(check(Ok(1.0), Err("worse")), Err("invalid height: worse".to_string()));
    let infinite = Err("window dimensions must be finite".to_string());
    assert_eq!(check(Ok(f32::INFINITY), Ok(0.0)), infinite);
    assert_eq!(check(Ok(2.0), Ok(f32::NAN)), infinite);
    let small = Err("window dimensions must be positive".to_string());
    assert_eq!(check(Ok(0.5), Ok(880.0)), small);
    assert_eq!(check(Ok(400.0), Ok(-3.0)), small);
}

#[test]
fn preview_windows_have_a_size() {
    let asked = Some((single(400.0), single(880.0)));
    assert_eq!(preview_window_size(false, asked), None);
    assert_eq!(preview_window_size(true, asked), asked);
    assert_eq!(preview_window_size(true, None), Some((single(900.0), single(700.0))));
    assert!(prewarms_formats(Some("/dev/video0")));
    assert!(!prewarms_formats(Some("")));
    assert!(!prewarms_formats(None));
}
