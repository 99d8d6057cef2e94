use cursor_sync::extract::{extract, CursorData};
use cursor_sync::fingerprint::fingerprint;
use cursor_sync::image::{CursorError, CursorImage, Rgba, Unavailable};
use cursor_sync::tracker::CursorTracker;

const BLACK: Rgba = Rgba { r: 0, g: 0, b: 0, a: 255 };
const WHITE: Rgba = Rgba { r: 255, g: 255, b: 255, a: 255 };

fn uniform(size: u32, hot: u32, color: Rgba) -> CursorImage {
    CursorImage {
        width: size,
        height: size,
        hotspot_x: hot,
        hotspot_y: hot,
        rep_width: size,
        rep_height: size,
        colors: vec![Some(color); (size * size) as usize],
    }
}

fn cursor_a() -> CursorImage {
    uniform(16, 0, BLACK)
}

fn cursor_b() -> CursorImage {
    uniform(32, 16, WHITE)
}

fn assert_all_pixels(d: &CursorData, px: [u8; 4]) {
    for group in d.pixels.chunks(4) {
        assert_eq!(group, &px[..]);
    }
}

#[test]
fn end_to_end_single_cursor() {
    let a = cursor_a();
    let ia = fingerprint(&a).unwrap();
    let d = extract(ia, &a).unwrap();
    assert_eq!(d.identity, ia);
    assert_eq!(d.width, 16);
    assert_eq!(d.height, 16);
    assert_eq!(d.hotspot_x, 0);
    assert_eq!(d.hotspot_y, 0);
    assert_eq!(d.pixels.len(), 1024);
    assert_all_pixels(&d, [0, 0, 0, 255]);
}

#[test]
fn cursor_switch_detected_once_and_old_identity_goes_stale() {
    let mut t = CursorTracker::new();
    assert!(t.poll_changed(7));
    let ia = fingerprint(&cursor_a()).unwrap();
    assert!(!t.poll_changed(7));

    // the system switches to cursor B and bumps its counter
    assert!(t.poll_changed(8));
    assert!(!t.poll_changed(8));
    assert!(!t.poll_changed(8));
    let b = cursor_b();
    let ib = fingerprint(&b).unwrap();
    assert_ne!(ia, ib);
    assert_eq!(extract(ia, &b).unwrap_err(), CursorError::StaleCursor);
    let d = extract(ib, &b).unwrap();
    assert_eq!(d.identity, ib);
    assert_eq!(d.pixels.len(), 4096);
    assert_all_pixels(&d, [255, 255, 255, 255]);
}

#[test]
fn identity_values_follow_geometry_and_samples() {
    // 4 * 16 + 0 + 0, plus 255 / 255 from the hotspot and 255 from its neighbour
    assert_eq!(fingerprint(&cursor_a()), Ok(320));
    // 4 * 32 + 16 + 16, plus 1020 / 255 and 1020
    assert_eq!(fingerprint(&cursor_b()), Ok(1184));
}

#[test]
fn hotspot_sample_is_rounded_down() {
    let mut img = uniform(4, 0, Rgba { r: 0, g: 0, b: 0, a: 0 });
    img.colors[0] = Some(Rgba { r: 254, g: 0, b: 0, a: 0 });
    // 254 / 255 rounds down to nothing
    assert_eq!(fingerprint(&img), Ok(16));
    img.colors[5] = Some(Rgba { r: 1, g: 2, b: 3, a: 4 });
    assert_eq!(fingerprint(&img), Ok(26));
}

#[test]
fn unreadable_sample_adds_nothing() {
    let mut img = uniform(4, 0, WHITE);
    img.colors[0] = None;
    img.colors[5] = None;
    assert_eq!(fingerprint(&img), Ok(16));
}

#[test]
fn neighbour_sample_is_clamped_to_the_bitmap() {
    // hotspot on the last pixel: both samples read that pixel
    let mut img = uniform(4, 3, Rgba { r: 0, g: 0, b: 0, a: 0 });
    img.colors[15] = Some(Rgba { r: 10, g: 0, b: 0, a: 0 });
    // 4 * 4 + 3 + 3, plus (10 + 255 * 10) / 255 = 10
    assert_eq!(fingerprint(&img), Ok(32));
}

#[test]
fn hotspot_is_mapped_into_representation_pixels() {
    // logical 8x8, bitmap 16x16, hotspot (2, 2) -> bitmap pixel (4, 4)
    let mut img = CursorImage {
        width: 8,
        height: 8,
        hotspot_x: 2,
        hotspot_y: 2,
        rep_width: 16,
        rep_height: 16,
        colors: vec![None; 256],
    };
    img.colors[4 * 16 + 4] = Some(Rgba { r: 255, g: 255, b: 0, a: 0 });
    img.colors[5 * 16 + 5] = Some(Rgba { r: 0, g: 0, b: 0, a: 3 });
    // 8 + 8 + 2 + 2 + 16 + 16, plus 510 / 255 and 3
    assert_eq!(fingerprint(&img), Ok(57));
    let d = extract(57, &img).unwrap();
    assert_eq!(d.width, 8);
    assert_eq!(d.height, 8);
    assert_eq!(d.pixels, vec![255, 255, 0, 0, 0, 0, 0, 3]);
}

#[test]
fn identity_ignores_unsampled_pixels() {
    let a = cursor_a();
    let mut other = cursor_a();
    other.colors[200] = Some(WHITE);
    assert_eq!(fingerprint(&a), fingerprint(&other));
    let mut sampled = cursor_a();
    sampled.colors[17] = Some(WHITE);
    assert_ne!(fingerprint(&a), fingerprint(&sampled));
}

#[test]
fn fingerprint_twice_gives_same_identity() {
    let b = cursor_b();
    let again = b.clone();
    assert_eq!(fingerprint(&b), fingerprint(&again));
}

#[test]
fn stale_identity_returns_no_pixels() {
    let a = cursor_a();
    let ia = fingerprint(&a).unwrap();
    assert_eq!(extract(ia + 1, &a).unwrap_err(), CursorError::StaleCursor);
    let mut changed = cursor_a();
    changed.colors[0] = Some(WHITE);
    assert!(matches!(extract(ia, &changed), Err(CursorError::StaleCursor)));
}

#[test]
fn extraction_is_row_major_top_row_first() {
    let mut colors = Vec::new();
    for k in 0..6u8 {
        colors.push(Some(Rgba { r: k, g: 10 + k, b: 20 + k, a: 30 + k }));
    }
    let img = CursorImage {
        width: 3,
        height: 2,
        hotspot_x: 0,
        hotspot_y: 0,
        rep_width: 3,
        rep_height: 2,
        colors,
    };
    let id = fingerprint(&img).unwrap();
    let d = extract(id, &img).unwrap();
    assert_eq!(d.pixels.len(), 4 * 3 * 2);
    let mut want = Vec::new();
    for k in 0..6u8 {
        want.extend_from_slice(&[k, 10 + k, 20 + k, 30 + k]);
    }
    assert_eq!(d.pixels, want);
}

#[test]
fn unreadable_pixels_are_skipped() {
    let mut img = uniform(2, 0, WHITE);
    img.colors[2] = None;
    let id = fingerprint(&img).unwrap();
    let d = extract(id, &img).unwrap();
    assert_eq!(d.pixels.len(), 12);
}

#[test]
fn image_without_area_is_unavailable() {
    let mut img = cursor_a();
    img.width = 0;
    let e = CursorError::Unavailable(Unavailable::NoImage);
    assert_eq!(fingerprint(&img), Err(e));
    assert_eq!(extract(320, &img).unwrap_err(), e);
    let mut img = cursor_a();
    img.height = 0;
    assert_eq!(fingerprint(&img), Err(e));
}

#[test]
fn missing_representation_is_unavailable() {
    let e = CursorError::Unavailable(Unavailable::NoRepresentation);
    let mut img = cursor_a();
    img.colors.pop();
    assert_eq!(fingerprint(&img), Err(e));
    assert_eq!(extract(320, &img).unwrap_err(), e);
    let mut img = cursor_a();
    img.rep_width = 0;
    img.colors.clear();
    assert_eq!(fingerprint(&img), Err(e));
}

#[test]
fn unchanged_counter_polls_quietly() {
    let mut t = CursorTracker::new();
    assert!(t.poll_changed(42));
    assert!(!t.poll_changed(42));
    assert!(!t.poll_changed(42));
    assert!(t.poll_changed(-3));
}

#[test]
fn reset_forces_next_poll_to_report_change() {
    let mut t = CursorTracker::new();
    assert!(t.poll_changed(5));
    t.reset();
    assert!(t.poll_changed(5));
    assert!(!t.poll_changed(5));
    t.reset();
    t.reset();
    assert!(t.poll_changed(5));
}

#[test]
fn counter_zero_is_still_a_change_on_first_poll() {
    let mut t = CursorTracker::new();
    assert!(t.poll_changed(0));
    assert!(!t.poll_changed(0));
    t.reset();
    assert!(t.poll_changed(0));
}
