use window_settings::codec::{TAG_ABSENT, TAG_PRESENT};
use window_settings::geometry::{DisplayRect, LogicalSize, PhysicalPosition};
use window_settings::settings::{WindowConfig, WindowSettings};

fn logical(width: f32, height: f32) -> LogicalSize {
    LogicalSize { width_bits: width.to_bits(), height_bits: height.to_bits() }
}

fn settings(pos: Option<(i32, i32)>, size: Option<(f32, f32)>) -> WindowSettings {
    WindowSettings {
        inner_pos: pos.map(|(x, y)| PhysicalPosition { x, y }),
        inner_size_points: size.map(|(w, h)| logical(w, h)),
    }
}

#[test]
fn round_trip_both_absent() {
    let s = settings(None, None);
    let bytes = s.to_bytes();
    assert_eq!(bytes, vec![TAG_ABSENT, TAG_ABSENT]);
    assert_eq!(WindowSettings::from_bytes(&bytes), Some(s));
}

#[test]
fn round_trip_both_present() {
    let s = settings(Some((100, 50)), Some((800.0, 600.0)));
    let bytes = s.to_bytes();
    assert_eq!(bytes.len(), 18);
    assert_eq!(WindowSettings::from_bytes(&bytes), Some(s));
}

#[test]
fn round_trip_position_only_negative_coordinates() {
    let s = settings(Some((-1920, -7)), None);
    let bytes = s.to_bytes();
    assert_eq!(bytes.len(), 10);
    let back = WindowSettings::from_bytes(&bytes).unwrap();
    assert_eq!(back.inner_pos, Some(PhysicalPosition { x: -1920, y: -7 }));
    assert_eq!(back.inner_size_points, None);
}

#[test]
fn round_trip_size_only_keeps_exact_fraction() {
    // 800 physical pixels at scale factor 1.5: the logical width 533.3333...
    // must come back bit for bit.
    let s = settings(None, Some((800.0 / 1.5, 600.0 / 1.5)));
    let bytes = s.to_bytes();
    let back = WindowSettings::from_bytes(&bytes).unwrap();
    let z = back.inner_size_points.unwrap();
    assert_eq!(f32::from_bits(z.width_bits), 800.0 / 1.5);
    assert_eq!(f32::from_bits(z.height_bits), 600.0 / 1.5);
    assert_eq!(back, s);
}

#[test]
fn encoding_is_little_endian_with_tag_bytes() {
    let s = settings(Some((1, -1)), Some((1.0, 2.0)));
    // 1.0f32 is 0x3F80_0000, 2.0f32 is 0x4000_0000.
    assert_eq!(
        s.to_bytes(),
        vec![
            TAG_PRESENT,
            1, 0, 0, 0,
            0xFF, 0xFF, 0xFF, 0xFF,
            TAG_PRESENT,
            0x00, 0x00, 0x80, 0x3F,
            0x00, 0x00, 0x00, 0x40,
        ]
    );
}

#[test]
fn decode_rejects_malformed_input() {
    assert_eq!(WindowSettings::from_bytes(&[]), None);
    assert_eq!(WindowSettings::from_bytes(&[TAG_ABSENT]), None);
    // unknown tag value
    assert_eq!(WindowSettings::from_bytes(&[2, TAG_ABSENT]), None);
    assert_eq!(WindowSettings::from_bytes(&[TAG_ABSENT, 2]), None);
    // truncated position
    assert_eq!(WindowSettings::from_bytes(&[TAG_PRESENT, 0, 0, 0, 0]), None);
    // trailing byte after a complete encoding
    let mut bytes = settings(None, None).to_bytes();
    bytes.push(0);
    assert_eq!(WindowSettings::from_bytes(&bytes), None);
    let mut bytes = settings(Some((3, 4)), Some((5.0, 6.0))).to_bytes();
    bytes.push(0);
    assert_eq!(WindowSettings::from_bytes(&bytes), None);
    // both fields marked present but only one encoded
    let mut short = vec![TAG_PRESENT, 0, 0, 0, 0, 0, 0, 0, 0, TAG_PRESENT];
    assert_eq!(WindowSettings::from_bytes(&short), None);
    short.truncate(9);
    assert_eq!(WindowSettings::from_bytes(&short), None);
}

#[test]
fn capture_records_position_when_query_succeeds() {
    let s = WindowSettings::from_display(
        Some(PhysicalPosition { x: 10, y: -20 }),
        logical(640.0, 360.0),
    );
    assert_eq!(s.inner_pos, Some(PhysicalPosition { x: 10, y: -20 }));
    assert_eq!(s.inner_size_points, Some(logical(640.0, 360.0)));
}

#[test]
fn capture_with_failed_position_query_yields_absent_position() {
    let s = WindowSettings::from_display(None, logical(640.0, 360.0));
    assert_eq!(s.inner_pos, None);
    // the size is always recorded
    assert_eq!(s.inner_size_points, Some(logical(640.0, 360.0)));
}

#[test]
fn apply_restores_position_and_size_on_a_containing_display() {
    let s = settings(Some((100, 50)), Some((800.0, 600.0)));
    let displays = vec![DisplayRect { x: 0, y: 0, width: 1920, height: 1080 }];
    let config = s.initialize_window(WindowConfig::new(), Some(&displays));
    assert_eq!(config.position, Some(PhysicalPosition { x: 100, y: 50 }));
    assert_eq!(config.inner_size, Some(logical(800.0, 600.0)));
}

#[test]
fn apply_drops_position_outside_every_display_but_keeps_size() {
    let s = settings(Some((100, 50)), Some((800.0, 600.0)));
    // the only attached display no longer covers the stored point
    let displays = vec![DisplayRect { x: 1920, y: 0, width: 1920, height: 1080 }];
    let config = s.initialize_window(WindowConfig::new(), Some(&displays));
    assert_eq!(config.position, None);
    assert_eq!(config.inner_size, Some(logical(800.0, 600.0)));
}

#[test]
fn apply_without_enumeration_restores_position_optimistically() {
    let s = settings(Some((5000, 5000)), None);
    let config = s.initialize_window(WindowConfig::new(), None);
    assert_eq!(config.position, Some(PhysicalPosition { x: 5000, y: 5000 }));
    assert_eq!(config.inner_size, None);
}

#[test]
fn apply_with_empty_display_list_drops_position() {
    let s = settings(Some((0, 0)), None);
    let displays: Vec<DisplayRect> = Vec::new();
    let config = s.initialize_window(WindowConfig::new(), Some(&displays));
    assert_eq!(config.position, None);
}

#[test]
fn apply_position_only_settings_sets_no_size() {
    let s = settings(Some((30, 40)), None);
    let displays = vec![DisplayRect { x: 0, y: 0, width: 100, height: 100 }];
    let config = s.initialize_window(WindowConfig::new(), Some(&displays));
    assert_eq!(config.position, Some(PhysicalPosition { x: 30, y: 40 }));
    assert_eq!(config.inner_size, None);
}

#[test]
fn apply_searches_all_displays() {
    let s = settings(Some((-100, 10)), None);
    let displays = vec![
        DisplayRect { x: 0, y: 0, width: 1920, height: 1080 },
        DisplayRect { x: -1920, y: 0, width: 1920, height: 1080 },
    ];
    let config = s.initialize_window(WindowConfig::new(), Some(&displays));
    assert_eq!(config.position, Some(PhysicalPosition { x: -100, y: 10 }));
}

#[test]
fn display_bounds_are_half_open() {
    let d = DisplayRect { x: 0, y: 0, width: 640, height: 480 };
    assert!(d.contains(PhysicalPosition { x: 0, y: 0 }));
    assert!(d.contains(PhysicalPosition { x: 639, y: 479 }));
    // one pixel outside is rejected
    assert!(!d.contains(PhysicalPosition { x: 640, y: 0 }));
    assert!(!d.contains(PhysicalPosition { x: 0, y: 480 }));
    assert!(!d.contains(PhysicalPosition { x: -1, y: 0 }));
}

#[test]
fn display_with_negative_origin_contains_its_points() {
    let d = DisplayRect { x: -1920, y: -200, width: 1920, height: 1080 };
    assert!(d.contains(PhysicalPosition { x: -1, y: 0 }));
    assert!(!d.contains(PhysicalPosition { x: 0, y: 0 }));
}

#[test]
fn config_builder_keeps_unrelated_requests() {
    let config = WindowConfig::new();
    assert_eq!(config.position, None);
    assert_eq!(config.inner_size, None);
    let config = config.with_position(PhysicalPosition { x: 1, y: 2 });
    let config = config.with_inner_size(logical(3.0, 4.0));
    assert_eq!(config.position, Some(PhysicalPosition { x: 1, y: 2 }));
    assert_eq!(config.inner_size, Some(logical(3.0, 4.0)));
}

#[test]
fn apply_keeps_prior_request_when_position_is_invalid() {
    // a configuration that already requests a position keeps it when the
    // stored position cannot be restored
    let prior = WindowConfig::new().with_position(PhysicalPosition { x: 7, y: 8 });
    let s = settings(Some((100, 50)), None);
    let displays: Vec<DisplayRect> = Vec::new();
    let config = s.initialize_window(prior, Some(&displays));
    assert_eq!(config.position, Some(PhysicalPosition { x: 7, y: 8 }));
}
