use rustdesk::audio_fault_injection::{AudioFaultInjection, ACTIVE_SAMPLE_THRESHOLD_BITS};
use rustdesk::cursor::colors::{bitmap_length, png_colors, straight_rgba};
use rustdesk::cursor::ids::{bounded_cursor_id, cache_id, density_cache_id, MAX_CURSOR_ID};
use rustdesk::cursor::linux::{
    ensure_complete_property, wayland_scale, Density, WaylandDisplay, X11Density,
    X11_SETTINGS_REFRESH_INTERVAL_MS,
};
use rustdesk::rate_control::{
    scale_bitrate_for_rate_control, supports_fps_aware_rate_control, RateControlError, DEFAULT_FPS,
};
use rustdesk::video_qos::{parse_clarity_fps, FPS, MIN_FPS};
use rustdesk::video_send_diag::{
    extract_video_send_diag, EncodedVideoFrame, VideoFrame, VideoFrames, VideoSendDiagnostics,
};
use std::collections::hash_map::DefaultHasher;
use std::hash::{Hash, Hasher};

const LOGICAL_BITRATE_KBPS: u32 = 2_543;
const NOMINAL_FPS: u32 = 30;
const RATE_CONTROL_FPS: u32 = 10;
const CUSTOM_CLARITY_FPS: u32 = 6;

#[test]
fn qsv_hardware_ram_encoder_supports_fps_aware_rate_control() {
    assert!(supports_fps_aware_rate_control("hevc_qsv"));
    assert!(!supports_fps_aware_rate_control("h264_vaapi"));
}

#[test]
fn lower_rate_control_fps_preserves_hardware_ram_frame_budget() {
    let configured_bitrate =
        scale_bitrate_for_rate_control(LOGICAL_BITRATE_KBPS, DEFAULT_FPS as u32, RATE_CONTROL_FPS)
            .unwrap();

    assert_eq!(configured_bitrate, 7_629);
    assert_eq!(
        configured_bitrate * RATE_CONTROL_FPS,
        LOGICAL_BITRATE_KBPS * DEFAULT_FPS as u32
    );
}

#[test]
fn zero_hardware_ram_frame_budget_is_rejected() {
    assert!(scale_bitrate_for_rate_control(LOGICAL_BITRATE_KBPS, DEFAULT_FPS as u32, 0).is_err());
}

#[test]
fn lower_rate_control_fps_preserves_logical_bandwidth_per_frame() {
    let configured_bitrate =
        scale_bitrate_for_rate_control(LOGICAL_BITRATE_KBPS, NOMINAL_FPS, RATE_CONTROL_FPS)
            .unwrap();

    assert_eq!(configured_bitrate, 7_629);
    assert_eq!(
        configured_bitrate * RATE_CONTROL_FPS,
        LOGICAL_BITRATE_KBPS * NOMINAL_FPS
    );
}

#[test]
fn zero_rate_control_fps_is_rejected() {
    assert!(scale_bitrate_for_rate_control(LOGICAL_BITRATE_KBPS, NOMINAL_FPS, 0).is_err());
    assert!(scale_bitrate_for_rate_control(LOGICAL_BITRATE_KBPS, 0, RATE_CONTROL_FPS).is_err());
}

#[test]
fn configured_bitrate_overflow_is_rejected() {
    assert!(scale_bitrate_for_rate_control(u32::MAX, u32::MAX, 1).is_err());
}

#[test]
fn rate_control_errors_are_told_apart() {
    assert_eq!(
        scale_bitrate_for_rate_control(1, 0, 1),
        Err(RateControlError::ZeroFrameRate)
    );
    assert_eq!(
        scale_bitrate_for_rate_control(u32::MAX, 2, 1),
        Err(RateControlError::BitrateOverflow)
    );
    assert_eq!(scale_bitrate_for_rate_control(10, 1, 3), Ok(3));
}

#[test]
fn clarity_fps_parser_accepts_only_supported_values() {
    assert_eq!(parse_clarity_fps("6").unwrap(), CUSTOM_CLARITY_FPS);
    assert_eq!(parse_clarity_fps("1").unwrap(), MIN_FPS);
    assert_eq!(parse_clarity_fps("30").unwrap(), FPS);
    assert!(parse_clarity_fps("0").is_err());
    assert!(parse_clarity_fps("31").is_err());
    assert!(parse_clarity_fps("invalid").is_err());
}

const ACTIVE_SAMPLES: [f32; 1] = [0.25];
const SILENT_SAMPLES: [f32; 1] = [0.0];

fn bits(samples: &[f32]) -> Vec<u32> {
    samples.iter().map(|sample| sample.to_bits()).collect()
}

#[test]
fn disabled_injection_never_drops_audio() {
    let mut injection = AudioFaultInjection::new(false);

    for _ in 0..200 {
        assert!(!injection.should_drop(&bits(&ACTIVE_SAMPLES)));
    }
}

#[test]
fn drops_five_active_packets_after_half_second_each_period() {
    let mut injection = AudioFaultInjection::new(true);

    let dropped: Vec<usize> = (0_usize..200)
        .filter(|_| injection.should_drop(&bits(&ACTIVE_SAMPLES)))
        .collect();

    assert_eq!(dropped, vec![50, 51, 52, 53, 54, 150, 151, 152, 153, 154]);
}

#[test]
fn silent_packets_do_not_advance_the_schedule() {
    let mut injection = AudioFaultInjection::new(true);

    for _ in 0..100 {
        assert!(!injection.should_drop(&bits(&SILENT_SAMPLES)));
    }

    let dropped: Vec<usize> = (0_usize..100)
        .filter(|_| injection.should_drop(&bits(&ACTIVE_SAMPLES)))
        .collect();

    assert_eq!(dropped, vec![50, 51, 52, 53, 54]);
}

#[test]
fn sample_patterns_follow_floating_point_order() {
    assert_eq!(0.01f32.to_bits(), ACTIVE_SAMPLE_THRESHOLD_BITS);
    for (sample, active) in [
        (0.01f32, true),
        (-0.01, true),
        (0.009_999, false),
        (-0.0, false),
        (f32::INFINITY, true),
        (f32::NAN, false),
        (-1.0, true),
    ] {
        let mut injection = AudioFaultInjection::new(true);
        injection.should_drop(&[0, sample.to_bits()]);
        assert_eq!(injection.active_packet_index == 1, active, "{sample}");
    }
}

#[test]
fn cursor_keeps_straight_alpha_for_legacy_receivers() {
    for (premultiplied, straight) in [
        ([128, 128, 128, 128], [255, 255, 255, 128]),
        ([64, 32, 16, 128], [128, 64, 32, 128]),
        ([240, 100, 20, 255], [240, 100, 20, 255]),
        ([0, 0, 0, 0], [0, 0, 0, 0]),
    ] {
        assert_eq!(straight_rgba(&premultiplied), straight);
    }
}

#[test]
fn incomplete_pixels_and_bright_channels() {
    assert_eq!(straight_rgba(&[200, 0, 0, 100, 7, 8]), vec![255, 0, 0, 100, 7, 8]);
    assert_eq!(straight_rgba(&[]), Vec::<u8>::new());
}

const STRAIGHT: [u8; 16] = [
    255, 255, 255, 128, 128, 64, 32, 128, 240, 100, 20, 255, 0, 0, 0, 0,
];
const PREMULTIPLIED: [u8; 16] = [
    128, 128, 128, 128, 64, 32, 16, 128, 240, 100, 20, 255, 0, 0, 0, 0,
];

#[test]
fn macos_density_packets_encode_straight_png_colors() {
    for scale in [1.0f64, 2.0] {
        let actual = png_colors(PREMULTIPLIED.to_vec(), scale.to_bits(), true);
        for (got, expected) in actual.chunks_exact(4).zip(STRAIGHT.chunks_exact(4)) {
            assert_eq!(got[3], expected[3]);
            for channel in 0..3 {
                assert!(got[channel].abs_diff(expected[channel]) <= 1, "{actual:?}");
            }
        }
    }
}

#[test]
fn legacy_and_non_macos_packets_keep_their_colors() {
    for (scale, is_macos) in [(0.0f64, true), (0.0, false), (2.0, false)] {
        assert_eq!(
            png_colors(STRAIGHT.to_vec(), scale.to_bits(), is_macos),
            STRAIGHT
        );
    }
    for scale in [-1.0f64, f64::NAN, -0.0] {
        assert_eq!(
            png_colors(PREMULTIPLIED.to_vec(), scale.to_bits(), true),
            PREMULTIPLIED
        );
    }
}

#[test]
fn x11_cursor_polls_reuse_density_until_refresh() {
    let two = 2.0f64.to_bits();
    let mut density = X11Density {
        last_check_ms: Some(1_000),
        scale_bits: Some(two),
    };
    for id in [1, 2] {
        assert_eq!(
            density.x11_cursor_id(id, 1_000 + X11_SETTINGS_REFRESH_INTERVAL_MS - 1, None),
            cache_id(id, two)
        );
    }
    assert_eq!(
        density.x11_cursor_id(1, 1_000 + X11_SETTINGS_REFRESH_INTERVAL_MS, None),
        cache_id(1, 0.0f64.to_bits())
    );
    assert_eq!(density.x11_cursor_scale(), 0.0f64.to_bits());
    assert!(!density.record(None));
    assert!(!density.record(Some(two)));
    assert!(density.record(None));
}

fn std_hash(value: impl Hash) -> u64 {
    let mut hasher = DefaultHasher::new();
    value.hash(&mut hasher);
    hasher.finish()
}

#[test]
fn cursor_cache_ids_come_from_the_standard_hash() {
    for (cursor, scale) in [(1u64, 1.0f64), (0x0102_0304_0506_0708, 1.5), (u64::MAX, -2.0)] {
        assert_eq!(
            density_cache_id(cursor, scale.to_bits()),
            std_hash((cursor, scale.to_bits())) % MAX_CURSOR_ID + 1
        );
    }
    assert_eq!(cache_id(7, (-0.0f64).to_bits()), 7);
}

#[test]
fn cursor_cache_ids_fit_legacy_web_numbers() {
    for cursor in [1, 123, u64::MAX] {
        assert_eq!(cache_id(cursor, 0.0f64.to_bits()), cursor);
        for scale in [1.0f64, 1.25, 2.0] {
            let id = cache_id(cursor, scale.to_bits());
            assert!((1..=9_007_199_254_740_991).contains(&id));
            assert_eq!(id, density_cache_id(cursor, scale.to_bits()));
            assert_ne!(id, cursor);
        }
    }
    assert_eq!(bounded_cursor_id(0), 1);
    assert_eq!(bounded_cursor_id(MAX_CURSOR_ID), 1);
    assert_eq!(bounded_cursor_id(MAX_CURSOR_ID - 1), MAX_CURSOR_ID);
}

#[test]
fn wayland_densities() {
    let display = WaylandDisplay {
        width: 3000,
        height: 2000,
        logical_size: Some((1500, 1000)),
        transform: 0,
        scale_factor: 1,
    };
    assert_eq!(
        wayland_scale(&display),
        Ok(Density::Known {
            pixels: 3000,
            units: 1500
        })
    );
    let turned = WaylandDisplay {
        transform: 270,
        logical_size: Some((1000, 1500)),
        ..display
    };
    assert_eq!(
        wayland_scale(&turned),
        Ok(Density::Known {
            pixels: 2000,
            units: 1000
        })
    );
    let physical = WaylandDisplay {
        logical_size: Some((3000, 2000)),
        scale_factor: 2,
        ..display
    };
    assert_eq!(
        wayland_scale(&physical),
        Ok(Density::Known {
            pixels: 2,
            units: 1
        })
    );
    let unknown = WaylandDisplay {
        logical_size: None,
        ..display
    };
    assert_eq!(wayland_scale(&unknown), Ok(Density::Unknown));
    let broken = WaylandDisplay {
        logical_size: Some((0, 1)),
        ..display
    };
    assert!(wayland_scale(&broken).is_err());
    assert!(ensure_complete_property(8, 0).is_ok());
    assert!(ensure_complete_property(32, 0).is_err());
    assert!(ensure_complete_property(8, 1).is_err());
}

#[test]
fn extracts_h265_metadata() {
    let key_frame = EncodedVideoFrame {
        data: b"key".to_vec(),
        key: true,
        pts: 10,
    };
    let delta_frame = EncodedVideoFrame {
        data: b"delta".to_vec(),
        key: false,
        pts: 20,
    };
    let video_frame = VideoFrame {
        display: 2,
        union: Some(VideoFrames::H265s(vec![key_frame, delta_frame])),
    };
    let diag = extract_video_send_diag(&video_frame, 40);

    assert_eq!(diag.display, 2);
    assert_eq!(diag.codec, "H265");
    assert!(diag.keyframe);
    assert_eq!(diag.packet_count, 2);
    assert_eq!(diag.payload_bytes, 8);
    assert_eq!(diag.first_pts, Some(10));
    assert_eq!(diag.last_pts, Some(20));
    assert!(diag.wire_bytes > diag.payload_bytes);

    let mut diagnostics = VideoSendDiagnostics::new(true);
    assert_eq!(diagnostics.start(Some(&video_frame), 40).unwrap().0, 1);
    assert!(diagnostics.start(None, 40).is_none());
    assert_eq!(diagnostics.start(Some(&video_frame), 40).unwrap().0, 2);
    assert!(VideoSendDiagnostics::new(false)
        .start(Some(&video_frame), 40)
        .is_none());
    let raw = VideoFrame {
        display: 0,
        union: Some(VideoFrames::Rgb),
    };
    let diag = extract_video_send_diag(&raw, 1);
    assert_eq!((diag.codec, diag.packet_count), ("RGB", 0));
    assert_eq!(diag.first_pts, None);
}

#[test]
fn bitmaps_are_counted_or_refused() {
    assert_eq!(bitmap_length(3, 5), Ok(60));
    assert_eq!(bitmap_length(0, 5), Ok(0));
    for (width, height) in [(usize::MAX, 2), (usize::MAX / 4 + 1, 1)] {
        assert_eq!(
            bitmap_length(width, height),
            Err("Cursor bitmap size overflow")
        );
    }
}
