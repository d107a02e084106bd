use sbtltv::mpv::render_loop::{
    capture_interval, FrameData, RenderLoop, RenderTarget, Rendered, Step, Work, JPEG_QUALITY,
};
use sbtltv::mpv::renderer::OffscreenRenderer;
use sbtltv::platform::{get_platform, Platform, PlatformInfo};
use sbtltv::text::{decimal_string, join2, signed_decimal_string, text_eq};
use sbtltv::window_cmds::{
    window_close, window_get_size, window_maximize, window_minimize, window_set_size, WindowAction,
};

#[test]
fn capture_interval_follows_the_source() {
    assert_eq!(capture_interval(Some(24000)), 41);
    assert_eq!(capture_interval(Some(23976)), 41);
    assert_eq!(capture_interval(Some(25000)), 40);
    assert_eq!(capture_interval(Some(30000)), 33);
    assert_eq!(capture_interval(Some(50000)), 20);
}

#[test]
fn capture_interval_defaults_and_clamps() {
    assert_eq!(capture_interval(None), 33);
    assert_eq!(capture_interval(Some(0)), 33);
    assert_eq!(capture_interval(Some(1)), 100);
    assert_eq!(capture_interval(Some(10000)), 100);
    assert_eq!(capture_interval(Some(60000)), 16);
    assert_eq!(capture_interval(Some(240000)), 16);
    assert_eq!(capture_interval(Some(u64::MAX)), 16);
    assert_eq!(JPEG_QUALITY, 80);
}

#[test]
fn loop_starts_at_the_default_rate() {
    let state = RenderLoop::new(true, 1000);
    assert_eq!(
        state,
        RenderLoop {
            framebuffer_ok: true,
            frame_interval: 33,
            last_frame: 1000,
            last_status: 1000,
            last_rate_check: 1000
        }
    );
}

#[test]
fn iteration_begins() {
    let ok = RenderLoop::new(true, 0);
    assert_eq!(ok.begin(10, true, true), Step { stop: true, render: None, query_rate: false });
    assert_eq!(
        ok.begin(10, false, true),
        Step { stop: false, render: Some(RenderTarget::Framebuffer), query_rate: false }
    );
    assert_eq!(ok.begin(999, false, false), Step { stop: false, render: None, query_rate: false });
    assert_eq!(ok.begin(1000, false, false), Step { stop: false, render: None, query_rate: true });
    let bad = RenderLoop::new(false, 0);
    assert_eq!(
        bad.begin(10, false, true),
        Step { stop: false, render: Some(RenderTarget::Discard), query_rate: false }
    );
}

#[test]
fn frames_are_throttled_and_status_has_its_own_cadence() {
    let mut state = RenderLoop::new(true, 0);
    let idle = Work { capture: false, poll_status: false, sleep_millis: 8 };
    assert_eq!(state.finish(8, Rendered::Done, None), idle);
    assert_eq!(state.finish(32, Rendered::Done, None), idle);
    assert_eq!(state.finish(33, Rendered::Done, None), Work { capture: true, ..idle });
    assert_eq!(state.last_frame, 33);
    assert_eq!(state.finish(65, Rendered::Skipped, None), idle);
    assert_eq!(state.finish(66, Rendered::Skipped, None), Work { capture: true, ..idle });
    assert_eq!(state.finish(100, Rendered::Skipped, None), Work { capture: true, poll_status: true, ..idle });
    assert_eq!(state.last_status, 100);
    assert_eq!(state.finish(120, Rendered::Done, None), idle);
    assert_eq!(state.finish(90, Rendered::Done, None), idle);
}

#[test]
fn rate_answers_set_the_interval() {
    let mut state = RenderLoop::new(true, 0);
    let work = state.finish(1000, Rendered::Done, Some(Some(24000)));
    assert!(work.capture && work.poll_status);
    assert_eq!(state.frame_interval, 41);
    assert_eq!(state.last_rate_check, 1000);
    assert!(!state.finish(1040, Rendered::Done, None).capture);
    assert!(state.finish(1041, Rendered::Done, None).capture);
    let _ = state.finish(2041, Rendered::Done, Some(None));
    assert_eq!(state.frame_interval, 33);
    let _ = state.finish(3041, Rendered::Done, Some(Some(0)));
    assert_eq!(state.frame_interval, 33);
    let _ = state.finish(4041, Rendered::Done, Some(Some(500000)));
    assert_eq!(state.frame_interval, 16);
}

#[test]
fn failed_render_skips_the_iteration() {
    let mut state = RenderLoop::new(true, 0);
    let before = state;
    let work = state.finish(5000, Rendered::Failed, Some(Some(60000)));
    assert_eq!(work, Work { capture: false, poll_status: false, sleep_millis: 8 });
    assert_eq!(state, before);
}

#[test]
fn unusable_framebuffer_never_captures() {
    let mut state = RenderLoop::new(false, 0);
    let work = state.finish(5000, Rendered::Done, Some(Some(24000)));
    assert_eq!(work, Work { capture: false, poll_status: true, sleep_millis: 8 });
    assert!(!state.framebuffer_ok);
}

#[test]
fn frame_is_base64() {
    let frame = FrameData::encode(2, 1, &b"hello".to_vec());
    assert_eq!((frame.width, frame.height), (2, 1));
    assert_eq!(frame.jpeg, "aGVsbG8=");
    assert_eq!(FrameData::encode(0, 0, &Vec::new()).jpeg, "");
    assert_eq!(FrameData::encode(1, 1, &vec![0xff, 0xd8, 0xff]).jpeg, "/9j/");
    assert_eq!(FrameData::encode(1, 1, &vec![0xfb, 0xf0]).jpeg, "+/A=");
}

#[test]
fn renderer_keeps_four_bytes_a_pixel() {
    let mut r = OffscreenRenderer::new(1920, 1080, 3, 4, true);
    assert_eq!((r.width(), r.height()), (1920, 1080));
    assert_eq!((r.fbo(), r.texture(), r.is_complete()), (3, 4, true));
    assert!(!OffscreenRenderer::new(1, 1, 0, 0, false).is_complete());
    assert_eq!(r.pixel_buffer().len(), 1920 * 1080 * 4);
    assert!(r.pixel_buffer().iter().all(|b| *b == 0));
    assert!(!r.resize(1920, 1080));
    assert!(r.resize(2, 2));
    assert_eq!(r.pixel_buffer().len(), 16);
    assert!(!r.read_pixels(vec![1; 15]));
    assert!(r.read_pixels(vec![7; 16]));
    assert!(r.resize(3, 2));
    assert_eq!((r.width(), r.height()), (3, 2));
    let mut expected = vec![7u8; 16];
    expected.extend(vec![0u8; 8]);
    assert_eq!(r.pixel_buffer(), &expected);
    assert_eq!((r.fbo(), r.texture(), r.is_complete()), (3, 4, true));
    assert!(r.resize(0, 5));
    assert!(r.pixel_buffer().is_empty());
}

#[test]
fn renderer_size_limit() {
    assert!(OffscreenRenderer::fits(1920, 1080));
    assert!(OffscreenRenderer::fits(32767, 32767));
    assert!(!OffscreenRenderer::fits(32768, 32768));
    assert!(!OffscreenRenderer::fits(u32::MAX, u32::MAX));
    assert!(OffscreenRenderer::fits(u32::MAX, 0));
}

#[test]
fn decimal_numerals() {
    assert_eq!(decimal_string(0), "0");
    assert_eq!(decimal_string(9), "9");
    assert_eq!(decimal_string(10), "10");
    assert_eq!(decimal_string(1234567890), "1234567890");
    assert_eq!(decimal_string(u64::MAX), "18446744073709551615");
    assert_eq!(signed_decimal_string(0), "0");
    assert_eq!(signed_decimal_string(-1), "-1");
    assert_eq!(signed_decimal_string(i64::MAX), "9223372036854775807");
    assert_eq!(signed_decimal_string(i64::MIN), "-9223372036854775808");
}

#[test]
fn text_helpers() {
    assert!(text_eq("success", "success"));
    assert!(!text_eq("success", "Success"));
    assert!(!text_eq("", "x"));
    assert_eq!(join2("a", "b"), "ab");
    assert_eq!(join2("", ""), "");
}

#[test]
fn platform_flags() {
    assert_eq!(
        get_platform(Platform::Windows),
        PlatformInfo { is_windows: true, is_mac: false, is_linux: false }
    );
    assert_eq!(
        get_platform(Platform::MacOs),
        PlatformInfo { is_windows: false, is_mac: true, is_linux: false }
    );
    assert_eq!(
        get_platform(Platform::Linux),
        PlatformInfo { is_windows: false, is_mac: false, is_linux: true }
    );
}

#[test]
fn window_commands_need_a_window() {
    let missing = Err("No main window".to_string());
    assert_eq!(window_minimize(false), missing);
    assert_eq!(window_maximize(false, Some(true)), missing);
    assert_eq!(window_close(false), missing);
    assert_eq!(window_set_size(false, 800, 800), missing);
    assert_eq!(window_get_size(false, Ok((1, 2))), Err("No main window".to_string()));
}

#[test]
fn window_commands_with_a_window() {
    assert_eq!(window_minimize(true), Ok(WindowAction::Minimize));
    assert_eq!(window_close(true), Ok(WindowAction::Close));
    assert_eq!(window_maximize(true, Some(true)), Ok(WindowAction::Unmaximize));
    assert_eq!(window_maximize(true, Some(false)), Ok(WindowAction::Maximize));
    assert_eq!(window_maximize(true, None), Ok(WindowAction::Maximize));
    assert_eq!(window_get_size(true, Ok((1280, 720))), Ok((1280, 720)));
    assert_eq!(window_get_size(true, Err("gone".to_string())), Err("gone".to_string()));
}

#[test]
fn window_size_has_a_floor() {
    assert_eq!(window_set_size(true, 100, 100), Ok(WindowAction::SetSize { width: 640, height: 620 }));
    assert_eq!(window_set_size(true, 640, 620), Ok(WindowAction::SetSize { width: 640, height: 620 }));
    assert_eq!(window_set_size(true, 1920, 619), Ok(WindowAction::SetSize { width: 1920, height: 620 }));
    assert_eq!(window_set_size(true, 639, 1080), Ok(WindowAction::SetSize { width: 640, height: 1080 }));
    assert_eq!(
        window_set_size(true, u32::MAX, u32::MAX),
        Ok(WindowAction::SetSize { width: u32::MAX, height: u32::MAX })
    );
}
