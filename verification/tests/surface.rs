use rostig::surface::PresentMode;
use rostig::surface::SurfaceFormat;
use rostig::surface::SurfaceState;
use rostig::surface::WindowSize;
use rostig::surface::choose_format;
use rostig::surface::choose_present_mode;

fn fmt(id: u32, is_srgb: bool) -> SurfaceFormat {
    SurfaceFormat { id, is_srgb }
}

fn size(width: u32, height: u32) -> WindowSize {
    WindowSize { width, height }
}

#[test]
fn format_prefers_first_srgb() {
    let formats = vec![fmt(1, false), fmt(2, true), fmt(3, true)];
    assert_eq!(choose_format(&formats), fmt(2, true));
}

#[test]
fn format_falls_back_to_first() {
    let formats = vec![fmt(4, false), fmt(5, false)];
    assert_eq!(choose_format(&formats), fmt(4, false));
}

#[test]
fn format_single_srgb() {
    let formats = vec![fmt(8, true)];
    assert_eq!(choose_format(&formats), fmt(8, true));
}

#[test]
fn present_mode_prefers_mailbox() {
    let modes = vec![PresentMode::Fifo, PresentMode::Immediate, PresentMode::Mailbox];
    assert_eq!(choose_present_mode(&modes), PresentMode::Mailbox);
}

#[test]
fn present_mode_falls_back_to_fifo() {
    let modes = vec![PresentMode::Immediate, PresentMode::AutoVsync];
    assert_eq!(choose_present_mode(&modes), PresentMode::Fifo);
}

#[test]
fn present_mode_empty_capabilities_give_fifo() {
    let modes: Vec<PresentMode> = vec![];
    assert_eq!(choose_present_mode(&modes), PresentMode::Fifo);
}

#[test]
fn initialize_with_window_size() {
    // Initialization with a 450 x 400 window: the configuration carries the
    // size, the first sRGB format, and the first alpha mode.
    let formats = vec![fmt(10, false), fmt(11, true)];
    let modes = vec![PresentMode::Fifo];
    let alphas = vec![6, 7];
    let s = SurfaceState::new(&formats, &modes, &alphas, size(450, 400));
    assert_eq!(s.config.width, 450);
    assert_eq!(s.config.height, 400);
    assert_eq!(s.config.format, fmt(11, true));
    assert_eq!(s.config.present_mode, PresentMode::Fifo);
    assert_eq!(s.config.alpha_mode, 6);
    assert_eq!(s.size, size(450, 400));
}

#[test]
fn initialize_without_srgb_takes_first_format() {
    let formats = vec![fmt(20, false), fmt(21, false)];
    let modes = vec![PresentMode::Mailbox, PresentMode::Fifo];
    let alphas = vec![1];
    let s = SurfaceState::new(&formats, &modes, &alphas, size(640, 480));
    assert_eq!(s.config.format, fmt(20, false));
    assert_eq!(s.config.present_mode, PresentMode::Mailbox);
}

#[test]
fn resize_with_zero_dimension_is_a_noop() {
    let formats = vec![fmt(1, true)];
    let modes = vec![PresentMode::Fifo];
    let alphas = vec![0];
    let mut s = SurfaceState::new(&formats, &modes, &alphas, size(300, 200));
    let before = s;
    assert!(!s.resize(size(0, 100)));
    assert_eq!(s, before);
    assert!(!s.resize(size(100, 0)));
    assert_eq!(s, before);
    assert!(!s.resize(size(0, 0)));
    assert_eq!(s, before);
}

#[test]
fn valid_resize_updates_configuration() {
    let formats = vec![fmt(1, true)];
    let modes = vec![PresentMode::Fifo];
    let alphas = vec![0];
    let mut s = SurfaceState::new(&formats, &modes, &alphas, size(300, 200));
    assert!(s.resize(size(800, 600)));
    assert_eq!(s.config.width, 800);
    assert_eq!(s.config.height, 600);
    assert_eq!(s.size, size(800, 600));
    assert_eq!(s.config.format, fmt(1, true));
}

#[test]
fn last_valid_resize_wins() {
    let formats = vec![fmt(1, true)];
    let modes = vec![PresentMode::Fifo];
    let alphas = vec![0];
    let mut s = SurfaceState::new(&formats, &modes, &alphas, size(100, 100));
    assert!(s.resize(size(640, 480)));
    assert!(s.resize(size(1024, 768)));
    assert!(s.resize(size(1920, 1080)));
    assert_eq!(s.config.width, 1920);
    assert_eq!(s.config.height, 1080);
}

#[test]
fn resize_sequence_with_trailing_degenerate_event() {
    // Two consecutive resize events, (800, 600) then (0, 0): the
    // configuration reflects (800, 600), the second event is a no-op.
    let formats = vec![fmt(1, true)];
    let modes = vec![PresentMode::Fifo];
    let alphas = vec![0];
    let mut s = SurfaceState::new(&formats, &modes, &alphas, size(450, 400));
    assert!(s.resize(size(800, 600)));
    assert!(!s.resize(size(0, 0)));
    assert_eq!(s.config.width, 800);
    assert_eq!(s.config.height, 600);
    assert_eq!(s.size, size(800, 600));
}
