use frame_loop::{PixelFormat, PresentMode, Size, SurfaceConfig, SurfaceManager};

#[test]
fn size_new_holds_both_sides() {
    let size = Size::new(800, 600);
    assert_eq!(size.width, 800);
    assert_eq!(size.height, 600);
    assert_eq!(size, Size { width: 800, height: 600 });
}

#[test]
fn size_is_presentable_needs_both_sides() {
    assert!(Size::new(1, 1).is_presentable());
    assert!(Size::new(u32::MAX, u32::MAX).is_presentable());
    assert!(!Size::new(0, 0).is_presentable());
    assert!(!Size::new(0, 600).is_presentable());
    assert!(!Size::new(800, 0).is_presentable());
}

#[test]
fn config_new_is_bgra_srgb_fifo() {
    let config = SurfaceConfig::new(Size::new(1280, 720));
    assert_eq!(
        config,
        SurfaceConfig {
            width: 1280,
            height: 720,
            format: PixelFormat::Bgra8UnormSrgb,
            present_mode: PresentMode::Fifo,
        }
    );
}

#[test]
fn config_size_gives_extent_back() {
    let config = SurfaceConfig::new(Size::new(3, 5));
    assert_eq!(config.size(), Size { width: 3, height: 5 });
}

#[test]
fn config_resized_keeps_format_and_mode() {
    let config = SurfaceConfig {
        width: 10,
        height: 20,
        format: PixelFormat::Rgba8Unorm,
        present_mode: PresentMode::Mailbox,
    };
    let moved = config.resized(Size::new(30, 40));
    assert_eq!(
        moved,
        SurfaceConfig {
            width: 30,
            height: 40,
            format: PixelFormat::Rgba8Unorm,
            present_mode: PresentMode::Mailbox,
        }
    );
    assert_eq!(config.width, 10);
    assert_eq!(config.height, 20);
}

#[test]
fn manager_new_is_configured_for_the_size() {
    let manager = SurfaceManager::new(Size::new(640, 480));
    assert_eq!(manager.size(), Size { width: 640, height: 480 });
    assert_eq!(manager.config(), SurfaceConfig::new(Size::new(640, 480)));
}

#[test]
fn manager_reconfigure_follows_the_window() {
    let mut manager = SurfaceManager::new(Size::new(640, 480));
    let config = manager.reconfigure(Size::new(1920, 1080));
    assert_eq!(
        config,
        SurfaceConfig {
            width: 1920,
            height: 1080,
            format: PixelFormat::Bgra8UnormSrgb,
            present_mode: PresentMode::Fifo,
        }
    );
    assert_eq!(manager.size(), Size { width: 1920, height: 1080 });
    assert_eq!(manager.config(), config);
}

#[test]
fn manager_reconfigure_twice_is_once() {
    let mut once = SurfaceManager::new(Size::new(1, 1));
    let first = once.reconfigure(Size::new(300, 200));
    let mut twice = once;
    let second = twice.reconfigure(Size::new(300, 200));
    let third = twice.reconfigure(Size::new(300, 200));
    assert_eq!(first, second);
    assert_eq!(second, third);
    assert_eq!(once, twice);
}

#[test]
fn manager_reconfigure_takes_an_empty_size() {
    let mut manager = SurfaceManager::new(Size::new(640, 480));
    let config = manager.reconfigure(Size::new(0, 0));
    assert_eq!(config.width, 0);
    assert_eq!(config.height, 0);
    assert_eq!(config.format, PixelFormat::Bgra8UnormSrgb);
    assert_eq!(config.present_mode, PresentMode::Fifo);
    assert!(!manager.size().is_presentable());
}

#[test]
fn manager_reconfigure_takes_the_largest_size() {
    let mut manager = SurfaceManager::new(Size::new(0, 0));
    manager.reconfigure(Size::new(u32::MAX, u32::MAX));
    assert_eq!(manager.config().size(), Size { width: u32::MAX, height: u32::MAX });
}
