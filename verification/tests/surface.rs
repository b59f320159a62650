use sprite_render::surface::{
    first_format, initialize, AlphaMode, BackendReport, InitError, PresentMode, Size,
    SurfaceConfig, TextureUsage,
};

fn config_800_600() -> SurfaceConfig {
    initialize(Size::new(800, 600), BackendReport::Ready { formats: 3 }).unwrap()
}

#[test]
fn initialize_gives_the_first_format_and_the_window_size() {
    let config = config_800_600();
    assert_eq!(
        config,
        SurfaceConfig {
            usage: TextureUsage {
                copy_src: false,
                copy_dst: false,
                texture_binding: false,
                storage_binding: false,
                render_attachment: true,
            },
            format: 0,
            width: 800,
            height: 600,
            present_mode: PresentMode::Fifo,
            alpha_mode: AlphaMode::Opaque,
        }
    );
    assert_eq!(config.current_size(), Size { width: 800, height: 600 });
}

#[test]
fn initialize_without_adapter_fails() {
    assert_eq!(
        initialize(Size::new(800, 600), BackendReport::NoAdapter),
        Err(InitError::NoAdapterFound)
    );
}

#[test]
fn initialize_with_refused_device_fails() {
    assert_eq!(
        initialize(Size::new(800, 600), BackendReport::DeviceRefused),
        Err(InitError::DeviceRequestFailed)
    );
}

#[test]
fn initialize_without_formats_fails() {
    assert_eq!(
        initialize(Size::new(800, 600), BackendReport::Ready { formats: 0 }),
        Err(InitError::NoSupportedFormat)
    );
}

#[test]
fn initialize_reports_failures_for_an_empty_window_too() {
    for size in [Size::new(0, 0), Size::new(0, 600), Size::new(800, 0)] {
        assert_eq!(initialize(size, BackendReport::NoAdapter), Err(InitError::NoAdapterFound));
        assert_eq!(
            initialize(size, BackendReport::DeviceRefused),
            Err(InitError::DeviceRequestFailed)
        );
        assert_eq!(
            initialize(size, BackendReport::Ready { formats: 0 }),
            Err(InitError::NoSupportedFormat)
        );
    }
}

#[test]
fn only_a_ready_backend_with_a_format_configures() {
    assert!(BackendReport::Ready { formats: 1 }.will_configure());
    assert!(BackendReport::Ready { formats: 5 }.will_configure());
    assert!(!BackendReport::Ready { formats: 0 }.will_configure());
    assert!(!BackendReport::NoAdapter.will_configure());
    assert!(!BackendReport::DeviceRefused.will_configure());
}

#[test]
fn first_format_is_index_zero() {
    assert_eq!(first_format(1), Ok(0));
    assert_eq!(first_format(7), Ok(0));
    assert_eq!(first_format(0), Err(InitError::NoSupportedFormat));
}

#[test]
fn size_is_drawable_only_with_two_non_zero_dimensions() {
    assert!(Size::new(1, 1).drawable());
    assert!(!Size::new(0, 1).drawable());
    assert!(!Size::new(1, 0).drawable());
    assert!(!Size::new(0, 0).drawable());
}

#[test]
fn resize_to_a_drawable_size_stores_it() {
    let mut config = config_800_600();
    assert!(config.resize(Size::new(1024, 768)));
    assert_eq!(config.width, 1024);
    assert_eq!(config.height, 768);
    assert_eq!(config.format, 0);
    assert_eq!(config.present_mode, PresentMode::Fifo);
    assert_eq!(config.alpha_mode, AlphaMode::Opaque);
    assert!(config.resize(Size::new(1, u32::MAX)));
    assert_eq!(config.current_size(), Size::new(1, u32::MAX));
}

#[test]
fn resize_with_a_zero_dimension_is_ignored() {
    let mut config = config_800_600();
    let before = config;
    assert!(!config.resize(Size::new(0, 768)));
    assert_eq!(config, before);
    assert!(!config.resize(Size::new(1024, 0)));
    assert_eq!(config, before);
    assert!(!config.resize(Size::new(0, 0)));
    assert_eq!(config, before);
}

#[test]
fn resize_twice_to_the_same_size_is_idempotent() {
    let mut config = config_800_600();
    assert!(config.resize(Size::new(640, 480)));
    let once = config;
    assert!(config.resize(Size::new(640, 480)));
    assert_eq!(config, once);
}
