use obs_shell::graphics::context::{choose_surface_config, GraphicsError, PhysicalSize};
use obs_shell::graphics::texture::texture_size_ok;
use wgpu::{CompositeAlphaMode, PresentMode, TextureFormat};

fn size(width: u32, height: u32) -> PhysicalSize {
    PhysicalSize { width, height }
}

#[test]
fn first_reported_modes_are_chosen() {
    let formats = vec![TextureFormat::Bgra8UnormSrgb, TextureFormat::Rgba8Unorm];
    let alphas = vec![CompositeAlphaMode::Opaque, CompositeAlphaMode::PreMultiplied];
    let presents = vec![PresentMode::Mailbox, PresentMode::Fifo];
    let c = match choose_surface_config(&formats, &alphas, &presents, size(800, 600), 8192) {
        Ok(c) => c,
        Err(_) => panic!("expected a configuration"),
    };
    assert_eq!(c.format, TextureFormat::Bgra8UnormSrgb);
    assert_eq!(c.alpha_mode, CompositeAlphaMode::Opaque);
    assert_eq!(c.present_mode, PresentMode::Mailbox);
    assert_eq!((c.width, c.height), (800, 600));
}

#[test]
fn zero_or_oversized_surface_is_refused() {
    let formats = vec![TextureFormat::Bgra8UnormSrgb];
    let alphas = vec![CompositeAlphaMode::Opaque];
    let presents = vec![PresentMode::Fifo];
    for s in [size(0, 600), size(800, 0), size(8193, 600), size(800, 8193)] {
        assert!(matches!(
            choose_surface_config(&formats, &alphas, &presents, s, 8192),
            Err(GraphicsError::InvalidSize)
        ));
    }
    assert!(choose_surface_config(&formats, &alphas, &presents, size(8192, 8192), 8192).is_ok());
}

#[test]
fn surface_without_formats_is_refused() {
    let alphas = vec![CompositeAlphaMode::Opaque];
    let presents = vec![PresentMode::Fifo];
    assert!(matches!(
        choose_surface_config(&vec![], &alphas, &presents, size(10, 10), 8192),
        Err(GraphicsError::NoSurfaceFormat)
    ));
    assert!(matches!(
        choose_surface_config(&vec![TextureFormat::Rgba8Unorm], &vec![], &presents, size(10, 10), 8192),
        Err(GraphicsError::NoSurfaceFormat)
    ));
    assert!(matches!(
        choose_surface_config(&vec![TextureFormat::Rgba8Unorm], &alphas, &vec![], size(10, 10), 8192),
        Err(GraphicsError::NoSurfaceFormat)
    ));
}

#[test]
fn texture_sizes() {
    assert!(texture_size_ok(640, 480, 2048));
    assert!(texture_size_ok(2048, 1, 2048));
    assert!(!texture_size_ok(0, 480, 2048));
    assert!(!texture_size_ok(640, 0, 2048));
    assert!(!texture_size_ok(2049, 480, 2048));
    assert!(!texture_size_ok(u32::MAX / 4 + 1, 1, u32::MAX));
    assert!(texture_size_ok(u32::MAX / 4, 1, u32::MAX));
}
