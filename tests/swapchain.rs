use vkrender::error::SetupError;
use vkrender::swapchain::{
    is_flags_supported, is_mode_supported, negotiate, Extent2D, PresentMode, SurfaceCaps,
    SwapchainCfg, COLOR_SPACE_SRGB_NONLINEAR, USAGE_COLOR_ATTACHMENT,
};

fn caps() -> SurfaceCaps {
    SurfaceCaps {
        formats: vec![50, 44],
        present_modes: vec![PresentMode::Mailbox, PresentMode::Fifo],
        usage_flags: 0x1f,
        min_image_count: 2,
        max_image_count: 8,
        current_extent: Extent2D { width: 800, height: 600 },
        current_transform: 1,
        alpha_modes: vec![1, 8],
    }
}

#[test]
fn negotiation_picks_first_and_least() {
    let cfg = negotiate(&caps()).unwrap();
    assert_eq!(
        cfg,
        SwapchainCfg {
            num_of_images: 2,
            format: 50,
            color_space: COLOR_SPACE_SRGB_NONLINEAR,
            present_mode: PresentMode::Fifo,
            usage: USAGE_COLOR_ATTACHMENT,
            extent: Extent2D { width: 800, height: 600 },
            transform: 1,
            alpha: 1,
        }
    );
}

#[test]
fn image_count_within_bounds() {
    let c = caps();
    let cfg = negotiate(&c).unwrap();
    assert!(cfg.num_of_images >= c.min_image_count);
    assert!(cfg.num_of_images <= c.max_image_count);
    let mut unbounded = caps();
    unbounded.max_image_count = 0;
    unbounded.min_image_count = 3;
    assert_eq!(negotiate(&unbounded).unwrap().num_of_images, 3);
}

#[test]
fn negotiation_fails_without_fifo() {
    let mut c = caps();
    c.present_modes = vec![PresentMode::Immediate, PresentMode::Mailbox, PresentMode::FifoRelaxed];
    assert_eq!(negotiate(&c), Err(SetupError::FifoUnsupported));
    assert_eq!(negotiate(&c), Err(SetupError::FifoUnsupported));
    c.usage_flags = 0;
    assert_eq!(negotiate(&c), Err(SetupError::FifoUnsupported));
}

#[test]
fn negotiation_fails_without_color_attachment() {
    let mut c = caps();
    c.usage_flags = 0x0f;
    assert_eq!(negotiate(&c), Err(SetupError::ColorAttachmentUnsupported));
    assert_eq!(negotiate(&c), Err(SetupError::ColorAttachmentUnsupported));
}

#[test]
fn negotiation_fails_without_format() {
    let mut c = caps();
    c.formats = vec![];
    assert_eq!(negotiate(&c), Err(SetupError::NoSurfaceFormat));
}

#[test]
fn negotiation_fails_without_alpha_mode() {
    let mut c = caps();
    c.alpha_modes = vec![];
    assert_eq!(negotiate(&c), Err(SetupError::NoAlphaComposition));
}

#[test]
fn mode_and_flag_queries() {
    let c = caps();
    assert!(is_mode_supported(&c, PresentMode::Fifo));
    assert!(!is_mode_supported(&c, PresentMode::Immediate));
    assert!(is_flags_supported(&c, 0x10));
    assert!(is_flags_supported(&c, 0x11));
    assert!(!is_flags_supported(&c, 0x30));
}
