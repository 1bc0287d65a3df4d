use reverie::command_pools::Pools;
use reverie::pipeline::Pipeline;
use reverie::release::ReleaseStep;
use reverie::swapchain::{Extent2D, SurfaceFormat, SwapchainConfig, SwapchainError, VulkanSwapchain};

fn config() -> SwapchainConfig {
    SwapchainConfig {
        min_image_count: 2,
        surface_format: SurfaceFormat { format: 44, color_space: 0 },
        extent: Extent2D { width: 640, height: 480 },
        pre_transform: 1,
    }
}

fn two_images() -> VulkanSwapchain {
    VulkanSwapchain::new(config(), 9, vec![1, 2], vec![11, 12], vec![21, 22], vec![31, 32], vec![41, 42]).unwrap()
}

#[test]
fn swapchain_parts_must_match() {
    assert_eq!(
        VulkanSwapchain::new(config(), 9, vec![], vec![], vec![], vec![], vec![]).err(),
        Some(SwapchainError::NoImages)
    );
    assert_eq!(
        VulkanSwapchain::new(config(), 9, vec![1, 2], vec![11, 12], vec![21], vec![31, 32], vec![41, 42]).err(),
        Some(SwapchainError::CountMismatch)
    );
    let sc = two_images();
    assert_eq!(sc.image_count, 2);
    assert_eq!(sc.current_image, 0);
    assert!(sc.framebuffers.is_empty());
    assert_eq!(sc.extent, Extent2D { width: 640, height: 480 });
}

#[test]
fn framebuffers_once_per_image() {
    let mut sc = two_images();
    assert_eq!(sc.create_framebuffers(vec![51]), Err(SwapchainError::CountMismatch));
    assert!(sc.framebuffers.is_empty());
    assert_eq!(sc.create_framebuffers(vec![51, 52]), Ok(()));
    assert_eq!(sc.framebuffers, vec![51, 52]);
    assert_eq!(sc.create_framebuffers(vec![53, 54]), Err(SwapchainError::FramebuffersExist));
}

#[test]
fn frame_slot_wraps() {
    let mut sc = two_images();
    sc.advance_frame_slot();
    assert_eq!(sc.current_image, 1);
    sc.advance_frame_slot();
    assert_eq!(sc.current_image, 0);
}

#[test]
fn swapchain_cleanup_order() {
    let mut sc = two_images();
    sc.create_framebuffers(vec![51, 52]).unwrap();
    assert_eq!(
        sc.cleanup(),
        vec![
            ReleaseStep::DestroyFence(41),
            ReleaseStep::DestroyFence(42),
            ReleaseStep::DestroySemaphore(21),
            ReleaseStep::DestroySemaphore(22),
            ReleaseStep::DestroySemaphore(31),
            ReleaseStep::DestroySemaphore(32),
            ReleaseStep::DestroyFramebuffer(51),
            ReleaseStep::DestroyFramebuffer(52),
            ReleaseStep::DestroyImageView(11),
            ReleaseStep::DestroyImageView(12),
            ReleaseStep::DestroySwapchain(9),
        ]
    );
}

#[test]
fn pipeline_and_pool_cleanup() {
    assert_eq!(
        Pipeline { pipeline: 5, layout: 6 }.cleanup(),
        vec![ReleaseStep::DestroyPipeline(5), ReleaseStep::DestroyPipelineLayout(6)]
    );
    let pools = Pools::new(7, 8);
    assert_eq!(pools.cleanup(), vec![ReleaseStep::DestroyCommandPool(7), ReleaseStep::DestroyCommandPool(8)]);
}
