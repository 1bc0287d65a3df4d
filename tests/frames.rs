use reverie::driver::{Action, Event, FatalError, FrameDriver, Phase};
use reverie::lifecycle::{recreation_stages, shutdown_stages, Stage};
use reverie::swapchain::{
    choose_image_count, plan_swapchain, Extent2D, SurfaceCapabilities, SurfaceFormat, VulkanSwapchain,
};

fn caps(min: u32, max: u32) -> SurfaceCapabilities {
    SurfaceCapabilities {
        min_image_count: min,
        max_image_count: max,
        current_extent: Extent2D { width: 800, height: 600 },
        current_transform: 1,
    }
}

const FORMATS: [SurfaceFormat; 2] =
    [SurfaceFormat { format: 44, color_space: 0 }, SurfaceFormat { format: 50, color_space: 0 }];

/// A swapchain as a device that grants exactly the asked image count would create it.
fn build_swapchain(c: SurfaceCapabilities, generation: u64) -> VulkanSwapchain {
    let config = plan_swapchain(c, &FORMATS).unwrap();
    let n = config.min_image_count as u64;
    let ids = |base: u64| (0..n).map(|i| generation * 10_000 + base + i).collect::<Vec<u64>>();
    let mut sc = VulkanSwapchain::new(config, generation, ids(100), ids(200), ids(300), ids(400), ids(500)).unwrap();
    sc.create_framebuffers(ids(600)).unwrap();
    sc
}

/// A simulated device: per frame slot, whether a submission's fence is
/// still unsignaled, and whether it was observed since.
struct Gpu {
    pending: Vec<bool>,
    records: usize,
    recreations: usize,
    timeouts: usize,
}

impl Gpu {
    fn new(n: usize) -> Gpu {
        Gpu { pending: vec![false; n], records: 0, recreations: 0, timeouts: 0 }
    }
}

/// Runs one tick; `acquire_out_of_date` makes the acquire report an out-of-date
/// surface. Returns the slot the tick started at and the actions taken.
fn tick(
    driver: &mut FrameDriver,
    sc: &mut VulkanSwapchain,
    gpu: &mut Gpu,
    c: SurfaceCapabilities,
    acquire_out_of_date: bool,
) -> (usize, Vec<Action>) {
    let start_slot = sc.current_image;
    let mut actions = vec![];
    let mut event = Event::Tick;
    let mut next_image = (sc.current_image + 1) % sc.image_count;
    loop {
        let action = driver.step(sc, event);
        actions.push(action);
        event = match action {
            Action::AcquireImage { .. } => {
                if acquire_out_of_date {
                    Event::AcquireOutOfDate
                } else {
                    next_image = (next_image + sc.image_count - 1) % sc.image_count;
                    Event::Acquired { image_index: next_image as u32 }
                }
            }
            Action::WaitForFence { slot } => {
                // the GPU finishes the slot's earlier work
                gpu.pending[slot] = false;
                Event::FenceSignaled
            }
            Action::Record { slot } => {
                assert!(!gpu.pending[slot], "recorded while slot {} was in flight", slot);
                gpu.records += 1;
                Event::Recorded
            }
            Action::ResetFenceAndSubmit { slot, image_index } => {
                assert!(image_index < sc.image_count);
                gpu.pending[slot] = true;
                Event::Submitted
            }
            Action::Present { .. } => Event::Presented,
            Action::Recreate => {
                gpu.recreations += 1;
                assert_eq!(recreation_stages()[0], Stage::WaitIdle);
                *sc = build_swapchain(c, gpu.recreations as u64);
                *gpu = Gpu { pending: vec![false; sc.image_count], ..*gpu };
                driver.finish_recreation(sc);
                return (start_slot, actions);
            }
            Action::FrameDone => return (start_slot, actions),
            Action::Abort(e) => {
                if e == FatalError::Timeout {
                    gpu.timeouts += 1;
                }
                return (start_slot, actions);
            }
        };
    }
}

#[test]
fn image_count_choice() {
    assert_eq!(choose_image_count(caps(2, 4)), 3);
    assert_eq!(choose_image_count(caps(1, 2)), 2);
    assert_eq!(choose_image_count(caps(4, 8)), 4);
    assert_eq!(choose_image_count(caps(2, 0)), 3);
    assert_eq!(choose_image_count(caps(5, 0)), 5);
    assert_eq!(choose_image_count(caps(3, 3)), 3);
}

#[test]
fn plan_takes_first_format() {
    let plan = plan_swapchain(caps(2, 4), &FORMATS).unwrap();
    assert_eq!(plan.min_image_count, 3);
    assert_eq!(plan.surface_format, FORMATS[0]);
    assert_eq!(plan.extent, Extent2D { width: 800, height: 600 });
    assert_eq!(plan.pre_transform, 1);
    assert_eq!(plan_swapchain(caps(2, 4), &[]), Err(reverie::swapchain::SwapchainError::NoSurfaceFormat));
}

#[test]
fn five_clean_ticks_cycle_slots() {
    let c = caps(2, 4);
    let mut sc = build_swapchain(c, 0);
    assert_eq!(sc.image_count, 3);
    let mut driver = FrameDriver::new(&sc);
    let mut gpu = Gpu::new(3);
    let mut slots = vec![];
    for _ in 0..5 {
        let (slot, actions) = tick(&mut driver, &mut sc, &mut gpu, c, false);
        slots.push(slot);
        assert_eq!(actions.len(), 6);
        assert_eq!(actions[5], Action::FrameDone);
    }
    assert_eq!(slots, vec![0, 1, 2, 0, 1]);
    assert_eq!(gpu.timeouts, 0);
    assert_eq!(gpu.recreations, 0);
    assert_eq!(gpu.records, 5);
    assert_eq!(driver.phase(&sc), Phase::Idle);
}

#[test]
fn out_of_date_on_third_tick_recreates_once() {
    let c = caps(2, 4);
    let mut sc = build_swapchain(c, 0);
    let mut driver = FrameDriver::new(&sc);
    let mut gpu = Gpu::new(3);
    for t in 1..=5 {
        let (_, actions) = tick(&mut driver, &mut sc, &mut gpu, c, t == 3);
        if t == 3 {
            assert_eq!(actions, vec![Action::AcquireImage { slot: 2 }, Action::Recreate]);
        } else {
            assert_eq!(*actions.last().unwrap(), Action::FrameDone);
        }
        if t == 4 {
            assert_eq!(actions[0], Action::AcquireImage { slot: 0 });
        }
    }
    assert_eq!(gpu.recreations, 1);
    assert_eq!(gpu.timeouts, 0);
    assert_eq!(sc.image_count, 3);
    assert_eq!(sc.swapchain, 1);
}

#[test]
fn repeated_recreation_then_clean_tick() {
    for (min, max) in [(2u32, 4u32), (1, 2), (4, 8), (2, 0)] {
        let c = caps(min, max);
        let mut sc = build_swapchain(c, 0);
        let mut driver = FrameDriver::new(&sc);
        let mut gpu = Gpu::new(sc.image_count);
        for _ in 0..4 {
            let (_, actions) = tick(&mut driver, &mut sc, &mut gpu, c, true);
            assert_eq!(*actions.last().unwrap(), Action::Recreate);
            assert!(sc.image_count as u32 >= min);
            assert!(max == 0 || sc.image_count as u32 <= max);
            assert_eq!(driver.phase(&sc), Phase::Idle);
        }
        let (_, actions) = tick(&mut driver, &mut sc, &mut gpu, c, false);
        assert_eq!(*actions.last().unwrap(), Action::FrameDone);
        assert_eq!(gpu.recreations, 4);
    }
}

#[test]
fn resize_flag_leads_to_recreation_after_present() {
    let c = caps(2, 4);
    let mut sc = build_swapchain(c, 0);
    let mut driver = FrameDriver::new(&sc);
    driver.notify_resized(&sc);
    let mut gpu = Gpu::new(3);
    let (_, actions) = tick(&mut driver, &mut sc, &mut gpu, c, false);
    assert_eq!(actions.len(), 6);
    assert_eq!(actions[4], Action::Present { slot: 0, image_index: 0 });
    assert_eq!(actions[5], Action::Recreate);
    assert_eq!(gpu.recreations, 1);
    let (_, actions) = tick(&mut driver, &mut sc, &mut gpu, c, false);
    assert_eq!(actions[5], Action::FrameDone);
}

#[test]
fn present_out_of_date_recreates() {
    let c = caps(2, 4);
    let mut sc = build_swapchain(c, 0);
    let mut driver = FrameDriver::new(&sc);
    assert_eq!(driver.step(&mut sc, Event::Tick), Action::AcquireImage { slot: 0 });
    assert_eq!(driver.step(&mut sc, Event::Acquired { image_index: 1 }), Action::WaitForFence { slot: 0 });
    assert_eq!(driver.step(&mut sc, Event::FenceSignaled), Action::Record { slot: 0 });
    assert_eq!(driver.step(&mut sc, Event::Recorded), Action::ResetFenceAndSubmit { slot: 0, image_index: 1 });
    assert_eq!(driver.step(&mut sc, Event::Submitted), Action::Present { slot: 0, image_index: 1 });
    assert_eq!(driver.step(&mut sc, Event::PresentOutOfDate), Action::Recreate);
    assert_eq!(sc.current_image, 0);
    assert_eq!(driver.phase(&sc), Phase::Recreating);
    assert_eq!(driver.step(&mut sc, Event::Tick), Action::Abort(FatalError::OutOfOrder));
}

#[test]
fn fatal_events_abort() {
    let c = caps(2, 4);
    let mut sc = build_swapchain(c, 0);
    let mut driver = FrameDriver::new(&sc);
    driver.step(&mut sc, Event::Tick);
    assert_eq!(driver.step(&mut sc, Event::Acquired { image_index: 3 }), Action::Abort(FatalError::BadImageIndex));
    assert_eq!(driver.phase(&sc), Phase::Failed);

    let mut driver = FrameDriver::new(&sc);
    driver.step(&mut sc, Event::Tick);
    driver.step(&mut sc, Event::Acquired { image_index: 0 });
    assert_eq!(driver.step(&mut sc, Event::Timeout), Action::Abort(FatalError::Timeout));

    let mut driver = FrameDriver::new(&sc);
    assert_eq!(driver.step(&mut sc, Event::DeviceError), Action::Abort(FatalError::DeviceError));

    let mut driver = FrameDriver::new(&sc);
    assert_eq!(driver.step(&mut sc, Event::FenceSignaled), Action::Abort(FatalError::OutOfOrder));
}

#[test]
fn stage_orders() {
    assert_eq!(
        recreation_stages(),
        vec![
            Stage::WaitIdle,
            Stage::FreeCommandBuffers,
            Stage::DestroyCommandPools,
            Stage::DestroyPipeline,
            Stage::DestroyRenderPass,
            Stage::DestroySwapchain,
            Stage::CreateSwapchain,
            Stage::CreateRenderPass,
            Stage::CreateFramebuffers,
            Stage::CreatePipeline,
            Stage::CreateCommandPools,
            Stage::CreateCommandBuffers,
            Stage::RecordCommandBuffers,
        ]
    );
    let shutdown = shutdown_stages();
    assert_eq!(shutdown.first(), Some(&Stage::WaitIdle));
    assert_eq!(shutdown.last(), Some(&Stage::DestroyInstance));
    let pos = |s: Stage| shutdown.iter().position(|x| *x == s).unwrap();
    assert!(pos(Stage::DestroyRenderables) < pos(Stage::DestroyAllocator));
    assert!(pos(Stage::DestroySwapchain) < pos(Stage::DestroyDevice));
}
