use fractals::swapchain::{
    AcquireOutcome, MySwapchainManager, RenderAction, RenderError, RenderPhase, SurfaceSize,
    RECREATE_ATTEMPTS,
};

fn size(width: u32, height: u32) -> SurfaceSize {
    SurfaceSize { width, height }
}

#[test]
fn new_manager_uses_first_format_and_needs_configuring() {
    let m = MySwapchainManager::new(&[7u32, 9, 11]);
    assert_eq!(m.format(), 7);
    assert_eq!(m.active_size(), None);
    assert!(m.recreate_pending());
}

#[test]
fn first_frame_configures_then_draws() {
    let mut m = MySwapchainManager::new(&[1u8]);
    let (mut lp, a) = m.begin_render(size(1280, 720));
    assert_eq!(a, RenderAction::Configure(size(1280, 720)));
    assert_eq!(lp.phase(), RenderPhase::Configuring);
    assert!(!m.recreate_pending());
    let a = m.configured(&mut lp, true);
    assert_eq!(a, RenderAction::Acquire);
    assert_eq!(m.active_size(), Some(size(1280, 720)));
    let a = m.acquired(&mut lp, AcquireOutcome::Acquired { suboptimal: false });
    assert_eq!(a, RenderAction::Draw);
    assert_eq!(lp.phase(), RenderPhase::Finished);
    assert_eq!(lp.attempts(), 0);
}

#[test]
fn stable_size_keeps_configuration() {
    let mut m = MySwapchainManager::new(&[1u8]);
    let (mut lp, _) = m.begin_render(size(800, 600));
    m.configured(&mut lp, true);
    m.acquired(&mut lp, AcquireOutcome::Acquired { suboptimal: false });
    let (lp2, a) = m.begin_render(size(800, 600));
    assert_eq!(a, RenderAction::Acquire);
    assert_eq!(lp2.phase(), RenderPhase::Acquiring);
    assert_eq!(lp2.size(), size(800, 600));
}

#[test]
fn resize_forces_configure() {
    let mut m = MySwapchainManager::new(&[1u8]);
    let (mut lp, _) = m.begin_render(size(800, 600));
    m.configured(&mut lp, true);
    m.acquired(&mut lp, AcquireOutcome::Acquired { suboptimal: false });
    let (_lp2, a) = m.begin_render(size(1024, 600));
    assert_eq!(a, RenderAction::Configure(size(1024, 600)));
}

#[test]
fn request_forces_configure() {
    let mut m = MySwapchainManager::new(&[1u8]);
    let (mut lp, _) = m.begin_render(size(800, 600));
    m.configured(&mut lp, true);
    m.acquired(&mut lp, AcquireOutcome::Acquired { suboptimal: false });
    m.should_recreate();
    assert!(m.recreate_pending());
    assert_eq!(m.active_size(), Some(size(800, 600)));
    let (_lp2, a) = m.begin_render(size(800, 600));
    assert_eq!(a, RenderAction::Configure(size(800, 600)));
}

#[test]
fn suboptimal_image_is_drawn_and_next_frame_configures() {
    let mut m = MySwapchainManager::new(&[1u8]);
    let (mut lp, _) = m.begin_render(size(640, 480));
    m.configured(&mut lp, true);
    let a = m.acquired(&mut lp, AcquireOutcome::Acquired { suboptimal: true });
    assert_eq!(a, RenderAction::Draw);
    assert!(m.recreate_pending());
    let (_lp2, a) = m.begin_render(size(640, 480));
    assert_eq!(a, RenderAction::Configure(size(640, 480)));
}

#[test]
fn incompatible_surface_fails_frame() {
    let mut m = MySwapchainManager::new(&[1u8]);
    let (mut lp, _) = m.begin_render(size(640, 480));
    let a = m.configured(&mut lp, false);
    assert_eq!(a, RenderAction::Fail(RenderError::IncompatibleSurface));
    assert_eq!(lp.phase(), RenderPhase::Finished);
    assert_eq!(m.active_size(), None);
    assert!(!m.recreate_pending());
}

#[test]
fn other_acquire_error_fails_frame() {
    let mut m = MySwapchainManager::new(&[1u8]);
    let (mut lp, _) = m.begin_render(size(640, 480));
    m.configured(&mut lp, true);
    let a = m.acquired(&mut lp, AcquireOutcome::OtherError);
    assert_eq!(a, RenderAction::Fail(RenderError::AcquireFailed));
    assert_eq!(lp.phase(), RenderPhase::Finished);
}

#[test]
fn lost_surface_is_reconfigured_before_retry() {
    let mut m = MySwapchainManager::new(&[1u8]);
    let (mut lp, _) = m.begin_render(size(640, 480));
    m.configured(&mut lp, true);
    let a = m.acquired(&mut lp, AcquireOutcome::Outdated);
    assert_eq!(a, RenderAction::Configure(size(640, 480)));
    assert_eq!(lp.attempts(), 1);
    let a = m.configured(&mut lp, true);
    assert_eq!(a, RenderAction::Acquire);
    let a = m.acquired(&mut lp, AcquireOutcome::Lost);
    assert_eq!(a, RenderAction::Configure(size(640, 480)));
    assert_eq!(lp.attempts(), 2);
    m.configured(&mut lp, true);
    let a = m.acquired(&mut lp, AcquireOutcome::Acquired { suboptimal: false });
    assert_eq!(a, RenderAction::Draw);
}

#[test]
fn ten_losses_exhaust_retries() {
    let mut m = MySwapchainManager::new(&[1u8]);
    let (mut lp, mut a) = m.begin_render(size(320, 200));
    let mut acquisitions = 0;
    loop {
        match a {
            RenderAction::Configure(s) => {
                assert_eq!(s, size(320, 200));
                a = m.configured(&mut lp, true);
            }
            RenderAction::Acquire => {
                acquisitions += 1;
                a = m.acquired(&mut lp, AcquireOutcome::Lost);
            }
            _ => break,
        }
    }
    assert_eq!(a, RenderAction::Fail(RenderError::RetriesExhausted));
    assert_eq!(acquisitions, RECREATE_ATTEMPTS);
    assert_eq!(lp.attempts(), 10);
    assert!(m.recreate_pending());
}

#[test]
fn format_is_kept_through_frames() {
    let mut m = MySwapchainManager::new(&['x', 'y']);
    let (mut lp, _) = m.begin_render(size(1, 1));
    m.configured(&mut lp, true);
    m.acquired(&mut lp, AcquireOutcome::Lost);
    assert_eq!(m.format(), 'x');
}
