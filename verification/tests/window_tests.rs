use fractals::swapchain::{MySwapchainManager, RenderAction, SurfaceSize, AcquireOutcome};
use fractals::window::{handle_event, LoopEvent, LoopResponse};

#[test]
fn events_are_answered() {
    let mut m = MySwapchainManager::new(&[0u8]);
    assert_eq!(handle_event(&mut m, LoopEvent::AboutToWait), LoopResponse::Render);
    assert_eq!(handle_event(&mut m, LoopEvent::EscapePressed), LoopResponse::Exit);
    assert_eq!(handle_event(&mut m, LoopEvent::CloseRequested), LoopResponse::Exit);
    assert_eq!(handle_event(&mut m, LoopEvent::OtherWindowEvent), LoopResponse::Nothing);
    assert_eq!(handle_event(&mut m, LoopEvent::Other), LoopResponse::Poll);
}

#[test]
fn resize_event_makes_next_frame_configure() {
    let size = SurfaceSize { width: 100, height: 50 };
    let mut m = MySwapchainManager::new(&[0u8]);
    let (mut lp, _) = m.begin_render(size);
    m.configured(&mut lp, true);
    m.acquired(&mut lp, AcquireOutcome::Acquired { suboptimal: false });
    assert!(!m.recreate_pending());
    assert_eq!(handle_event(&mut m, LoopEvent::Resized), LoopResponse::Nothing);
    assert!(m.recreate_pending());
    let (_lp, a) = m.begin_render(size);
    assert_eq!(a, RenderAction::Configure(size));
}
