use jadis::scheduler::{AcquireOutcome, Command, FrameEvent, FrameScheduler, LoopPhase, PresentOutcome, SwapchainPhase};

fn begin(quit: bool, resized: bool) -> FrameEvent {
    FrameEvent::Begin { quit, resized }
}

/// Runs one full frame that acquires `image` and presents it successfully;
/// returns every command asked for.
fn frame(s: &mut FrameScheduler, resized: bool, image: u32) -> Vec<Command> {
    let mut cmds = s.step(begin(false, resized));
    cmds.extend(s.step(FrameEvent::Acquired(AcquireOutcome::Image(image))));
    cmds.extend(s.step(FrameEvent::Presented(PresentOutcome::Presented)));
    cmds
}

fn count(cmds: &[Command], c: Command) -> usize {
    cmds.iter().filter(|x| **x == c).count()
}

#[test]
fn first_iteration_creates_the_swapchain() {
    let mut s = FrameScheduler::new();
    let cmds = s.step(begin(false, false));
    assert_eq!(cmds, vec![Command::CreateSwapchain, Command::BuildFramebuffers, Command::AcquireImage]);
    assert_eq!(s.phase, LoopPhase::Acquiring);
    let cmds = s.step(FrameEvent::Acquired(AcquireOutcome::Image(0)));
    assert_eq!(cmds, vec![Command::Record { image: 0 }, Command::Submit, Command::Present { image: 0 }]);
    assert!(s.step(FrameEvent::Presented(PresentOutcome::Presented)).is_empty());
    assert_eq!(s.phase, LoopPhase::Idle);
}

#[test]
fn steady_frame_waits_for_fence_and_resets_pool() {
    let mut s = FrameScheduler::new();
    frame(&mut s, false, 0);
    let cmds = s.step(begin(false, false));
    assert_eq!(
        cmds,
        vec![Command::WaitForFence, Command::ResetFence, Command::ResetCommandPool, Command::AcquireImage]
    );
}

#[test]
fn resize_mid_loop_rebuilds_once() {
    // The device hands out three images in turn.
    let mut s = FrameScheduler::new();
    for i in 0..3u32 {
        frame(&mut s, false, i);
    }
    let mut cmds = s.step(begin(false, true));
    cmds.extend(s.step(FrameEvent::Acquired(AcquireOutcome::Image(0))));
    let present = cmds.iter().position(|c| matches!(c, Command::Present { .. })).unwrap();
    let before = &cmds[..present];
    assert_eq!(count(before, Command::WaitForDeviceIdle), 1);
    assert_eq!(count(before, Command::ResetCommandPool), 1);
    assert_eq!(count(before, Command::DestroyFramebuffers), 1);
    assert_eq!(count(before, Command::DestroySwapchain), 1);
    assert_eq!(count(before, Command::CreateSwapchain), 1);
    assert_eq!(count(before, Command::BuildFramebuffers), 1);
    assert_eq!(
        before.to_vec(),
        vec![
            Command::WaitForDeviceIdle,
            Command::ResetCommandPool,
            Command::DestroyFramebuffers,
            Command::DestroySwapchain,
            Command::CreateSwapchain,
            Command::BuildFramebuffers,
            Command::WaitForFence,
            Command::ResetFence,
            Command::AcquireImage,
            Command::Record { image: 0 },
            Command::Submit,
        ]
    );
    assert!(s.step(FrameEvent::Presented(PresentOutcome::Presented)).is_empty());
    // The following frame does not rebuild again.
    let cmds = frame(&mut s, false, 1);
    assert_eq!(count(&cmds, Command::CreateSwapchain), 0);
    assert_eq!(count(&cmds, Command::WaitForDeviceIdle), 0);
}

#[test]
fn stale_acquire_skips_the_frame_and_rebuilds_next() {
    let mut s = FrameScheduler::new();
    for i in 1..=4u32 {
        frame(&mut s, false, i % 3);
    }
    // Iteration 5: acquire reports a stale swapchain.
    let cmds = s.step(begin(false, false));
    assert_eq!(cmds.last(), Some(&Command::AcquireImage));
    let cmds = s.step(FrameEvent::Acquired(AcquireOutcome::Stale));
    assert!(cmds.is_empty());
    assert!(s.rebuild_requested);
    assert_eq!(s.phase, LoopPhase::Idle);
    // A present outcome now is out of place and does nothing.
    assert!(s.step(FrameEvent::Presented(PresentOutcome::Presented)).is_empty());
    // Iteration 6 begins with the rebuild.
    let cmds = s.step(begin(false, false));
    assert_eq!(
        cmds[..6].to_vec(),
        vec![
            Command::WaitForDeviceIdle,
            Command::ResetCommandPool,
            Command::DestroyFramebuffers,
            Command::DestroySwapchain,
            Command::CreateSwapchain,
            Command::BuildFramebuffers,
        ]
    );
    assert!(!cmds.contains(&Command::Submit));
    assert!(!s.rebuild_requested);
}

#[test]
fn failed_or_stale_present_requests_rebuild() {
    for outcome in [PresentOutcome::Stale, PresentOutcome::Failed] {
        let mut s = FrameScheduler::new();
        s.step(begin(false, false));
        s.step(FrameEvent::Acquired(AcquireOutcome::Image(1)));
        assert!(s.step(FrameEvent::Presented(outcome)).is_empty());
        assert!(s.rebuild_requested);
        let cmds = s.step(begin(false, false));
        assert_eq!(cmds[0], Command::WaitForDeviceIdle);
        assert_eq!(count(&cmds, Command::CreateSwapchain), 1);
    }
}

#[test]
fn quit_with_frame_in_flight_waits_before_destroying() {
    let mut s = FrameScheduler::new();
    frame(&mut s, false, 0);
    frame(&mut s, false, 1);
    assert!(s.fence_in_use);
    let cmds = s.step(begin(true, false));
    assert_eq!(
        cmds,
        vec![
            Command::WaitForDeviceIdle,
            Command::ResetCommandPool,
            Command::DestroyFramebuffers,
            Command::DestroySwapchain,
            Command::DestroyPipeline,
            Command::DestroyBuffers,
            Command::DestroySyncObjects,
            Command::DestroyCommandPool,
        ]
    );
    assert!(s.is_finished());
    assert!(s.step(begin(false, false)).is_empty());
}

#[test]
fn quit_before_first_frame_skips_swapchain_teardown() {
    let mut s = FrameScheduler::new();
    let cmds = s.step(begin(true, true));
    assert_eq!(
        cmds,
        vec![
            Command::WaitForDeviceIdle,
            Command::DestroyPipeline,
            Command::DestroyBuffers,
            Command::DestroySyncObjects,
            Command::DestroyCommandPool,
        ]
    );
}

#[test]
fn out_of_phase_events_are_ignored() {
    let mut s = FrameScheduler::new();
    assert!(s.step(FrameEvent::Acquired(AcquireOutcome::Image(0))).is_empty());
    assert_eq!(s, FrameScheduler::new());
    s.step(begin(false, false));
    let before = s;
    assert!(s.step(begin(false, true)).is_empty());
    assert_eq!(s, before);
}

#[test]
fn swapchain_lifecycle_phases() {
    let mut s = FrameScheduler::new();
    assert_eq!(s.swapchain_phase(), SwapchainPhase::Uninitialized);
    s.step(begin(false, false));
    assert_eq!(s.swapchain_phase(), SwapchainPhase::Valid);
    s.step(FrameEvent::Acquired(AcquireOutcome::Stale));
    assert_eq!(s.swapchain_phase(), SwapchainPhase::Invalidated);
    s.step(begin(false, false));
    assert_eq!(s.swapchain_phase(), SwapchainPhase::Valid);
    s.step(FrameEvent::Acquired(AcquireOutcome::Image(2)));
    s.step(FrameEvent::Presented(PresentOutcome::Presented));
    s.step(begin(true, false));
    assert_eq!(s.swapchain_phase(), SwapchainPhase::Destroyed);
}
