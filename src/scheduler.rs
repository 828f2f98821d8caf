//! The per-frame render loop as a state machine.
//!
//! The loop driver (which owns the device, the window and every GPU object)
//! hands each outcome to [`FrameScheduler::step`] and then performs the
//! returned commands in order. All ordering decisions live here: when to wait
//! for the device, when to reset the command pool, when to tear down and
//! rebuild the swapchain and its framebuffers, and what to skip after a stale
//! acquire or a failed present.
use vstd::prelude::*;

verus! {

/// One unit of work that the loop driver performs, in the order given.
#[derive(Clone, Copy, Debug, PartialEq, Eq, Structural)]
pub enum Command {
    /// Block until the device and its queues are idle.
    WaitForDeviceIdle,
    /// Reset the command pool, recycling every command buffer allocated from it.
    ResetCommandPool,
    /// Destroy every framebuffer, then every image view, of the current set.
    DestroyFramebuffers,
    /// Destroy the current swapchain.
    DestroySwapchain,
    /// Query the surface capabilities afresh and create a swapchain.
    CreateSwapchain,
    /// Build one image view and one framebuffer per swapchain image.
    BuildFramebuffers,
    /// Block until the frame fence signals.
    WaitForFence,
    /// Reset the frame fence to unsignalled.
    ResetFence,
    /// Acquire the next presentable image, signalling the image-ready semaphore.
    AcquireImage,
    /// Record the frame's command buffer against the image's framebuffer.
    Record { image: u32 },
    /// Submit the command buffer: wait on image-ready, signal render-done and the fence.
    Submit,
    /// Present the image, waiting on render-done.
    Present { image: u32 },
    /// Destroy the pipeline, its layout and the render pass.
    DestroyPipeline,
    /// Destroy the vertex and uniform buffers.
    DestroyBuffers,
    /// Destroy the semaphores and the fence.
    DestroySyncObjects,
    /// Destroy the command pool.
    DestroyCommandPool,
}

/// What acquiring an image came to.
#[derive(Clone, Copy, Debug, PartialEq, Eq, Structural)]
pub enum AcquireOutcome {
    /// The image with this index is ready to be drawn into.
    Image(u32),
    /// The swapchain no longer matches the surface.
    Stale,
}

/// What presenting an image came to.
#[derive(Clone, Copy, Debug, PartialEq, Eq, Structural)]
pub enum PresentOutcome {
    Presented,
    /// The swapchain no longer matches the surface.
    Stale,
    /// Presentation failed for another reason; handled as a stale swapchain.
    Failed,
}

/// What the loop driver reports to the scheduler.
#[derive(Clone, Copy, Debug, PartialEq, Eq, Structural)]
pub enum FrameEvent {
    /// An iteration starts; the flags are the signals gathered from the window
    /// since the previous iteration.
    Begin { quit: bool, resized: bool },
    /// The outcome of the last `AcquireImage` command.
    Acquired(AcquireOutcome),
    /// The outcome of the last `Present` command.
    Presented(PresentOutcome),
}

/// Where the loop stands between two events.
#[derive(Clone, Copy, Debug, PartialEq, Eq, Structural)]
pub enum LoopPhase {
    /// At an iteration boundary, waiting for `Begin`.
    Idle,
    /// An `AcquireImage` command is out, waiting for its outcome.
    Acquiring,
    /// An image was recorded, submitted and handed to `Present`, waiting for the outcome.
    Presenting,
    /// Everything was torn down; no further event does anything.
    Finished,
}

/// Where the swapchain stands in its lifecycle.
#[derive(Clone, Copy, Debug, PartialEq, Eq, Structural)]
pub enum SwapchainPhase {
    /// Not created yet.
    Uninitialized,
    /// Created, and nothing asked for a rebuild.
    Valid,
    /// Created, and a resize, a stale acquire or a failed present asked for
    /// a rebuild that the next iteration performs.
    Invalidated,
    /// Torn down for good after a quit.
    Destroyed,
}

/// The scheduler's state.
#[derive(Clone, Copy, Debug, PartialEq, Eq, Structural)]
pub struct FrameScheduler {
    pub phase: LoopPhase,
    /// A swapchain and its framebuffer set exist (valid or invalidated).
    pub swapchain_live: bool,
    /// A resize, a stale acquire or a failed present asked for a rebuild
    /// that has not happened yet.
    pub rebuild_requested: bool,
    /// A submission was made that signals the fence, and the fence has not
    /// been reset since.
    pub fence_in_use: bool,
    /// A command buffer was recorded since the command pool was last reset.
    pub pool_dirty: bool,
}

/// The lifecycle phase of the swapchain in state `s`.
pub open spec fn swapchain_phase_of(s: FrameScheduler) -> SwapchainPhase {
    if s.phase is Finished {
        SwapchainPhase::Destroyed
    } else if !s.swapchain_live {
        SwapchainPhase::Uninitialized
    } else if s.rebuild_requested {
        SwapchainPhase::Invalidated
    } else {
        SwapchainPhase::Valid
    }
}

/// The commands that tear down the swapchain and its framebuffers, device
/// idle wait and pool reset first.
pub open spec fn teardown_swapchain_commands() -> Seq<Command> {
    seq![
        Command::WaitForDeviceIdle,
        Command::ResetCommandPool,
        Command::DestroyFramebuffers,
        Command::DestroySwapchain,
    ]
}

/// The commands that create a swapchain and its framebuffers.
pub open spec fn create_swapchain_commands() -> Seq<Command> {
    seq![Command::CreateSwapchain, Command::BuildFramebuffers]
}

/// The commands that tear down everything that is not the swapchain, in
/// reverse order of acquisition.
pub open spec fn teardown_rest_commands() -> Seq<Command> {
    seq![
        Command::DestroyPipeline,
        Command::DestroyBuffers,
        Command::DestroySyncObjects,
        Command::DestroyCommandPool,
    ]
}

/// The commands of a quit: wait for the device, then destroy in reverse
/// order of acquisition.
pub open spec fn quit_commands(s: FrameScheduler) -> Seq<Command> {
    if s.swapchain_live {
        teardown_swapchain_commands() + teardown_rest_commands()
    } else {
        seq![Command::WaitForDeviceIdle] + teardown_rest_commands()
    }
}

/// The rebuild commands that start an iteration, if any.
pub open spec fn rebuild_commands(s: FrameScheduler, resized: bool) -> Seq<Command> {
    if s.rebuild_requested || resized || !s.swapchain_live {
        if s.swapchain_live {
            teardown_swapchain_commands() + create_swapchain_commands()
        } else {
            create_swapchain_commands()
        }
    } else {
        Seq::empty()
    }
}

/// The state after the rebuild part of an iteration.
pub open spec fn after_rebuild(s: FrameScheduler, resized: bool) -> FrameScheduler {
    if s.rebuild_requested || resized || !s.swapchain_live {
        FrameScheduler {
            swapchain_live: true,
            rebuild_requested: false,
            pool_dirty: if s.swapchain_live { false } else { s.pool_dirty },
            ..s
        }
    } else {
        s
    }
}

/// The frame prologue: wait for and reset the fence if a submission used
/// it, reset the pool if a command buffer was recorded, then acquire.
pub open spec fn prologue_commands(s: FrameScheduler) -> Seq<Command> {
    (if s.fence_in_use {
        seq![Command::WaitForFence, Command::ResetFence]
    } else {
        Seq::empty()
    }) + (if s.pool_dirty {
        seq![Command::ResetCommandPool]
    } else {
        Seq::empty()
    }) + seq![Command::AcquireImage]
}

/// One step of the loop: the state after `e` and the commands to perform.
/// An event that does not fit the phase changes nothing and asks for nothing.
pub open spec fn step_spec(s: FrameScheduler, e: FrameEvent) -> (FrameScheduler, Seq<Command>) {
    match e {
        FrameEvent::Begin { quit, resized } => {
            if !(s.phase is Idle) {
                (s, Seq::empty())
            } else if quit {
                (
                    FrameScheduler {
                        phase: LoopPhase::Finished,
                        swapchain_live: false,
                        rebuild_requested: false,
                        fence_in_use: false,
                        pool_dirty: false,
                    },
                    quit_commands(s),
                )
            } else {
                let r = after_rebuild(s, resized);
                (
                    FrameScheduler {
                        phase: LoopPhase::Acquiring,
                        fence_in_use: false,
                        pool_dirty: false,
                        ..r
                    },
                    rebuild_commands(s, resized) + prologue_commands(r),
                )
            }
        },
        FrameEvent::Acquired(outcome) => {
            if !(s.phase is Acquiring) {
                (s, Seq::empty())
            } else {
                match outcome {
                    AcquireOutcome::Image(i) => (
                        FrameScheduler {
                            phase: LoopPhase::Presenting,
                            fence_in_use: true,
                            pool_dirty: true,
                            ..s
                        },
                        seq![Command::Record { image: i }, Command::Submit, Command::Present { image: i }],
                    ),
                    AcquireOutcome::Stale => (
                        FrameScheduler { phase: LoopPhase::Idle, rebuild_requested: true, ..s },
                        Seq::empty(),
                    ),
                }
            }
        },
        FrameEvent::Presented(outcome) => {
            if !(s.phase is Presenting) {
                (s, Seq::empty())
            } else {
                match outcome {
                    PresentOutcome::Presented => (
                        FrameScheduler { phase: LoopPhase::Idle, ..s },
                        Seq::empty(),
                    ),
                    _ => (
                        FrameScheduler { phase: LoopPhase::Idle, rebuild_requested: true, ..s },
                        Seq::empty(),
                    ),
                }
            }
        },
    }
}

/// A command that destroys a GPU object.
pub open spec fn is_destroy(c: Command) -> bool {
    ||| c is DestroyFramebuffers
    ||| c is DestroySwapchain
    ||| c is DestroyPipeline
    ||| c is DestroyBuffers
    ||| c is DestroySyncObjects
    ||| c is DestroyCommandPool
}

/// After a quit, whatever is in flight: the first command waits for the
/// device to go idle, so no destroy command comes before that wait; the
/// framebuffers go before the swapchain, and the swapchain before the
/// pipeline, the buffers, the synchronisation objects and the command pool.
pub proof fn lemma_quit_waits_for_idle_first(s: FrameScheduler, resized: bool)
    requires
        s.phase is Idle,
    ensures
        ({
            let (t, cmds) = step_spec(s, FrameEvent::Begin { quit: true, resized });
            &&& t.phase is Finished
            &&& cmds.len() > 0
            &&& cmds[0] == Command::WaitForDeviceIdle
            &&& forall|i: int| 0 <= i < cmds.len() && is_destroy(#[trigger] cmds[i]) ==> i > 0
            &&& cmds.subrange(cmds.len() - 4, cmds.len() as int) == teardown_rest_commands()
            &&& s.swapchain_live ==> cmds.subrange(0, 4) == teardown_swapchain_commands()
        }),
{
    let (t, cmds) = step_spec(s, FrameEvent::Begin { quit: true, resized });
    if s.swapchain_live {
        assert(cmds.subrange(0, 4) =~= teardown_swapchain_commands());
        assert(cmds.subrange(cmds.len() - 4, cmds.len() as int) =~= teardown_rest_commands());
    } else {
        assert(cmds.subrange(cmds.len() - 4, cmds.len() as int) =~= teardown_rest_commands());
    }
}

/// Whatever the state and the event, every command that destroys a GPU
/// object comes after a wait for the device to go idle in the same list.
pub proof fn lemma_destroy_after_idle_wait(s: FrameScheduler, e: FrameEvent)
    ensures
        ({
            let cmds = step_spec(s, e).1;
            forall|i: int|
                0 <= i < cmds.len() && is_destroy(#[trigger] cmds[i]) ==> exists|j: int|
                    0 <= j < i && cmds[j] == Command::WaitForDeviceIdle
        }),
{
    let cmds = step_spec(s, e).1;
    assert forall|i: int| 0 <= i < cmds.len() && is_destroy(#[trigger] cmds[i]) implies exists|j: int|
        0 <= j < i && cmds[j] == Command::WaitForDeviceIdle by {
        assert(cmds[0] == Command::WaitForDeviceIdle);
    }
}

/// A resize reported at an iteration boundary while a swapchain exists:
/// the iteration waits for the device once, resets the command pool once,
/// tears down the framebuffer set once, destroys and recreates the swapchain
/// once, rebuilds the framebuffers, and only then acquires an image; the
/// rebuild request is then settled.
pub proof fn lemma_resize_rebuilds_once(s: FrameScheduler)
    requires
        s.phase is Idle,
        s.swapchain_live,
    ensures
        ({
            let (t, cmds) = step_spec(s, FrameEvent::Begin { quit: false, resized: true });
            &&& cmds == teardown_swapchain_commands() + create_swapchain_commands() + (if s.fence_in_use {
                seq![Command::WaitForFence, Command::ResetFence]
            } else {
                Seq::empty()
            }) + seq![Command::AcquireImage]
            &&& t.phase is Acquiring
            &&& t.swapchain_live
            &&& !t.rebuild_requested
        }),
{
    let (t, cmds) = step_spec(s, FrameEvent::Begin { quit: false, resized: true });
    let r = after_rebuild(s, true);
    assert(!r.pool_dirty);
    assert(r.fence_in_use == s.fence_in_use);
    if s.fence_in_use {
        assert(prologue_commands(r) =~= seq![Command::WaitForFence, Command::ResetFence] + seq![Command::AcquireImage]);
        assert(cmds =~= teardown_swapchain_commands() + create_swapchain_commands() + seq![Command::WaitForFence, Command::ResetFence] + seq![Command::AcquireImage]);
    } else {
        assert(prologue_commands(r) =~= seq![Command::AcquireImage]);
        assert(cmds =~= teardown_swapchain_commands() + create_swapchain_commands() + Seq::<Command>::empty() + seq![Command::AcquireImage]);
    }
}

/// A stale acquire: nothing is recorded, submitted or presented in that
/// iteration, and the next iteration (with no quit) begins by tearing down
/// and recreating the swapchain and its framebuffers.
pub proof fn lemma_stale_acquire_rebuilds_next(s: FrameScheduler, resized: bool)
    requires
        s.phase is Acquiring,
        s.swapchain_live,
    ensures
        ({
            let (t, cmds) = step_spec(s, FrameEvent::Acquired(AcquireOutcome::Stale));
            let (u, next) = step_spec(t, FrameEvent::Begin { quit: false, resized });
            &&& cmds.len() == 0
            &&& t.phase is Idle
            &&& next.len() >= 6
            &&& next.subrange(0, 6) == teardown_swapchain_commands() + create_swapchain_commands()
            &&& u.phase is Acquiring
        }),
{
    let (t, cmds) = step_spec(s, FrameEvent::Acquired(AcquireOutcome::Stale));
    let (u, next) = step_spec(t, FrameEvent::Begin { quit: false, resized });
    let head = teardown_swapchain_commands() + create_swapchain_commands();
    assert(rebuild_commands(t, resized) == head);
    assert(next == head + prologue_commands(after_rebuild(t, resized)));
    assert(next.subrange(0, 6) =~= head);
}

fn push_teardown_swapchain(cmds: &mut Vec<Command>)
    ensures
        final(cmds)@ == old(cmds)@ + teardown_swapchain_commands(),
{
    cmds.push(Command::WaitForDeviceIdle);
    cmds.push(Command::ResetCommandPool);
    cmds.push(Command::DestroyFramebuffers);
    cmds.push(Command::DestroySwapchain);
    assert(final(cmds)@ =~= old(cmds)@ + teardown_swapchain_commands());
}

fn push_teardown_rest(cmds: &mut Vec<Command>)
    ensures
        final(cmds)@ == old(cmds)@ + teardown_rest_commands(),
{
    cmds.push(Command::DestroyPipeline);
    cmds.push(Command::DestroyBuffers);
    cmds.push(Command::DestroySyncObjects);
    cmds.push(Command::DestroyCommandPool);
    assert(final(cmds)@ =~= old(cmds)@ + teardown_rest_commands());
}

impl FrameScheduler {
    /// A scheduler before the first iteration: nothing created, nothing pending.
    pub fn new() -> (r: FrameScheduler)
        ensures
            r == (FrameScheduler {
                phase: LoopPhase::Idle,
                swapchain_live: false,
                rebuild_requested: false,
                fence_in_use: false,
                pool_dirty: false,
            }),
    {
        FrameScheduler {
            phase: LoopPhase::Idle,
            swapchain_live: false,
            rebuild_requested: false,
            fence_in_use: false,
            pool_dirty: false,
        }
    }

    /// Whether the loop has quit and torn everything down.
    pub fn is_finished(&self) -> (r: bool)
        ensures
            r == self.phase is Finished,
    {
        matches!(self.phase, LoopPhase::Finished)
    }

    /// Where the swapchain stands in its lifecycle.
    pub fn swapchain_phase(&self) -> (r: SwapchainPhase)
        ensures
            r == swapchain_phase_of(*self),
    {
        if matches!(self.phase, LoopPhase::Finished) {
            SwapchainPhase::Destroyed
        } else if !self.swapchain_live {
            SwapchainPhase::Uninitialized
        } else if self.rebuild_requested {
            SwapchainPhase::Invalidated
        } else {
            SwapchainPhase::Valid
        }
    }

    /// Takes the next event of the loop and returns the commands to perform,
    /// in order.
    pub fn step(&mut self, e: FrameEvent) -> (cmds: Vec<Command>)
        ensures
            (*final(self), cmds@) == step_spec(*old(self), e),
    {
        let s = *self;
        let mut cmds: Vec<Command> = Vec::new();
        match e {
            FrameEvent::Begin { quit, resized } => {
                if !matches!(s.phase, LoopPhase::Idle) {
                    return cmds;
                }
                if quit {
                    if s.swapchain_live {
                        push_teardown_swapchain(&mut cmds);
                    } else {
                        cmds.push(Command::WaitForDeviceIdle);
                    }
                    push_teardown_rest(&mut cmds);
                    proof {
                        if s.swapchain_live {
                            assert(cmds@ =~= quit_commands(s));
                        } else {
                            assert(cmds@ =~= quit_commands(s));
                        }
                    }
                    *self = FrameScheduler {
                        phase: LoopPhase::Finished,
                        swapchain_live: false,
                        rebuild_requested: false,
                        fence_in_use: false,
                        pool_dirty: false,
                    };
                    return cmds;
                }
                let mut r = s;
                if s.rebuild_requested || resized || !s.swapchain_live {
                    if s.swapchain_live {
                        push_teardown_swapchain(&mut cmds);
                        r.pool_dirty = false;
                    }
                    cmds.push(Command::CreateSwapchain);
                    cmds.push(Command::BuildFramebuffers);
                    r.swapchain_live = true;
                    r.rebuild_requested = false;
                }
                assert(r == after_rebuild(s, resized));
                assert(cmds@ =~= rebuild_commands(s, resized));
                let ghost rebuilt = cmds@;
                if r.fence_in_use {
                    cmds.push(Command::WaitForFence);
                    cmds.push(Command::ResetFence);
                }
                if r.pool_dirty {
                    cmds.push(Command::ResetCommandPool);
                }
                cmds.push(Command::AcquireImage);
                assert(cmds@ =~= rebuilt + prologue_commands(r));
                *self = FrameScheduler {
                    phase: LoopPhase::Acquiring,
                    fence_in_use: false,
                    pool_dirty: false,
                    ..r
                };
                cmds
            },
            FrameEvent::Acquired(outcome) => {
                if !matches!(s.phase, LoopPhase::Acquiring) {
                    return cmds;
                }
                match outcome {
                    AcquireOutcome::Image(i) => {
                        cmds.push(Command::Record { image: i });
                        cmds.push(Command::Submit);
                        cmds.push(Command::Present { image: i });
                        assert(cmds@ =~= seq![
                            Command::Record { image: i },
                            Command::Submit,
                            Command::Present { image: i },
                        ]);
                        *self = FrameScheduler {
                            phase: LoopPhase::Presenting,
                            fence_in_use: true,
                            pool_dirty: true,
                            ..s
                        };
                    },
                    AcquireOutcome::Stale => {
                        *self = FrameScheduler { phase: LoopPhase::Idle, rebuild_requested: true, ..s };
                    },
                }
                cmds
            },
            FrameEvent::Presented(outcome) => {
                if !matches!(s.phase, LoopPhase::Presenting) {
                    return cmds;
                }
                match outcome {
                    PresentOutcome::Presented => {
                        *self = FrameScheduler { phase: LoopPhase::Idle, ..s };
                    },
                    _ => {
                        *self = FrameScheduler { phase: LoopPhase::Idle, rebuild_requested: true, ..s };
                    },
                }
                cmds
            },
        }
    }
}

} // verus!
