//! Decisions of the frame loop: from its state and a window event to its next
//! state and the action the caller performs.
use vstd::prelude::*;

verus! {

/// Where the frame loop stands.
#[derive(Clone, Copy, Debug, PartialEq, Eq, Structural)]
pub enum LoopState {
    /// The window and swapchain do not exist yet.
    Uninitialized,
    /// Frames are being rendered. With `targets_stale` the output extent has
    /// changed and the size-dependent attachments (swapchain, depth view,
    /// multisampled color view) must be recreated before the next acquire.
    Running { targets_stale: bool },
    /// A close was requested; the loop exits and nothing more is rendered.
    ShuttingDown,
}

/// The window-system events the loop consumes.
#[derive(Clone, Copy, Debug, PartialEq, Eq, Structural)]
pub enum LoopEvent {
    /// The window and its swapchain have been created.
    SurfaceCreated,
    CloseRequested,
    Resized,
    ScaleFactorChanged,
    RedrawRequested,
    /// The event queue is drained and the loop is about to wait.
    AboutToWait,
    /// Any other event; the loop ignores it.
    Ignored,
}

/// What the caller does after a step.
#[derive(Clone, Copy, Debug, PartialEq, Eq, Structural)]
pub enum LoopAction {
    Nothing,
    /// Acquire an image, render one frame and present it with vertical sync;
    /// first recreate the size-dependent attachments when `recreate_targets`.
    RenderFrame { recreate_targets: bool },
    /// Ask the window for the next redraw at once (poll mode, no sleep).
    RequestRedraw,
    /// Leave the event loop, waiting for in-flight GPU work before releasing resources.
    Exit,
}

/// How a frame's acquire, submit or present failed.
#[derive(Clone, Copy, Debug, PartialEq, Eq, Structural)]
pub enum FrameFailure {
    /// The surface no longer matches the swapchain.
    OutOfDate,
    /// Any other failure: device loss, out of memory, and the like.
    Fatal,
}

/// The transition table of the loop.
pub open spec fn transition(s: LoopState, e: LoopEvent) -> (LoopState, LoopAction) {
    match s {
        LoopState::Uninitialized => match e {
            LoopEvent::SurfaceCreated => (
                LoopState::Running { targets_stale: false },
                LoopAction::RequestRedraw,
            ),
            LoopEvent::CloseRequested => (LoopState::ShuttingDown, LoopAction::Exit),
            _ => (s, LoopAction::Nothing),
        },
        LoopState::Running { targets_stale } => match e {
            LoopEvent::CloseRequested => (LoopState::ShuttingDown, LoopAction::Exit),
            LoopEvent::Resized | LoopEvent::ScaleFactorChanged => (
                LoopState::Running { targets_stale: true },
                LoopAction::Nothing,
            ),
            LoopEvent::RedrawRequested => (
                LoopState::Running { targets_stale: false },
                LoopAction::RenderFrame { recreate_targets: targets_stale },
            ),
            LoopEvent::AboutToWait => (s, LoopAction::RequestRedraw),
            _ => (s, LoopAction::Nothing),
        },
        LoopState::ShuttingDown => (s, LoopAction::Nothing),
    }
}

/// What a failed frame leads to: a stale surface marks the attachments stale
/// and asks for the frame again; any other failure ends the loop.
pub open spec fn failure_transition(s: LoopState, f: FrameFailure) -> (LoopState, LoopAction) {
    match s {
        LoopState::Running { .. } => match f {
            FrameFailure::OutOfDate => (
                LoopState::Running { targets_stale: true },
                LoopAction::RequestRedraw,
            ),
            FrameFailure::Fatal => (LoopState::ShuttingDown, LoopAction::Exit),
        },
        _ => (s, LoopAction::Nothing),
    }
}

/// One step of the loop on a window event.
pub fn step(s: LoopState, e: LoopEvent) -> (r: (LoopState, LoopAction))
    ensures
        r == transition(s, e),
{
    match s {
        LoopState::Uninitialized => match e {
            LoopEvent::SurfaceCreated => (
                LoopState::Running { targets_stale: false },
                LoopAction::RequestRedraw,
            ),
            LoopEvent::CloseRequested => (LoopState::ShuttingDown, LoopAction::Exit),
            _ => (s, LoopAction::Nothing),
        },
        LoopState::Running { targets_stale } => match e {
            LoopEvent::CloseRequested => (LoopState::ShuttingDown, LoopAction::Exit),
            LoopEvent::Resized | LoopEvent::ScaleFactorChanged => (
                LoopState::Running { targets_stale: true },
                LoopAction::Nothing,
            ),
            LoopEvent::RedrawRequested => (
                LoopState::Running { targets_stale: false },
                LoopAction::RenderFrame { recreate_targets: targets_stale },
            ),
            LoopEvent::AboutToWait => (s, LoopAction::RequestRedraw),
            _ => (s, LoopAction::Nothing),
        },
        LoopState::ShuttingDown => (s, LoopAction::Nothing),
    }
}

/// One step of the loop after a frame failed.
pub fn on_frame_failure(s: LoopState, f: FrameFailure) -> (r: (LoopState, LoopAction))
    ensures
        r == failure_transition(s, f),
{
    match s {
        LoopState::Running { .. } => match f {
            FrameFailure::OutOfDate => (
                LoopState::Running { targets_stale: true },
                LoopAction::RequestRedraw,
            ),
            FrameFailure::Fatal => (LoopState::ShuttingDown, LoopAction::Exit),
        },
        _ => (s, LoopAction::Nothing),
    }
}

/// Once shutting down, the loop stays there and does nothing more, whatever
/// arrives.
pub proof fn lemma_shutdown_is_final(e: LoopEvent, f: FrameFailure)
    ensures
        transition(LoopState::ShuttingDown, e) == (LoopState::ShuttingDown, LoopAction::Nothing),
        failure_transition(LoopState::ShuttingDown, f) == (
            LoopState::ShuttingDown,
            LoopAction::Nothing,
        ),
{
}

/// After a change of extent, the next frame rendered recreates the
/// size-dependent attachments first, however many further resizes came.
pub proof fn lemma_resize_recreates_before_render(s: LoopState, e: LoopEvent)
    requires
        s is Running,
        e is Resized || e is ScaleFactorChanged,
    ensures
        transition(transition(s, e).0, LoopEvent::RedrawRequested).1 == (LoopAction::RenderFrame {
            recreate_targets: true,
        }),
        transition(transition(s, e).0, LoopEvent::Resized).0 == transition(s, e).0,
{
}

} // verus!
