use vstd::prelude::*;

verus! {

/// Key code of the Escape key.
pub const KEY_ESCAPE: u32 = 0x1b;

/// Key code of the F1 key.
pub const KEY_F1: u32 = 0x4000003a;

/// The window events that the frame loop reacts to.
#[derive(Clone, Copy, Debug, PartialEq, Eq, Structural)]
pub enum WindowEvent {
    Quit,
    EnterFullscreen,
    LeaveFullscreen,
    Key { key: u32, down: bool, repeat: bool },
    PixelSizeChanged { width: i32, height: i32 },
    Other,
}

/// What the frame loop does about an event.
#[derive(Clone, Copy, Debug, PartialEq, Eq, Structural)]
pub enum LoopAction {
    /// Leave the loop and shut down.
    Quit,
    /// Ask the window to enter (true) or leave (false) fullscreen.
    SetFullscreen(bool),
    /// Hand the key to the lesson.
    ForwardKey { key: u32, down: bool, repeat: bool },
    /// Tell the lesson the drawable size changed.
    Resize { width: i32, height: i32 },
    /// Nothing to do.
    Ignore,
}

/// What the frame loop remembers between events.
#[derive(Clone, Copy, Debug, PartialEq, Eq, Structural)]
pub struct LoopState {
    pub fullscreen: bool,
}

/// The next state and action for event `e`: Escape pressed quits, F1 pressed
/// toggles fullscreen, and other keys go to the lesson.
pub open spec fn event_step(s: LoopState, e: WindowEvent) -> (LoopState, LoopAction) {
    match e {
        WindowEvent::Quit => (s, LoopAction::Quit),
        WindowEvent::EnterFullscreen => (LoopState { fullscreen: true }, LoopAction::Ignore),
        WindowEvent::LeaveFullscreen => (LoopState { fullscreen: false }, LoopAction::Ignore),
        WindowEvent::Key { key, down, repeat } => if key == KEY_ESCAPE && down {
            (s, LoopAction::Quit)
        } else if key == KEY_F1 && down {
            (s, LoopAction::SetFullscreen(!s.fullscreen))
        } else {
            (s, LoopAction::ForwardKey { key, down, repeat })
        },
        WindowEvent::PixelSizeChanged { width, height } => (s, LoopAction::Resize { width, height }),
        WindowEvent::Other => (s, LoopAction::Ignore),
    }
}

impl LoopState {
    /// The state of a loop that has just started, in a windowed window.
    pub fn new() -> (r: LoopState)
        ensures
            !r.fullscreen,
    {
        LoopState { fullscreen: false }
    }

    /// Decides what to do about one event. The fullscreen flag follows what
    /// the window reports, not what was asked of it.
    pub fn on_event(&mut self, e: WindowEvent) -> (r: LoopAction)
        ensures
            (*final(self), r) == event_step(*old(self), e),
    {
        match e {
            WindowEvent::Quit => LoopAction::Quit,
            WindowEvent::EnterFullscreen => {
                self.fullscreen = true;
                LoopAction::Ignore
            },
            WindowEvent::LeaveFullscreen => {
                self.fullscreen = false;
                LoopAction::Ignore
            },
            WindowEvent::Key { key, down, repeat } => {
                if key == KEY_ESCAPE && down {
                    LoopAction::Quit
                } else if key == KEY_F1 && down {
                    LoopAction::SetFullscreen(!self.fullscreen)
                } else {
                    LoopAction::ForwardKey { key, down, repeat }
                }
            },
            WindowEvent::PixelSizeChanged { width, height } => LoopAction::Resize { width, height },
            WindowEvent::Other => LoopAction::Ignore,
        }
    }
}

/// Whether the depth buffer is recreated before drawing a frame: only where
/// the lesson asked for one, one exists, and its size differs from the
/// swapchain texture's.
pub fn depth_buffer_outdated(
    wants_depth: bool,
    has_depth: bool,
    depth_size: (u32, u32),
    swapchain_size: (u32, u32),
) -> (r: bool)
    ensures
        r == (wants_depth && has_depth && depth_size != swapchain_size),
{
    wants_depth && has_depth && (depth_size.0 != swapchain_size.0 || depth_size.1 != swapchain_size.1)
}

} // verus!
