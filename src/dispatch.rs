use vstd::prelude::*;

use crate::surface::{is_degenerate, DrawCall, FramePlan, State, SurfaceSize};

verus! {

/// The keys that the dispatcher tells apart.
#[derive(Clone, Copy, Debug, PartialEq, Eq, Structural)]
pub enum Key {
    Escape,
    Other,
}

/// A platform window event, as plain values.
#[derive(Clone, Copy, Debug, PartialEq, Eq, Structural)]
pub enum WindowEvent {
    CloseRequested,
    Resized { width: u32, height: u32 },
    RedrawRequested,
    KeyboardInput { key: Key, pressed: bool },
    Other,
}

/// How acquiring and presenting a frame went.
#[derive(Clone, Copy, Debug, PartialEq, Eq, Structural)]
pub enum FrameOutcome {
    Presented,
    Lost,
    Outdated,
    /// Any other surface error (out of memory, timeout, ...).
    Failed,
}

/// Where the dispatcher stands with its controller.
#[derive(Clone, Copy, Debug, PartialEq, Eq, Structural)]
pub enum Phase {
    /// No controller, and none being built.
    Uninitialized,
    /// A controller is being built in the background.
    Pending,
    /// The controller is present.
    Ready(State),
}

/// What the host is to do after an event.
#[derive(Clone, Copy, Debug, PartialEq, Eq, Structural)]
pub enum Response {
    /// Nothing.
    Ignore,
    /// Terminate the event loop.
    Exit,
    /// Create the window and build the controller now, blocking until it is done.
    CreateController,
    /// Create the window and build the controller in the background; it
    /// comes back through `user_event`.
    SpawnController,
    /// Apply this configuration to the surface.
    Configure(SurfaceSize),
    /// Request a redraw, and apply this configuration to the surface.
    RedrawAndConfigure(SurfaceSize),
    /// Request a redraw, and nothing else.
    RequestRedraw,
    /// Request a redraw, then acquire, clear, draw, submit and present a frame.
    DrawFrame(DrawCall),
    /// Log the surface error; the frame is dropped.
    ReportError,
}

/// The application event dispatcher: the controller slot, and whether the
/// controller is built in the background (as on hosts whose event loop
/// cannot block).
#[derive(Clone, Copy, Debug, PartialEq, Eq, Structural)]
pub struct App {
    pub phase: Phase,
    pub deferred: bool,
}

/// What is asked of the host after resizing a controller: a configuration to
/// apply, or nothing when the size has a zero side.
pub open spec fn configure_response(s: State, width: u32, height: u32) -> Response {
    if is_degenerate(width, height) {
        Response::Ignore
    } else {
        Response::Configure(s.resized(width, height).config)
    }
}

impl App {
    /// The state and response after the host reports that the application resumed.
    pub open spec fn on_resumed(self) -> (App, Response) {
        if !self.deferred {
            (self, Response::CreateController)
        } else if self.phase == Phase::Uninitialized {
            (App { phase: Phase::Pending, ..self }, Response::SpawnController)
        } else {
            (self, Response::Ignore)
        }
    }

    /// The state and response after a built controller arrives, while the
    /// window measures `width` by `height`.
    pub open spec fn on_user_event(self, s: State, width: u32, height: u32) -> (App, Response) {
        if self.deferred {
            (
                App { phase: Phase::Ready(s.resized(width, height)), ..self },
                if is_degenerate(width, height) {
                    Response::RequestRedraw
                } else {
                    Response::RedrawAndConfigure(s.resized(width, height).config)
                },
            )
        } else {
            (App { phase: Phase::Ready(s), ..self }, Response::Ignore)
        }
    }

    /// The state and response after a window event.
    pub open spec fn on_window_event(self, e: WindowEvent) -> (App, Response) {
        match e {
            WindowEvent::CloseRequested => (self, Response::Exit),
            WindowEvent::KeyboardInput { key, pressed } => {
                if key == Key::Escape && pressed {
                    (self, Response::Exit)
                } else {
                    (self, Response::Ignore)
                }
            },
            WindowEvent::Resized { width, height } => match self.phase {
                Phase::Ready(s) => (
                    App { phase: Phase::Ready(s.resized(width, height)), ..self },
                    configure_response(s, width, height),
                ),
                _ => (self, Response::Ignore),
            },
            WindowEvent::RedrawRequested => match self.phase {
                Phase::Ready(s) => (
                    self,
                    match s.frame_plan() {
                        FramePlan::Skip => Response::RequestRedraw,
                        FramePlan::Draw(d) => Response::DrawFrame(d),
                    },
                ),
                _ => (self, Response::Ignore),
            },
            WindowEvent::Other => (self, Response::Ignore),
        }
    }

    /// The state and response after a frame's outcome, while the window
    /// measures `width` by `height`.
    pub open spec fn on_frame_outcome(self, outcome: FrameOutcome, width: u32, height: u32) -> (
        App,
        Response,
    ) {
        match self.phase {
            Phase::Ready(s) => match outcome {
                FrameOutcome::Presented => (self, Response::Ignore),
                FrameOutcome::Lost | FrameOutcome::Outdated => (
                    App { phase: Phase::Ready(s.resized(width, height)), ..self },
                    configure_response(s, width, height),
                ),
                FrameOutcome::Failed => (self, Response::ReportError),
            },
            _ => (self, Response::Ignore),
        }
    }

    /// A dispatcher without a controller. With `deferred`, the controller is
    /// built in the background and delivered later through `user_event`.
    pub fn new(deferred: bool) -> (r: App)
        ensures
            r.phase == Phase::Uninitialized,
            r.deferred == deferred,
    {
        App { phase: Phase::Uninitialized, deferred }
    }

    /// Handles the host's resumed event: build the controller inline, or start
    /// building it in the background once.
    pub fn resumed(&mut self) -> (r: Response)
        ensures
            (*final(self), r) == old(self).on_resumed(),
    {
        if !self.deferred {
            return Response::CreateController;
        }
        match self.phase {
            Phase::Uninitialized => {
                self.phase = Phase::Pending;
                Response::SpawnController
            },
            _ => Response::Ignore,
        }
    }

    /// Takes a built controller. Built in the background, it is first resized
    /// to the window's current size and a redraw is requested, as the size may
    /// have changed meanwhile.
    pub fn user_event(&mut self, state: State, width: u32, height: u32) -> (r: Response)
        ensures
            (*final(self), r) == old(self).on_user_event(state, width, height),
    {
        if self.deferred {
            let mut s = state;
            let c = s.resize(width, height);
            self.phase = Phase::Ready(s);
            match c {
                Some(size) => Response::RedrawAndConfigure(size),
                None => Response::RequestRedraw,
            }
        } else {
            self.phase = Phase::Ready(state);
            Response::Ignore
        }
    }

    /// Handles a window event. Close requests and Escape presses end the loop
    /// in every phase; resizes and redraws reach the controller only when it
    /// is present; everything else is ignored.
    pub fn window_event(&mut self, event: WindowEvent) -> (r: Response)
        ensures
            (*final(self), r) == old(self).on_window_event(event),
            event == WindowEvent::CloseRequested ==> r == Response::Exit,
    {
        match event {
            WindowEvent::CloseRequested => Response::Exit,
            WindowEvent::KeyboardInput { key, pressed } => {
                if pressed && matches!(key, Key::Escape) {
                    Response::Exit
                } else {
                    Response::Ignore
                }
            },
            WindowEvent::Resized { width, height } => match self.phase {
                Phase::Ready(s) => {
                    let mut s2 = s;
                    let c = s2.resize(width, height);
                    self.phase = Phase::Ready(s2);
                    match c {
                        Some(size) => Response::Configure(size),
                        None => Response::Ignore,
                    }
                },
                _ => Response::Ignore,
            },
            WindowEvent::RedrawRequested => match self.phase {
                Phase::Ready(s) => match s.render() {
                    FramePlan::Skip => Response::RequestRedraw,
                    FramePlan::Draw(d) => Response::DrawFrame(d),
                },
                _ => Response::Ignore,
            },
            WindowEvent::Other => Response::Ignore,
        }
    }

    /// Handles the outcome of a frame. A lost or outdated surface is resized
    /// to the window's current size at once; any other error is reported.
    pub fn frame_outcome(&mut self, outcome: FrameOutcome, width: u32, height: u32) -> (r: Response)
        ensures
            (*final(self), r) == old(self).on_frame_outcome(outcome, width, height),
    {
        match self.phase {
            Phase::Ready(s) => match outcome {
                FrameOutcome::Presented => Response::Ignore,
                FrameOutcome::Lost | FrameOutcome::Outdated => {
                    let mut s2 = s;
                    let c = s2.resize(width, height);
                    self.phase = Phase::Ready(s2);
                    match c {
                        Some(size) => Response::Configure(size),
                        None => Response::Ignore,
                    }
                },
                FrameOutcome::Failed => Response::ReportError,
            },
            _ => Response::Ignore,
        }
    }

    /// The controller, when it is present.
    pub fn state(&self) -> (r: Option<State>)
        ensures
            r == (match self.phase {
                Phase::Ready(s) => Some(s),
                _ => None,
            }),
    {
        match self.phase {
            Phase::Ready(s) => Some(s),
            _ => None,
        }
    }
}

/// A close request ends the event loop with one exit response and changes
/// nothing, whatever the phase of the dispatcher.
pub proof fn lemma_close_always_exits(a: App)
    ensures
        a.on_window_event(WindowEvent::CloseRequested) == (a, Response::Exit),
{
}

/// Pressing Escape ends the event loop in every phase; releasing it does not.
pub proof fn lemma_escape_press_exits(a: App)
    ensures
        a.on_window_event(WindowEvent::KeyboardInput { key: Key::Escape, pressed: true })
            == (a, Response::Exit),
        a.on_window_event(WindowEvent::KeyboardInput { key: Key::Escape, pressed: false })
            == (a, Response::Ignore),
{
}

/// After a lost or outdated surface, what the dispatcher does next is resize
/// its controller to the window's current size.
pub proof fn lemma_lost_surface_resizes(
    a: App,
    s: State,
    outcome: FrameOutcome,
    width: u32,
    height: u32,
)
    requires
        a.phase == Phase::Ready(s),
        outcome == FrameOutcome::Lost || outcome == FrameOutcome::Outdated,
    ensures
        a.on_frame_outcome(outcome, width, height).0.phase == Phase::Ready(s.resized(width, height)),
        a.on_frame_outcome(outcome, width, height).1 == configure_response(s, width, height),
        !is_degenerate(width, height) ==> a.on_frame_outcome(outcome, width, height).1
            == Response::Configure(s.resized(width, height).config),
{
}

/// No controller operation happens before the controller is present: every
/// window event and frame outcome leaves a dispatcher without one as it was,
/// and asks for nothing but an exit or nothing.
pub proof fn lemma_no_controller_no_work(a: App, e: WindowEvent, o: FrameOutcome, w: u32, h: u32)
    requires
        !(a.phase is Ready),
    ensures
        a.on_window_event(e).0 == a,
        a.on_window_event(e).1 == Response::Exit || a.on_window_event(e).1 == Response::Ignore,
        a.on_frame_outcome(o, w, h) == (a, Response::Ignore),
{
}

} // verus!
