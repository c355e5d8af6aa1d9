//! The window lifecycle controller: a state machine that owns the decision
//! of what to do with each platform event, kept apart from the platform
//! calls themselves so that every decision can be verified.
//!
//! The controller's whole persistent state is `Option<SurfaceSize>`: `None`
//! before initialization (or after a failed one), `Some` once a window and
//! its surface exist. A runtime shell translates platform notifications into
//! [`Event`] values, feeds them to [`Controller::handle_event`], and performs
//! the returned [`Action`] against the real window and surface.

use vstd::prelude::*;

verus! {

/// Fixed physical width, in device pixels, that the window is created with.
pub const INITIAL_WIDTH: u32 = 800;

/// Fixed physical height, in device pixels, that the window is created with.
pub const INITIAL_HEIGHT: u32 = 600;

/// The pixel dimensions the controller believes its surface has.
#[derive(Clone, Copy, Debug, PartialEq, Eq, Structural)]
pub struct SurfaceSize {
    pub width: u32,
    pub height: u32,
}

impl SurfaceSize {
    /// A live surface never has a degenerate dimension: resize requests with
    /// a zero width or height are dropped before they reach it.
    pub open spec fn wf(self) -> bool {
        self.width > 0 && self.height > 0
    }
}

/// The fixed size every window is created with.
pub fn initial_size() -> (s: SurfaceSize)
    ensures
        s.width == INITIAL_WIDTH,
        s.height == INITIAL_HEIGHT,
        s.wf(),
{
    SurfaceSize { width: INITIAL_WIDTH, height: INITIAL_HEIGHT }
}

/// A platform notification, reduced to the data the controller reacts to.
///
/// `Resized` carries the new physical size in device pixels; a minimized or
/// otherwise degenerate window may report a zero width or height. Pointer
/// events are observed but reserved for future use; every notification the
/// controller has no reaction for maps to `Other`.
#[derive(Clone, Copy, Debug, PartialEq, Eq, Structural)]
pub enum Event {
    CloseRequested,
    Resized(u32, u32),
    RedrawRequested,
    PointerButton,
    PointerMoved,
    Other,
}

/// What the runtime shell must do in response to one event.
///
/// `Resize(w, h)` asks for the surface to be resized; both dimensions are
/// guaranteed nonzero. `Redraw` asks for the surface's back buffer to be
/// acquired and then presented; if acquisition fails, presentation is
/// skipped for that frame. A failed resize or redraw is logged and dropped:
/// it never changes the controller's state.
#[derive(Clone, Copy, Debug, PartialEq, Eq, Structural)]
pub enum Action {
    Exit,
    Resize(u32, u32),
    Redraw,
    Nothing,
}

/// How far window and surface setup got. Setup runs three fallible steps in
/// order: create the window, create a rendering context bound to it, create
/// a surface bound to both. The first step to fail names the outcome.
#[derive(Clone, Copy, Debug, PartialEq, Eq, Structural)]
pub enum SetupOutcome {
    WindowFailed,
    ContextFailed,
    SurfaceFailed,
    Ready,
}

/// The state setup leaves the controller in: ready with the initial size
/// exactly when every setup step succeeded, inert otherwise. A repeated
/// setup overwrites whatever state was there before.
pub open spec fn setup_state(outcome: SetupOutcome) -> Option<SurfaceSize> {
    if outcome is Ready {
        Some(SurfaceSize { width: INITIAL_WIDTH, height: INITIAL_HEIGHT })
    } else {
        None
    }
}

/// The state after one event is reacted to. Only an accepted resize — state
/// ready, both dimensions nonzero — changes anything; every other event,
/// and every resize with a zero dimension, keeps the state as it is.
pub open spec fn step_state(s: Option<SurfaceSize>, event: Event) -> Option<SurfaceSize> {
    match event {
        Event::Resized(w, h) => {
            if s is Some && w > 0 && h > 0 {
                Some(SurfaceSize { width: w, height: h })
            } else {
                s
            }
        },
        _ => s,
    }
}

/// The reaction table: the action owed for one event in a given state.
/// A close request always exits. A resize is acted on only when the state
/// is ready and both dimensions are nonzero; a redraw only when the state
/// is ready. Everything else calls for nothing.
pub open spec fn step_action(s: Option<SurfaceSize>, event: Event) -> Action {
    match event {
        Event::CloseRequested => Action::Exit,
        Event::Resized(w, h) => {
            if s is Some && w > 0 && h > 0 {
                Action::Resize(w, h)
            } else {
                Action::Nothing
            }
        },
        Event::RedrawRequested => {
            if s is Some {
                Action::Redraw
            } else {
                Action::Nothing
            }
        },
        _ => Action::Nothing,
    }
}

/// The lifecycle controller. Its whole persistent state is the size of the
/// surface it believes to exist: `None` while no usable surface does.
pub struct Controller {
    pub surface: Option<SurfaceSize>,
}

impl Controller {
    /// The controller is well formed when any surface it tracks has nonzero
    /// dimensions. Constructors establish this and every method keeps it.
    pub open spec fn wf(self) -> bool {
        self.surface matches Some(s) ==> s.wf()
    }

    /// A fresh controller: no window, no surface, inert until setup runs.
    pub fn new() -> (c: Controller)
        ensures
            c.surface is None,
            c.wf(),
    {
        Controller { surface: None }
    }

    /// Record what setup achieved. The controller becomes ready, at the
    /// initial window size, exactly when setup reported every step done;
    /// any reported failure leaves it inert, whatever it held before.
    pub fn apply_setup(&mut self, outcome: SetupOutcome)
        ensures
            final(self).surface == setup_state(outcome),
            final(self).wf(),
    {
        match outcome {
            SetupOutcome::Ready => {
                self.surface = Some(SurfaceSize { width: INITIAL_WIDTH, height: INITIAL_HEIGHT });
            },
            _ => {
                self.surface = None;
            },
        }
    }

    /// React to one event: move to the next state and say what the runtime
    /// shell must do, both exactly as the reaction table [`step_action`]
    /// and the transition [`step_state`] give them.
    pub fn handle_event(&mut self, event: Event) -> (action: Action)
        ensures
            final(self).surface == step_state(old(self).surface, event),
            action == step_action(old(self).surface, event),
            old(self).wf() ==> final(self).wf(),
    {
        match event {
            Event::CloseRequested => Action::Exit,
            Event::Resized(w, h) => {
                if self.surface.is_some() && w > 0 && h > 0 {
                    self.surface = Some(SurfaceSize { width: w, height: h });
                    Action::Resize(w, h)
                } else {
                    Action::Nothing
                }
            },
            Event::RedrawRequested => {
                if self.surface.is_some() {
                    Action::Redraw
                } else {
                    Action::Nothing
                }
            },
            _ => Action::Nothing,
        }
    }

    /// Whether a usable surface exists, i.e. whether resize and redraw
    /// events are acted on at all.
    pub fn is_ready(&self) -> (r: bool)
        ensures
            r == (self.surface is Some),
    {
        self.surface.is_some()
    }
}

} // verus!
