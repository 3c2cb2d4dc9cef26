//! The window view state and the event dispatch that drives redraws.
//!
//! The dispatcher owns the mutable view state (pixel size and density
//! factor) and maps each incoming window event to a state update and an
//! action for the unverified front end: stop the loop, redraw the scene,
//! or do nothing.

use vstd::prelude::*;
use crate::frac::Frac;

verus! {

/// The mutable view state: the window's pixel size and the display's
/// density factor.
#[derive(Clone, Copy, Debug, PartialEq, Eq, Structural)]
pub struct ViewState {
    pub width: u32,
    pub height: u32,
    pub density: Frac,
}

impl ViewState {
    /// The density factor is always a well-formed positive fraction.
    pub open spec fn wf(self) -> bool {
        self.density.density_wf()
    }

    /// The view state at window creation.
    pub fn new(width: u32, height: u32, density: Frac) -> (r: ViewState)
        requires
            density.density_wf(),
        ensures
            r == (ViewState { width, height, density }),
            r.wf(),
    {
        ViewState { width, height, density }
    }
}

/// The window events the dispatcher reacts to.  Anything else the
/// windowing system may deliver is mapped to `Other` by the front end.
#[derive(Clone, Copy, Debug, PartialEq, Eq, Structural)]
pub enum Event {
    /// The user asked to close the window.
    CloseRequested,
    /// The window was resized to the given pixel size.
    Resized(u32, u32),
    /// The display's density factor changed.
    DensityChanged(Frac),
    /// Any other event.
    Other,
}

impl Event {
    /// A density carried by an event must be a well-formed factor.
    pub open spec fn wf(self) -> bool {
        match self {
            Event::DensityChanged(d) => d.density_wf(),
            _ => true,
        }
    }
}

/// What the front end must do after one dispatch step.
#[derive(Clone, Copy, Debug, PartialEq, Eq, Structural)]
pub enum Action {
    /// Leave the event loop; the window is closing.
    Stop,
    /// Resize the surface, clear it, redraw the scene with the updated
    /// state, and present the buffer.
    Redraw,
    /// Nothing; wait for the next event.
    Ignore,
}

/// One step of the event loop: updates the view state from the event and
/// says what to do next.  A close request stops the loop with the state
/// untouched; a resize or a density change records the new value and asks
/// for a redraw with the updated state; any other event is ignored.
pub fn dispatch(state: &mut ViewState, event: Event) -> (a: Action)
    requires
        old(state).wf(),
        event.wf(),
    ensures
        final(state).wf(),
        match event {
            Event::CloseRequested => a == Action::Stop && *final(state) == *old(state),
            Event::Resized(w, h) => a == Action::Redraw && *final(state) == (ViewState {
                width: w,
                height: h,
                density: old(state).density,
            }),
            Event::DensityChanged(d) => a == Action::Redraw && *final(state) == (ViewState {
                width: old(state).width,
                height: old(state).height,
                density: d,
            }),
            Event::Other => a == Action::Ignore && *final(state) == *old(state),
        },
{
    match event {
        Event::CloseRequested => Action::Stop,
        Event::Resized(w, h) => {
            state.width = w;
            state.height = h;
            Action::Redraw
        },
        Event::DensityChanged(d) => {
            state.density = d;
            Action::Redraw
        },
        Event::Other => Action::Ignore,
    }
}

/// The pixel size to request for a new window: a 1024 x 728 logical area
/// scaled by the density factor, truncated to whole pixels.
pub fn initial_window_size(density: Frac) -> (r: (u32, u32))
    requires
        density.density_wf(),
    ensures
        r.0 == 1024 * (density.num as int) / (density.den as int),
        r.1 == 728 * (density.num as int) / (density.den as int),
{
    let n = density.num as u64;
    let d = density.den as u64;
    let w = 1024 * n / d;
    let h = 728 * n / d;
    ((w as u32), (h as u32))
}

} // verus!
