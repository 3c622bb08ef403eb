//! The frame loop controller: one owned context object, and the step
//! functions that take it from event to event.
//!
//! The caller runs the loop.  It hands every event to `State::dispatch`,
//! carries out the action that comes back, and, where the action was to
//! present a frame, reports the outcome to `State::presented`.

use vstd::prelude::*;

use crate::event::Event;
use crate::present::PresentError;
use crate::surface::{Size, SurfaceConfig, SurfaceManager};

verus! {

/// Whether the loop goes on.
#[derive(Clone, Copy, Debug, PartialEq, Eq, Structural)]
pub enum ControlFlow {
    /// Keep delivering events.
    Poll,
    /// Stop the loop.  Once set it stays.
    Exit,
}

/// What the caller has to do after a step.
#[derive(Clone, Copy, Debug, PartialEq, Eq, Structural)]
pub enum Action {
    /// Nothing.
    Continue,
    /// Set the first two channels of the clear colour to the pointer's
    /// coordinates, each divided by the matching side of this extent, and
    /// keep the third.
    Recolor(Size),
    /// Build the presentation chain anew from this configuration.
    Reconfigure(SurfaceConfig),
    /// Ask the window system for one redraw.
    RequestRedraw,
    /// Acquire the next frame, clear it to the clear colour and submit it,
    /// then report the outcome to `State::presented`.
    Present,
    /// The frame was dropped for this reason; the next redraw tries again.
    SkipFrame(PresentError),
    /// Leave the loop.
    Exit,
}

/// The mathematical state of the loop: the window size that the surface is
/// configured for, the loop-control flag, and the clear colour.
pub struct Model<C> {
    pub size: Size,
    pub flow: ControlFlow,
    pub clear_color: C,
}

impl<C> Model<C> {
    /// The state at start-up.
    pub open spec fn initial(size: Size, clear_color: C) -> Model<C> {
        Model { size, flow: ControlFlow::Poll, clear_color }
    }

    /// The swap configuration in this state.
    pub open spec fn config(self) -> SurfaceConfig {
        SurfaceConfig::for_size(self.size)
    }

    /// This state after the window took a new size.
    pub open spec fn resized(self, size: Size) -> Model<C> {
        Model { size, flow: self.flow, clear_color: self.clear_color }
    }

    /// This state with the loop told to stop.
    pub open spec fn stopped(self) -> Model<C> {
        Model { size: self.size, flow: ControlFlow::Exit, clear_color: self.clear_color }
    }

    /// This state with another clear colour.
    pub open spec fn recolored(self, clear_color: C) -> Model<C> {
        Model { size: self.size, flow: self.flow, clear_color }
    }

    /// The state that follows an event.
    pub open spec fn after_event(self, event: Event) -> Model<C> {
        match event {
            Event::Resize(size) => self.resized(size),
            _ => if event.ends_loop() { self.stopped() } else { self },
        }
    }

    /// The action that an event calls for.
    pub open spec fn action_for(self, event: Event) -> Action {
        match event {
            Event::PointerMove => Action::Recolor(self.size),
            Event::Resize(size) => Action::Reconfigure(SurfaceConfig::for_size(size)),
            Event::Idle => Action::RequestRedraw,
            Event::RedrawRequest => Action::Present,
            _ => if event.ends_loop() { Action::Exit } else { Action::Continue },
        }
    }

    /// The state that follows a presentation attempt.
    pub open spec fn after_present(self, outcome: Result<(), PresentError>) -> Model<C> {
        match outcome {
            Err(error) if error.fatal() => self.stopped(),
            _ => self,
        }
    }

    /// The action that the outcome of a presentation attempt calls for.
    pub open spec fn action_after_present(self, outcome: Result<(), PresentError>) -> Action {
        match outcome {
            Ok(_) => Action::Continue,
            Err(PresentError::Lost) => Action::Reconfigure(self.config()),
            Err(error) => if error.fatal() { Action::Exit } else { Action::SkipFrame(error) },
        }
    }
}

/// The context object of the loop.  `C` is the caller's type for a colour.
#[derive(Debug)]
pub struct State<C> {
    manager: SurfaceManager,
    flow: ControlFlow,
    clear_color: C,
}

impl<C> View for State<C> {
    type V = Model<C>;

    closed spec fn view(&self) -> Model<C> {
        Model { size: self.manager@, flow: self.flow, clear_color: self.clear_color }
    }
}

impl<C> State<C> {
    /// The state for a window of the given size, with the loop running.
    pub fn new(size: Size, clear_color: C) -> (state: State<C>)
        ensures
            state@ == Model::initial(size, clear_color),
    {
        State { manager: SurfaceManager::new(size), flow: ControlFlow::Poll, clear_color }
    }

    /// Takes over a new window size.
    pub fn resize(&mut self, new_size: Size)
        ensures
            final(self)@ == old(self)@.resized(new_size),
    {
        let _ = self.manager.reconfigure(new_size);
    }

    /// Whether the event is used up by the render state, so that the loop
    /// itself does not react to it.  That holds of pointer moves alone.
    pub fn input(&self, event: &Event) -> (consumed: bool)
        ensures
            consumed == (*event == Event::PointerMove),
    {
        match event {
            Event::PointerMove => true,
            _ => false,
        }
    }

    /// Hook for work to be done once per frame before drawing.  There is
    /// none so far.
    pub fn update(&mut self)
        ensures
            final(self)@ == old(self)@,
    {
    }

    /// Reacts to one event.
    pub fn dispatch(&mut self, event: &Event) -> (action: Action)
        ensures
            final(self)@ == old(self)@.after_event(*event),
            action == old(self)@.action_for(*event),
    {
        if self.input(event) {
            return Action::Recolor(self.manager.size());
        }
        match event {
            Event::Resize(size) => {
                self.resize(*size);
                Action::Reconfigure(self.manager.config())
            },
            Event::Idle => Action::RequestRedraw,
            Event::RedrawRequest => {
                self.update();
                Action::Present
            },
            _ => {
                if event.requests_exit() {
                    self.flow = ControlFlow::Exit;
                    Action::Exit
                } else {
                    Action::Continue
                }
            },
        }
    }

    /// Reacts to the outcome of the presentation attempt that
    /// `Action::Present` asked for.
    pub fn presented(&mut self, outcome: Result<(), PresentError>) -> (action: Action)
        ensures
            final(self)@ == old(self)@.after_present(outcome),
            action == old(self)@.action_after_present(outcome),
    {
        match outcome {
            Ok(_) => Action::Continue,
            Err(PresentError::Lost) => {
                let size = self.manager.size();
                self.resize(size);
                Action::Reconfigure(self.manager.config())
            },
            Err(error) => {
                if error.is_fatal() {
                    self.flow = ControlFlow::Exit;
                    Action::Exit
                } else {
                    Action::SkipFrame(error)
                }
            },
        }
    }

    /// Replaces the clear colour.
    pub fn set_clear_color(&mut self, clear_color: C)
        ensures
            final(self)@ == old(self)@.recolored(clear_color),
    {
        self.clear_color = clear_color;
    }

    /// The colour that the next frame is cleared to.
    pub fn clear_color(&self) -> (clear_color: &C)
        ensures
            *clear_color == self@.clear_color,
    {
        &self.clear_color
    }

    /// The window size that the surface is configured for.
    pub fn size(&self) -> (size: Size)
        ensures
            size == self@.size,
    {
        self.manager.size()
    }

    /// The configuration that the presentation chain is built from.
    pub fn config(&self) -> (config: SurfaceConfig)
        ensures
            config == self@.config(),
    {
        self.manager.config()
    }

    /// The loop-control flag.
    pub fn control_flow(&self) -> (flow: ControlFlow)
        ensures
            flow == self@.flow,
    {
        self.flow
    }
}

} // verus!
