//! What holds of the controller in every state, stated over its model and
//! proved.

use vstd::prelude::*;

use crate::control::{Action, ControlFlow, Model};
use crate::event::{Event, Key, KeyState};
use crate::present::PresentError;
use crate::surface::{Size, SurfaceConfig};

verus! {

/// After the window has taken a size with both sides non-zero, the swap
/// configuration has exactly that extent, the loop-control flag is
/// untouched, and a redraw request is answered by a presentation attempt
/// that changes nothing.  Whatever that attempt reports short of running out
/// of memory, the controller raises no exit and leaves the configuration in
/// place.
pub proof fn lemma_reconfigure_then_present<C>(
    state: Model<C>,
    size: Size,
    outcome: Result<(), PresentError>,
)
    requires
        size.width > 0,
        size.height > 0,
    ensures
        state.resized(size).config().extent() == size,
        state.resized(size).config().extent().has_area(),
        state.resized(size).flow == state.flow,
        state.resized(size).action_for(Event::RedrawRequest) == Action::Present,
        state.resized(size).after_event(Event::RedrawRequest) == state.resized(size),
        outcome != Err::<(), PresentError>(PresentError::OutOfMemory) ==> {
            &&& state.resized(size).after_present(outcome) == state.resized(size)
            &&& state.resized(size).action_after_present(outcome) != Action::Exit
        },
{
}

/// After every resize event the configuration's extent is the size that the
/// event carried, with the pixel format and the presentation mode as they
/// were at start-up.
pub proof fn lemma_config_follows_window<C>(state: Model<C>, size: Size)
    ensures
        state.after_event(Event::Resize(size)).config().extent() == size,
        state.after_event(Event::Resize(size)).config().format == state.config().format,
        state.after_event(Event::Resize(size)).config().present_mode
            == state.config().present_mode,
        state.after_event(Event::Resize(size)).config() == state.config().with_extent(size),
{
}

/// A lost presentation chain costs one frame and nothing else: the
/// controller answers by asking for the chain to be rebuilt from the
/// configuration in force, the state is what it was, the next redraw request
/// is answered by another attempt, and when that attempt succeeds the loop
/// simply goes on.
pub proof fn lemma_lost_is_recovered<C>(state: Model<C>)
    ensures
        state.after_present(Err(PresentError::Lost)) == state,
        state.after_present(Err(PresentError::Lost)) == state.resized(state.size),
        state.action_after_present(Err(PresentError::Lost)) == Action::Reconfigure(
            state.config(),
        ),
        state.after_present(Err(PresentError::Lost)).action_for(Event::RedrawRequest)
            == Action::Present,
        state.after_present(Err(PresentError::Lost)).after_present(Ok(())) == state,
        state.after_present(Err(PresentError::Lost)).action_after_present(Ok(()))
            == Action::Continue,
{
}

/// A failure that is not fatal never changes the state, and is never
/// answered by an exit.
pub proof fn lemma_transient_keeps_running<C>(state: Model<C>, error: PresentError)
    requires
        !error.fatal(),
    ensures
        state.after_present(Err(error)) == state,
        state.action_after_present(Err(error)) != Action::Exit,
        error != PresentError::Lost ==> state.action_after_present(Err(error))
            == Action::SkipFrame(error),
{
}

/// Running out of memory ends the loop, from every state.
pub proof fn lemma_out_of_memory_exits<C>(state: Model<C>)
    ensures
        state.after_present(Err(PresentError::OutOfMemory)).flow == ControlFlow::Exit,
        state.action_after_present(Err(PresentError::OutOfMemory)) == Action::Exit,
{
}

/// Taking the same size twice is the same as taking it once: the second
/// resize leaves the state as the first made it and asks for the same
/// configuration.
pub proof fn lemma_resize_idempotent<C>(state: Model<C>, size: Size)
    ensures
        state.resized(size).resized(size) == state.resized(size),
        state.after_event(Event::Resize(size)).after_event(Event::Resize(size))
            == state.after_event(Event::Resize(size)),
        state.after_event(Event::Resize(size)).action_for(Event::Resize(size))
            == state.action_for(Event::Resize(size)),
        state.resized(size).config() == SurfaceConfig::for_size(size),
{
}

/// A press of the cancel key ends the loop, whatever the size, the flag and
/// the clear colour of the state it arrives in; a close request does the
/// same.
pub proof fn lemma_cancel_key_exits<C>(state: Model<C>)
    ensures
        state.after_event(
            Event::KeyInput { state: KeyState::Pressed, key: Some(Key::Escape) },
        ).flow == ControlFlow::Exit,
        state.action_for(Event::KeyInput { state: KeyState::Pressed, key: Some(Key::Escape) })
            == Action::Exit,
        state.after_event(Event::CloseRequest).flow == ControlFlow::Exit,
        state.action_for(Event::CloseRequest) == Action::Exit,
{
}

/// The controller asks the caller to leave the loop exactly when the event
/// ends it, and in no other step does the flag change.
pub proof fn lemma_exit_only_on_request<C>(state: Model<C>, event: Event)
    ensures
        state.action_for(event) == Action::Exit <==> event.ends_loop(),
        event.ends_loop() ==> state.after_event(event).flow == ControlFlow::Exit,
        !event.ends_loop() ==> state.after_event(event).flow == state.flow,
{
}

/// Once the loop has been told to stop, no event and no presentation outcome
/// sets it going again.
pub proof fn lemma_exit_is_sticky<C>(
    state: Model<C>,
    event: Event,
    outcome: Result<(), PresentError>,
)
    requires
        state.flow == ControlFlow::Exit,
    ensures
        state.after_event(event).flow == ControlFlow::Exit,
        state.after_present(outcome).flow == ControlFlow::Exit,
{
}

/// No step of the controller touches the clear colour, and only a resize
/// event changes the size.
pub proof fn lemma_steps_keep_color<C>(
    state: Model<C>,
    event: Event,
    outcome: Result<(), PresentError>,
)
    ensures
        state.after_event(event).clear_color == state.clear_color,
        state.after_present(outcome).clear_color == state.clear_color,
        state.after_present(outcome).size == state.size,
        !(event is Resize) ==> state.after_event(event).size == state.size,
{
}

/// A pointer move is answered with the extent to normalise the pointer by,
/// which is the size that the window last took; when events have run dry the
/// controller asks for one redraw.
pub proof fn lemma_pointer_and_idle<C>(state: Model<C>, size: Size)
    ensures
        state.after_event(Event::Resize(size)).action_for(Event::PointerMove)
            == Action::Recolor(size),
        state.after_event(Event::PointerMove) == state,
        state.action_for(Event::Idle) == Action::RequestRedraw,
        state.after_event(Event::Idle) == state,
{
}

} // verus!
