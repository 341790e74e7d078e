//! The hover tracker: pointer enter/exit events select the overlay's
//! geometric state and the frame the window must animate to next.

use vstd::prelude::*;
use crate::geometry::{
    collapsed_frame, collapsed_frame_spec, expanded_frame, expanded_frame_spec, ScreenMetrics,
    WindowFrame,
};

verus! {

/// The two geometric states of the overlay. Exactly one holds at any
/// instant; pointer events are the only source of transitions.
#[derive(Clone, Copy, PartialEq, Eq, Structural, Debug)]
pub enum OverlayState {
    Collapsed,
    Expanded,
}

/// A pointer notification delivered by the host toolkit for the overlay's
/// content surface. No payload is needed beyond which edge was crossed.
#[derive(Clone, Copy, PartialEq, Eq, Structural, Debug)]
pub enum PointerEvent {
    Entered,
    Exited,
}

/// The state an event selects. It depends on the event alone, never on
/// the state the overlay was in before.
pub open spec fn transition(state: OverlayState, event: PointerEvent) -> OverlayState {
    match event {
        PointerEvent::Entered => OverlayState::Expanded,
        PointerEvent::Exited => OverlayState::Collapsed,
    }
}

/// The frame an event targets on the given screen: the expanded frame on
/// enter, the collapsed frame on exit.
pub open spec fn event_target(event: PointerEvent, m: ScreenMetrics) -> WindowFrame {
    match event {
        PointerEvent::Entered => expanded_frame_spec(m),
        PointerEvent::Exited => collapsed_frame_spec(m),
    }
}

/// Handles one pointer event. With a screen attached it returns the frame
/// the window must animate to and moves the overlay to the state the
/// event selects; with no screen (headless or detached window) the event
/// is silently dropped and nothing changes.
pub fn handle_pointer_event(
    state: &mut OverlayState,
    event: PointerEvent,
    screen: Option<ScreenMetrics>,
) -> (target: Option<WindowFrame>)
    ensures
        match screen {
            Some(m) => {
                &&& target == Some(event_target(event, m))
                &&& *final(state) == transition(*old(state), event)
            },
            None => {
                &&& target is None
                &&& *final(state) == *old(state)
            },
        },
{
    match screen {
        Some(m) => {
            match event {
                PointerEvent::Entered => {
                    *state = OverlayState::Expanded;
                    Some(expanded_frame(m))
                },
                PointerEvent::Exited => {
                    *state = OverlayState::Collapsed;
                    Some(collapsed_frame(m))
                },
            }
        },
        None => None,
    }
}

/// The last event wins: whatever state a first event left the overlay in,
/// a second event selects the same state and the same target frame as it
/// would from any other starting state. In particular two consecutive
/// enter events end at the expanded frame, exactly as a single one does.
pub proof fn lemma_last_event_wins(
    s0: OverlayState,
    e1: PointerEvent,
    e2: PointerEvent,
    m: ScreenMetrics,
)
    ensures
        transition(transition(s0, e1), e2) == transition(s0, e2),
        transition(transition(s0, PointerEvent::Entered), PointerEvent::Entered)
            == OverlayState::Expanded,
        event_target(PointerEvent::Entered, m) == expanded_frame_spec(m),
{
}

} // verus!
