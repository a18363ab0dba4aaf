//! The input loop: draw, wait for an event, then draw again or quit.

use vstd::prelude::*;

use crate::snapshot::CovidApiResponse;

verus! {

/// The key that quits the dashboard.
pub const QUIT_KEY: char = 'q';

/// Where the loop is.
#[derive(Clone, Copy, Debug, PartialEq, Eq, Structural)]
pub enum LoopState {
    Drawing,
    AwaitingInput,
    Exiting,
}

/// An input event from the terminal.
#[derive(Clone, Copy, Debug, PartialEq, Eq, Structural)]
pub enum InputEvent {
    /// A key press of a character key.
    KeyChar(char),
    /// A key press of any other key (arrows, function keys, ...).
    OtherKey,
    /// Any event that is not a key press (resize, mouse, ...).
    NonKey,
}

/// What happened since the last step.
#[derive(Clone, Copy, Debug, PartialEq, Eq, Structural)]
pub enum LoopEvent {
    /// A frame was drawn.
    Drawn,
    /// An input event arrived.
    Input(InputEvent),
}

/// What the loop asks its runner to do next.
#[derive(Clone, Copy, Debug, PartialEq, Eq, Structural)]
pub enum Action {
    /// Draw a frame of the snapshot.
    Draw,
    /// Block until the next input event.
    WaitForInput,
    /// Restore the terminal and stop.
    Restore,
}

pub open spec fn is_quit(e: InputEvent) -> bool {
    e == InputEvent::KeyChar(QUIT_KEY)
}

/// The state after `e` in state `s`.
pub open spec fn next_spec(s: LoopState, e: LoopEvent) -> LoopState {
    match (s, e) {
        (LoopState::Drawing, LoopEvent::Drawn) => LoopState::AwaitingInput,
        (LoopState::AwaitingInput, LoopEvent::Input(i)) => if is_quit(i) {
            LoopState::Exiting
        } else {
            LoopState::Drawing
        },
        _ => s,
    }
}

/// The action that state `s` asks for.
pub open spec fn action_spec(s: LoopState) -> Action {
    match s {
        LoopState::Drawing => Action::Draw,
        LoopState::AwaitingInput => Action::WaitForInput,
        LoopState::Exiting => Action::Restore,
    }
}

/// The state reached from `s` after the events of `es`, in order.
pub open spec fn run(s: LoopState, es: Seq<LoopEvent>) -> LoopState
    decreases es.len(),
{
    if es.len() == 0 {
        s
    } else {
        run(next_spec(s, es[0]), es.drop_first())
    }
}

/// The state after `e` in state `s`.
pub fn next_state(s: LoopState, e: LoopEvent) -> (r: LoopState)
    ensures
        r == next_spec(s, e),
{
    match (s, e) {
        (LoopState::Drawing, LoopEvent::Drawn) => LoopState::AwaitingInput,
        (LoopState::AwaitingInput, LoopEvent::Input(i)) => {
            if i == InputEvent::KeyChar(QUIT_KEY) {
                LoopState::Exiting
            } else {
                LoopState::Drawing
            }
        },
        _ => s,
    }
}

/// The action that state `s` asks for.
pub fn action_of(s: LoopState) -> (r: Action)
    ensures
        r == action_spec(s),
{
    match s {
        LoopState::Drawing => Action::Draw,
        LoopState::AwaitingInput => Action::WaitForInput,
        LoopState::Exiting => Action::Restore,
    }
}

/// A running dashboard: its snapshot, which never changes, and its loop state.
pub struct Session {
    pub snapshot: CovidApiResponse,
    pub state: LoopState,
}

impl Session {
    /// A session that starts by drawing `snapshot`.
    pub fn new(snapshot: CovidApiResponse) -> (r: Session)
        ensures
            r.snapshot == snapshot,
            r.state == LoopState::Drawing,
    {
        Session { snapshot, state: LoopState::Drawing }
    }

    /// What the session asks for now.
    pub fn action(&self) -> (r: Action)
        ensures
            r == action_spec(self.state),
    {
        action_of(self.state)
    }

    /// Takes in `e` and returns what the session asks for next; the snapshot
    /// stays as it was.
    pub fn advance(&mut self, e: LoopEvent) -> (r: Action)
        ensures
            final(self).snapshot == old(self).snapshot,
            final(self).state == next_spec(old(self).state, e),
            r == action_spec(final(self).state),
    {
        self.state = next_state(self.state, e);
        action_of(self.state)
    }
}

/// The quit key, pressed while the loop waits for input, ends the loop:
/// no sequence of events leads out of the exiting state, so no frame is drawn
/// after it.
pub proof fn lemma_quit_ends_drawing(es: Seq<LoopEvent>)
    ensures
        next_spec(LoopState::AwaitingInput, LoopEvent::Input(InputEvent::KeyChar(QUIT_KEY)))
            == LoopState::Exiting,
        run(LoopState::Exiting, es) == LoopState::Exiting,
        action_spec(run(LoopState::Exiting, es)) != Action::Draw,
    decreases es.len(),
{
    if es.len() > 0 {
        lemma_quit_ends_drawing(es.drop_first());
    }
}

/// Any other input event, while the loop waits for input, leads back to
/// drawing. (`Session::advance` keeps the snapshot, so the frame drawn then
/// shows the same data.)
pub proof fn lemma_other_input_redraws(i: InputEvent)
    requires
        !is_quit(i),
    ensures
        next_spec(LoopState::AwaitingInput, LoopEvent::Input(i)) == LoopState::Drawing,
        action_spec(next_spec(LoopState::AwaitingInput, LoopEvent::Input(i))) == Action::Draw,
{
}

} // verus!
