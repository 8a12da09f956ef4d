//! What the keys of the terminal mean, and when the program ends.

use crate::tui::{Nav, TuiEvent};
use vstd::prelude::*;

verus! {

/// A key of the terminal.
#[derive(Debug, Clone, Copy, PartialEq, Eq, Structural)]
pub enum KeyCode {
    Char(char),
    Esc,
    Up,
    Down,
    PageUp,
    PageDown,
    Home,
    End,
    /// Any other key.
    Other,
}

/// What happened to a key.
#[derive(Debug, Clone, Copy, PartialEq, Eq, Structural)]
pub enum KeyEventKind {
    Press,
    Repeat,
    Release,
}

/// What the terminal reports.
#[derive(Debug, Clone, Copy, PartialEq, Eq, Structural)]
pub enum Event {
    Key { code: KeyCode, kind: KeyEventKind },
    Resize,
    /// Anything else: the mouse, the focus, pasted text.
    Other,
}

/// What follows from a report of the terminal.
#[derive(Debug, Clone, Copy, PartialEq, Eq, Structural)]
pub enum InputAction {
    /// End the program.
    Quit,
    /// Move the selection, then draw.
    Navigate(Nav),
    /// Draw.
    Render,
    /// Nothing.
    Ignore,
}

/// One of the two activities that run side by side came to its end.
#[derive(Debug, Clone, Copy, PartialEq, Eq, Structural)]
pub enum Ended {
    /// The scoring run, with or without a failure.
    Scoring { failed: bool },
    /// The reading of the terminal.
    Input,
}

/// What the program does when an activity has ended.
#[derive(Debug, Clone, Copy, PartialEq, Eq, Structural)]
pub enum Verdict {
    /// Go on reading the terminal.
    Wait,
    /// End at once with the failure of the scoring run.
    Fail,
    /// Tell the view to quit, then end with what the reading ended with.
    Quit,
}

/// The meaning of a report. Only a key that is pressed means anything: `q`
/// and escape end the program, and the arrows, the page keys, home and end
/// move the selection. A change of the terminal's size asks for a new frame.
pub open spec fn interpreted(event: Event) -> InputAction {
    match event {
        Event::Key { code, kind: KeyEventKind::Press } => match code {
            KeyCode::Char(c) => if c == 'q' {
                InputAction::Quit
            } else {
                InputAction::Ignore
            },
            KeyCode::Esc => InputAction::Quit,
            KeyCode::Up => InputAction::Navigate(Nav::Up),
            KeyCode::Down => InputAction::Navigate(Nav::Down),
            KeyCode::PageUp => InputAction::Navigate(Nav::PageUp),
            KeyCode::PageDown => InputAction::Navigate(Nav::PageDown),
            KeyCode::Home => InputAction::Navigate(Nav::Home),
            KeyCode::End => InputAction::Navigate(Nav::End),
            KeyCode::Other => InputAction::Ignore,
        },
        Event::Key { .. } => InputAction::Ignore,
        Event::Resize => InputAction::Render,
        Event::Other => InputAction::Ignore,
    }
}

/// What the program does when `ended` has ended: a failed scoring run ends
/// it at once, a complete one leaves the results on the screen until the
/// reading of the terminal ends, and that ends the program.
pub open spec fn decided(ended: Ended) -> Verdict {
    match ended {
        Ended::Scoring { failed } => if failed {
            Verdict::Fail
        } else {
            Verdict::Wait
        },
        Ended::Input => Verdict::Quit,
    }
}

impl InputAction {
    /// Whether the events are those that the action sends to the view: the
    /// move and then a request to draw, the request alone, or nothing.
    pub open spec fn sends(self, events: Seq<TuiEvent>) -> bool {
        match self {
            InputAction::Navigate(nav) => {
                &&& events.len() == 2
                &&& events[0] matches TuiEvent::Nav(sent) && sent == nav
                &&& events[1] is Render
            },
            InputAction::Render => events.len() == 1 && events[0] is Render,
            InputAction::Quit | InputAction::Ignore => events.len() == 0,
        }
    }

    /// The events that the action sends to the view, in their order.
    pub fn events(&self) -> (events: Vec<TuiEvent>)
        ensures
            self.sends(events@),
    {
        let mut events: Vec<TuiEvent> = Vec::new();
        match self {
            InputAction::Navigate(nav) => {
                events.push(TuiEvent::Nav(*nav));
                events.push(TuiEvent::Render);
            },
            InputAction::Render => {
                events.push(TuiEvent::Render);
            },
            InputAction::Quit | InputAction::Ignore => {},
        }
        events
    }
}

/// The meaning of one report of the terminal.
#[verifier::when_used_as_spec(interpreted)]
pub fn process_input(event: Event) -> (action: InputAction)
    ensures
        action == interpreted(event),
{
    match event {
        Event::Key { code, kind: KeyEventKind::Press } => match code {
            KeyCode::Char(c) => if c == 'q' {
                InputAction::Quit
            } else {
                InputAction::Ignore
            },
            KeyCode::Esc => InputAction::Quit,
            KeyCode::Up => InputAction::Navigate(Nav::Up),
            KeyCode::Down => InputAction::Navigate(Nav::Down),
            KeyCode::PageUp => InputAction::Navigate(Nav::PageUp),
            KeyCode::PageDown => InputAction::Navigate(Nav::PageDown),
            KeyCode::Home => InputAction::Navigate(Nav::Home),
            KeyCode::End => InputAction::Navigate(Nav::End),
            KeyCode::Other => InputAction::Ignore,
        },
        Event::Key { .. } => InputAction::Ignore,
        Event::Resize => InputAction::Render,
        Event::Other => InputAction::Ignore,
    }
}

/// What the program does when one of its two activities has ended.
#[verifier::when_used_as_spec(decided)]
pub fn input_and_process(ended: Ended) -> (verdict: Verdict)
    ensures
        verdict == decided(ended),
{
    match ended {
        Ended::Scoring { failed: true } => Verdict::Fail,
        Ended::Scoring { failed: false } => Verdict::Wait,
        Ended::Input => Verdict::Quit,
    }
}

/// Only a pressed key or a change of size makes the view draw or move:
/// every other report is ignored.
pub proof fn releases_are_ignored(code: KeyCode, kind: KeyEventKind)
    requires
        kind != KeyEventKind::Press,
    ensures
        interpreted(Event::Key { code, kind }) == InputAction::Ignore,
{
}

} // verus!
