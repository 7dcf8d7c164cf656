//! The event dispatcher: a state machine that routes window events to the
//! surface manager and translates frame outcomes into loop-control actions.
//!
//! The platform layer runs the blocking event loop. For every window event
//! it calls [`Dispatcher::handle_window_event`] and performs the returned
//! [`Action`]; when that action is [`Action::Render`], it renders one frame
//! and reports the result through [`Dispatcher::handle_frame_outcome`].

use vstd::prelude::*;

use crate::surface::SurfaceState;
use crate::surface::WindowSize;

verus! {

/// The dispatcher's lifecycle: no frame may be rendered before the first
/// successful resize, and nothing happens after termination.
#[derive(Clone, Copy, Debug, PartialEq, Eq, Structural)]
pub enum Phase {
    Unconfigured,
    Configured,
    Terminated,
}

/// A window event, reduced to what the dispatcher decides on. The platform
/// layer translates its own event type into this one.
#[derive(Clone, Copy, Debug, PartialEq, Eq, Structural)]
pub enum WindowEvent {
    CloseRequested,
    /// A keyboard event: whether the key went down, and whether it is Escape.
    KeyInput { pressed: bool, is_escape: bool },
    Resized(WindowSize),
    RedrawRequested,
    /// Any event kind the dispatcher ignores.
    Other,
}

/// The result of one render attempt, as the platform layer reports it.
#[derive(Clone, Copy, Debug, PartialEq, Eq, Structural)]
pub enum FrameOutcome {
    Presented,
    Lost,
    Outdated,
    OutOfMemory,
    Timeout,
    /// An acquisition failure of no classified kind.
    Other,
}

/// What the platform layer must do after a dispatch step.
#[derive(Clone, Copy, Debug, PartialEq, Eq, Structural)]
pub enum Action {
    /// Nothing to do.
    Ignore,
    /// Stop the event loop.
    Exit,
    /// Apply the stored configuration to the presentable surface.
    Reconfigure,
    /// Render one frame and report the outcome back.
    Render,
    /// Log a fatal error and stop the event loop.
    FatalExit,
    /// Log a warning; the frame was skipped, the loop continues.
    WarnTimeout,
}

/// An Escape key going down (pressed, not released).
pub open spec fn is_escape_down(event: WindowEvent) -> bool {
    event == (WindowEvent::KeyInput { pressed: true, is_escape: true })
}

/// A resize event whose size has both dimensions positive.
pub open spec fn is_valid_resize(event: WindowEvent) -> bool {
    match event {
        WindowEvent::Resized(size) => size.is_valid(),
        _ => false,
    }
}

/// The event dispatcher for one window: the window's identity, the lifecycle
/// phase, and the surface state it manages.
#[derive(Clone, Copy, Debug, PartialEq, Eq, Structural)]
pub struct Dispatcher {
    pub window_id: u64,
    pub phase: Phase,
    pub surface: SurfaceState,
}

impl Dispatcher {
    /// The surface's configuration stays consistent with its stored size.
    pub open spec fn wf(self) -> bool {
        self.surface.wf()
    }

    /// The transition relation for a window event: the dispatcher afterwards
    /// and the action the platform layer must perform.
    ///
    /// Events for another window are ignored, as is everything after
    /// termination. A close request or an Escape key press terminates. A
    /// resize is forwarded to the surface; the first successful one leaves
    /// the unconfigured phase. A redraw request renders only once
    /// configured.
    pub open spec fn event_step(self, source: u64, event: WindowEvent) -> (Dispatcher, Action) {
        if source != self.window_id || self.phase is Terminated {
            (self, Action::Ignore)
        } else if event == WindowEvent::CloseRequested || is_escape_down(event) {
            ((Dispatcher { phase: Phase::Terminated, ..self }), Action::Exit)
        } else {
            match event {
                WindowEvent::Resized(size) => (
                    (Dispatcher {
                        phase: if size.is_valid() { Phase::Configured } else { self.phase },
                        surface: self.surface.resize_spec(size),
                        ..self
                    }),
                    if size.is_valid() {
                        Action::Reconfigure
                    } else {
                        Action::Ignore
                    },
                ),
                WindowEvent::RedrawRequested => (
                    self,
                    if self.phase is Configured {
                        Action::Render
                    } else {
                        Action::Ignore
                    },
                ),
                _ => (self, Action::Ignore),
            }
        }
    }

    /// The transition relation for a frame outcome. Presented continues
    /// unchanged; a lost or outdated surface is healed by one resize to the
    /// stored size; out-of-memory and unclassified errors are fatal; a
    /// timeout only skips the frame.
    pub open spec fn outcome_step(self, outcome: FrameOutcome) -> (Dispatcher, Action) {
        match outcome {
            FrameOutcome::Presented => (self, Action::Ignore),
            FrameOutcome::Lost | FrameOutcome::Outdated => (
                (Dispatcher { surface: self.surface.resize_spec(self.surface.size), ..self }),
                Action::Reconfigure,
            ),
            FrameOutcome::OutOfMemory | FrameOutcome::Other => (
                (Dispatcher { phase: Phase::Terminated, ..self }),
                Action::FatalExit,
            ),
            FrameOutcome::Timeout => (self, Action::WarnTimeout),
        }
    }

    /// Start dispatching for the given window in the unconfigured phase.
    pub fn new(window_id: u64, surface: SurfaceState) -> (d: Dispatcher)
        ensures
            d == (Dispatcher { window_id, phase: Phase::Unconfigured, surface }),
    {
        Dispatcher { window_id, phase: Phase::Unconfigured, surface }
    }

    /// Dispatch one window event and say what the platform layer must do.
    pub fn handle_window_event(&mut self, source: u64, event: WindowEvent) -> (a: Action)
        ensures
            (*final(self), a) == old(self).event_step(source, event),
            a is Render ==> old(self).phase is Configured && event is RedrawRequested,
            source == old(self).window_id && (event == WindowEvent::CloseRequested
                || is_escape_down(event)) ==> final(self).phase is Terminated,
            old(self).wf() ==> final(self).wf(),
    {
        if source != self.window_id || matches!(self.phase, Phase::Terminated) {
            return Action::Ignore;
        }
        match event {
            WindowEvent::CloseRequested => {
                self.phase = Phase::Terminated;
                Action::Exit
            },
            WindowEvent::KeyInput { pressed: true, is_escape: true } => {
                self.phase = Phase::Terminated;
                Action::Exit
            },
            WindowEvent::Resized(size) => {
                let reconfigured = self.surface.resize(size);
                if reconfigured {
                    self.phase = Phase::Configured;
                    Action::Reconfigure
                } else {
                    Action::Ignore
                }
            },
            WindowEvent::RedrawRequested => {
                if matches!(self.phase, Phase::Configured) {
                    Action::Render
                } else {
                    Action::Ignore
                }
            },
            _ => Action::Ignore,
        }
    }

    /// Digest the outcome of the frame the last `Render` action asked for.
    pub fn handle_frame_outcome(&mut self, outcome: FrameOutcome) -> (a: Action)
        requires
            old(self).phase is Configured,
        ensures
            (*final(self), a) == old(self).outcome_step(outcome),
            outcome is Presented ==> a is Ignore && *final(self) == *old(self),
            outcome is Lost || outcome is Outdated ==> a is Reconfigure
                && final(self).phase is Configured
                && final(self).surface.size == old(self).surface.size,
            outcome is OutOfMemory || outcome is Other ==> a is FatalExit
                && final(self).phase is Terminated,
            outcome is Timeout ==> a is WarnTimeout && *final(self) == *old(self),
            old(self).wf() ==> final(self).wf() && final(self).surface == old(self).surface,
    {
        match outcome {
            FrameOutcome::Presented => Action::Ignore,
            FrameOutcome::Lost | FrameOutcome::Outdated => {
                let stored = self.surface.size;
                let _ = self.surface.resize(stored);
                Action::Reconfigure
            },
            FrameOutcome::OutOfMemory | FrameOutcome::Other => {
                self.phase = Phase::Terminated;
                Action::FatalExit
            },
            FrameOutcome::Timeout => Action::WarnTimeout,
        }
    }
}

/// The dispatcher after a whole sequence of window events, each paired with
/// the identifier of the window that sent it.
pub open spec fn run_events(d: Dispatcher, events: Seq<(u64, WindowEvent)>) -> Dispatcher
    decreases events.len(),
{
    if events.len() == 0 {
        d
    } else {
        run_events(d.event_step(events[0].0, events[0].1).0, events.drop_first())
    }
}

/// How many render attempts a sequence of window events asks for.
pub open spec fn renders_in_run(d: Dispatcher, events: Seq<(u64, WindowEvent)>) -> nat
    decreases events.len(),
{
    if events.len() == 0 {
        0
    } else {
        let step = d.event_step(events[0].0, events[0].1);
        (if step.1 is Render {
            1nat
        } else {
            0nat
        }) + renders_in_run(step.0, events.drop_first())
    }
}

/// A close request, or an Escape key going down, terminates the dispatcher
/// whatever phase it is in.
pub proof fn lemma_close_or_escape_terminates(d: Dispatcher, source: u64, event: WindowEvent)
    requires
        source == d.window_id,
        event == WindowEvent::CloseRequested || is_escape_down(event),
    ensures
        d.event_step(source, event).0.phase is Terminated,
{
}

/// Before the first resize with positive dimensions, redraw requests never
/// lead to a render attempt: a whole run of events among which no valid
/// resize occurs asks for zero renders, and leaves the dispatcher
/// unconfigured or terminated.
pub proof fn lemma_no_render_before_valid_resize(d: Dispatcher, events: Seq<(u64, WindowEvent)>)
    requires
        !(d.phase is Configured),
        forall|i: int| 0 <= i < events.len() ==> !is_valid_resize(events[i].1),
    ensures
        renders_in_run(d, events) == 0,
        !(run_events(d, events).phase is Configured),
    decreases events.len(),
{
    if events.len() > 0 {
        lemma_no_render_before_valid_resize(d.event_step(events[0].0, events[0].1).0, events.drop_first());
    }
}

/// Termination is final: once terminated, the dispatcher ignores every
/// further event and never asks for another render.
pub proof fn lemma_terminated_is_final(d: Dispatcher, events: Seq<(u64, WindowEvent)>)
    requires
        d.phase is Terminated,
    ensures
        renders_in_run(d, events) == 0,
        run_events(d, events) == d,
    decreases events.len(),
{
    if events.len() > 0 {
        lemma_terminated_is_final(d.event_step(events[0].0, events[0].1).0, events.drop_first());
    }
}

} // verus!
