//! The session: what the application does on each event of its window.
//!
//! The renderer cannot be made before there is a window to draw to. The
//! application therefore holds a factory until the window system says that
//! it is ready, and calls it exactly once. From then on the events of the
//! window are passed to the renderer, and a request to close, or a fatal
//! error of the renderer, ends the session.

use vstd::prelude::*;
use crate::surface::SurfaceSize;

verus! {

/// How far the session has come.
#[derive(Clone, Copy, Debug, PartialEq, Eq, Structural)]
pub enum SessionPhase {
    /// The window system has not been ready yet: there is no window and no
    /// renderer.
    Pending,
    /// The window and the renderer are there.
    Running,
    /// The session has ended.
    Closed,
}

/// What the window system reports.
#[derive(Clone, Copy, Debug, PartialEq, Eq, Structural)]
pub enum WindowEvent {
    /// The window system is ready for windows.
    Resumed,
    /// The user asked for the window to be closed.
    CloseRequested,
    /// The window has this physical size now.
    Resized(SurfaceSize),
    /// The window asks to be drawn.
    RedrawRequested,
    /// The renderer met an error that it cannot recover from.
    RendererFailed,
    /// Anything else.
    Other,
}

/// What the application has to do.
#[derive(Clone, Copy, Debug, PartialEq, Eq, Structural)]
pub enum SessionAction {
    /// Create the window and call the factory of the renderer with it.
    Start,
    /// Leave the event loop.
    Exit,
    /// Tell the renderer the new size, then ask the window for a redraw.
    Resize(SurfaceSize),
    /// Let the renderer draw a frame.
    Redraw,
    /// Nothing.
    Nothing,
}

/// The state of the session.
#[derive(Clone, Copy, Debug, PartialEq, Eq, Structural)]
pub struct Session {
    /// How far the session has come.
    pub phase: SessionPhase,
}

impl Session {
    /// The phase after `event` and what the application has to do.
    pub open spec fn next(self, event: WindowEvent) -> (Session, SessionAction) {
        match (self.phase, event) {
            (_, WindowEvent::CloseRequested) => (
                Session { phase: SessionPhase::Closed },
                SessionAction::Exit,
            ),
            (SessionPhase::Closed, _) => (self, SessionAction::Nothing),
            (_, WindowEvent::RendererFailed) => (
                Session { phase: SessionPhase::Closed },
                SessionAction::Exit,
            ),
            (SessionPhase::Pending, WindowEvent::Resumed) => (
                Session { phase: SessionPhase::Running },
                SessionAction::Start,
            ),
            (SessionPhase::Running, WindowEvent::Resized(size)) => (
                self,
                SessionAction::Resize(size),
            ),
            (SessionPhase::Running, WindowEvent::RedrawRequested) => (self, SessionAction::Redraw),
            _ => (self, SessionAction::Nothing),
        }
    }

    /// The actions that a run of events leads to, one for each event.
    pub open spec fn run(self, events: Seq<WindowEvent>) -> Seq<SessionAction>
        decreases events.len(),
    {
        if events.len() == 0 {
            Seq::empty()
        } else {
            seq![self.next(events[0]).1] + self.next(events[0]).0.run(events.drop_first())
        }
    }

    /// How often the factory of the renderer is called in a run of actions.
    pub open spec fn starts(actions: Seq<SessionAction>) -> nat
        decreases actions.len(),
    {
        if actions.len() == 0 {
            0
        } else if actions[0] == SessionAction::Start {
            1 + Self::starts(actions.drop_first())
        } else {
            Self::starts(actions.drop_first())
        }
    }

    /// The session before the window system is ready.
    pub fn new() -> (s: Session)
        ensures
            s.phase == SessionPhase::Pending,
    {
        Session { phase: SessionPhase::Pending }
    }

    /// Takes in `event` and says what the application has to do.
    pub fn handle(&mut self, event: WindowEvent) -> (action: SessionAction)
        ensures
            (*final(self), action) == old(self).next(event),
    {
        match (self.phase, event) {
            (_, WindowEvent::CloseRequested) => {
                self.phase = SessionPhase::Closed;
                SessionAction::Exit
            },
            (SessionPhase::Closed, _) => SessionAction::Nothing,
            (_, WindowEvent::RendererFailed) => {
                self.phase = SessionPhase::Closed;
                SessionAction::Exit
            },
            (SessionPhase::Pending, WindowEvent::Resumed) => {
                self.phase = SessionPhase::Running;
                SessionAction::Start
            },
            (SessionPhase::Running, WindowEvent::Resized(size)) => SessionAction::Resize(size),
            (SessionPhase::Running, WindowEvent::RedrawRequested) => SessionAction::Redraw,
            _ => SessionAction::Nothing,
        }
    }

    /// Whatever the window system reports, and in whatever order, the
    /// factory of the renderer is called at most once, and never again once
    /// the session has left its first phase.
    pub proof fn factory_is_called_at_most_once(self, events: Seq<WindowEvent>)
        ensures
            Self::starts(self.run(events)) <= 1,
            self.phase != SessionPhase::Pending ==> Self::starts(self.run(events)) == 0,
        decreases events.len(),
    {
        if events.len() > 0 {
            let (after, action) = self.next(events[0]);
            let rest = after.run(events.drop_first());
            after.factory_is_called_at_most_once(events.drop_first());
            assert(self.run(events).drop_first() =~= rest);
            assert(self.run(events)[0] == action);
        }
    }

    /// The renderer is resized and asked to draw only while the session is
    /// running. A request to close is answered by leaving the event loop,
    /// whatever the phase. A session that has ended stays ended and asks for
    /// nothing else.
    pub proof fn renderer_is_used_only_while_running(self, event: WindowEvent)
        ensures
            ({
                let (after, action) = self.next(event);
                &&& (action is Resize || action == SessionAction::Redraw) ==> self.phase
                    == SessionPhase::Running && after == self
                &&& forall|size: SurfaceSize|
                    event == WindowEvent::Resized(size) && self.phase == SessionPhase::Running
                        ==> action == SessionAction::Resize(size)
                &&& event == WindowEvent::CloseRequested ==> action == SessionAction::Exit
                &&& self.phase == SessionPhase::Closed ==> after == self
                &&& self.phase == SessionPhase::Closed && event != WindowEvent::CloseRequested
                    ==> action == SessionAction::Nothing
                &&& action == SessionAction::Exit ==> after.phase == SessionPhase::Closed
            }),
    {
    }
}

} // verus!
