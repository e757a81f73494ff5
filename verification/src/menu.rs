//! The menu controller: one message, its controls, a session state, and the
//! rules by which events are answered.
//!
//! The controller never waits and never sends. Whoever drives it hands in each
//! event with the time at which it arrived, carries out the reaction, and hands
//! back what came of it. Taking events one by one is what keeps two handlers
//! from ever working on the same session state.

use vstd::prelude::*;
use crate::error::Error;
use crate::error::ErrorKind;
use crate::error::ErrorView;
use crate::error::Report;
use crate::layout::position_of;
use crate::layout::Layout;
use crate::layout::Position;
use crate::layout::Rows;

verus! {

/// Where a menu is in its life. The last three are final.
#[derive(Clone, Copy, Debug, PartialEq, Eq, Structural, Hash)]
pub enum Phase {
    /// Built, but its message has not been sent yet.
    Initialized,
    /// Its message stands and events are awaited.
    Active,
    /// Ended because nothing happened for the length of the idle window.
    TimedOut,
    /// Ended on request.
    Closed,
    /// Ended because the platform lost or refused the message.
    Failed,
}

impl Phase {
    /// Whether the menu has ended.
    pub open spec fn is_final(self) -> bool {
        self is TimedOut || self is Closed || self is Failed
    }
}

/// A user's use of a control, as the platform reports it.
#[derive(Debug, PartialEq, Eq)]
pub struct Interaction {
    /// The message the control is part of.
    pub message_id: u64,
    /// The identifier of the control.
    pub component_id: String,
    /// What the user picked.
    pub values: Vec<String>,
    /// The user.
    pub actor: u64,
}

/// What can happen to a menu.
#[derive(Debug, PartialEq, Eq)]
pub enum Event {
    /// The menu's message was sent and has this identifier.
    Sent { message_id: u64 },
    /// The menu's message could not be sent.
    SendFailed,
    /// A user used a control.
    Interaction(Interaction),
    /// Time has passed.
    Tick,
    /// The menu is asked to end.
    Close,
    /// The handler that was started has returned.
    Finished(Result<(), Error>),
    /// The platform reports the message as gone or out of reach.
    Lost,
}

/// What the driver does next.
#[derive(Clone, Copy, Debug, PartialEq, Eq, Structural, Hash)]
pub enum Next {
    /// Go on waiting for events.
    Wait,
    /// The event was dropped; go on as before.
    Ignore,
    /// Run the handler of the control at this position, then report
    /// [`Event::Finished`].
    Dispatch(Position),
    /// Take the controls off the message, then stop.
    Teardown,
    /// Stop without touching the message.
    Stop,
}

/// The controller's answer to one event.
#[derive(Clone, Copy, Debug, PartialEq, Eq, Structural, Hash)]
pub struct Reaction {
    /// How the event is made known, if it is.
    pub report: Report,
    /// What to do next.
    pub next: Next,
}

/// The controller's own state, apart from the session state it guards.
pub struct Model {
    /// The controls that can currently be used.
    pub rows: Rows,
    pub phase: Phase,
    /// The message, once sent.
    pub message: Option<u64>,
    /// The control whose handler is at work.
    pub running: Option<Position>,
    /// Whether an end was asked for while a handler was at work.
    pub closing: bool,
    /// Whether a handler has already failed with an internal error.
    pub faulted: bool,
    /// How long the menu waits for an event before it ends by itself.
    pub idle_window: u64,
    /// When the current wait began.
    pub waiting_since: u64,
}

/// The time a wait that began at `since` has lasted at `now`; a clock that
/// ran backwards counts as no time.
pub open spec fn elapsed(since: u64, now: u64) -> int {
    if now >= since {
        now - since
    } else {
        0
    }
}

impl Model {
    /// A menu that has not sent its message yet.
    pub open spec fn initial(rows: Rows, idle_window: u64) -> Model {
        Model {
            rows,
            phase: Phase::Initialized,
            message: None,
            running: None,
            closing: false,
            faulted: false,
            idle_window,
            waiting_since: 0,
        }
    }

    /// What holds of every menu: a handler is at work only on an active
    /// menu, an end is pending only while a handler is at work, and the
    /// message of an active menu is known.
    pub open spec fn well_formed(self) -> bool {
        &&& self.running is Some ==> self.phase is Active
        &&& self.closing ==> self.running is Some
        &&& self.phase is Active ==> self.message is Some
    }

    /// Whether a handler is at work.
    pub open spec fn handling(self) -> bool {
        self.phase is Active && self.running is Some
    }

    /// Whether the idle window has run out at `now`.
    pub open spec fn expired(self, now: u64) -> bool {
        elapsed(self.waiting_since, now) >= self.idle_window
    }

    /// The menu at its end in `phase`.
    pub open spec fn ended(self, phase: Phase) -> Model {
        Model { phase, running: None, closing: false, ..self }
    }

    /// The menu waiting anew from `now`, its handler done.
    pub open spec fn resumed(self, now: u64) -> Model {
        Model { running: None, waiting_since: now, ..self }
    }

    /// The answer to a handler's return.
    pub open spec fn on_finished(self, now: u64, outcome: Option<ErrorKind>) -> (Model, Reaction) {
        let report = match outcome {
            None => Report::Silent,
            Some(kind) => kind.report(),
        };
        if outcome matches Some(kind) && kind.fatal() {
            (self.ended(Phase::Failed), Reaction { report, next: Next::Stop })
        } else if self.closing || (outcome == Some(ErrorKind::Internal) && self.faulted) {
            (self.ended(Phase::Closed), Reaction { report, next: Next::Teardown })
        } else {
            (
                Model {
                    faulted: self.faulted || outcome == Some(ErrorKind::Internal),
                    ..self.resumed(now)
                },
                Reaction { report, next: Next::Wait },
            )
        }
    }

    /// The answer to a user's use of a control while the menu waits.
    pub open spec fn on_interaction(self, message_id: u64, component_id: Seq<char>) -> (
        Model,
        Reaction,
    ) {
        if self.message != Some(message_id) {
            (self, Reaction { report: Report::Silent, next: Next::Ignore })
        } else {
            match position_of(self.rows, component_id) {
                None => (self, Reaction { report: Report::Log, next: Next::Ignore }),
                Some(at) => (
                    Model { running: Some(at), ..self },
                    Reaction { report: Report::Silent, next: Next::Dispatch(at) },
                ),
            }
        }
    }

    /// The menu after an event that arrived at `now`, and the answer to it.
    pub open spec fn next(self, now: u64, event: Event) -> (Model, Reaction) {
        let silent = |next: Next| Reaction { report: Report::Silent, next };
        match self.phase {
            Phase::Initialized => match event {
                Event::Sent { message_id } => (
                    Model {
                        phase: Phase::Active,
                        message: Some(message_id),
                        waiting_since: now,
                        ..self
                    },
                    silent(Next::Wait),
                ),
                Event::SendFailed => (
                    self.ended(Phase::Failed),
                    Reaction { report: Report::Log, next: Next::Stop },
                ),
                _ => (self, silent(Next::Ignore)),
            },
            Phase::Active => if event is Lost {
                (self.ended(Phase::Failed), Reaction { report: Report::Log, next: Next::Stop })
            } else if self.running is Some {
                match event {
                    Event::Finished(Ok(_)) => self.on_finished(now, None),
                    Event::Finished(Err(e)) => self.on_finished(now, Some(e.kind)),
                    Event::Close => (Model { closing: true, ..self }, silent(Next::Wait)),
                    Event::Tick => (self, silent(Next::Wait)),
                    _ => (self, silent(Next::Ignore)),
                }
            } else if self.expired(now) {
                (self.ended(Phase::TimedOut), silent(Next::Teardown))
            } else {
                match event {
                    Event::Interaction(i) => self.on_interaction(i.message_id, i.component_id@),
                    Event::Close => (self.ended(Phase::Closed), silent(Next::Teardown)),
                    Event::Tick => (self, silent(Next::Wait)),
                    _ => (self, silent(Next::Ignore)),
                }
            },
            _ => (self, silent(Next::Stop)),
        }
    }
}

/// The controller's bookkeeping for one menu.
struct Controller {
    layout: Layout,
    phase: Phase,
    message: Option<u64>,
    running: Option<Position>,
    closing: bool,
    faulted: bool,
    idle_window: u64,
    waiting_since: u64,
}

impl Controller {
    #[verifier::type_invariant]
    spec fn inv(&self) -> bool {
        self.model().well_formed()
    }

    closed spec fn model(&self) -> Model {
        Model {
            rows: self.layout@,
            phase: self.phase,
            message: self.message,
            running: self.running,
            closing: self.closing,
            faulted: self.faulted,
            idle_window: self.idle_window,
            waiting_since: self.waiting_since,
        }
    }

    fn new(layout: Layout, idle_window: u64) -> (controller: Controller)
        ensures
            controller.model() == Model::initial(layout@, idle_window),
    {
        Controller {
            layout,
            phase: Phase::Initialized,
            message: None,
            running: None,
            closing: false,
            faulted: false,
            idle_window,
            waiting_since: 0,
        }
    }

    fn is_expired(&self, now: u64) -> (expired: bool)
        ensures
            expired == self.model().expired(now),
    {
        let waited = if now >= self.waiting_since {
            now - self.waiting_since
        } else {
            0
        };
        waited >= self.idle_window
    }

    fn step(&mut self, now: u64, event: &Event) -> (reaction: Reaction)
        ensures
            (final(self).model(), reaction) == old(self).model().next(now, *event),
    {
        proof {
            use_type_invariant(&*self);
        }
        let silent_ignore = Reaction { report: Report::Silent, next: Next::Ignore };
        let silent_wait = Reaction { report: Report::Silent, next: Next::Wait };
        match self.phase {
            Phase::Initialized => match event {
                Event::Sent { message_id } => {
                    self.message = Some(*message_id);
                    self.waiting_since = now;
                    self.phase = Phase::Active;
                    silent_wait
                },
                Event::SendFailed => {
                    self.end(Phase::Failed);
                    Reaction { report: Report::Log, next: Next::Stop }
                },
                _ => silent_ignore,
            },
            Phase::Active => {
                if let Event::Lost = event {
                    self.end(Phase::Failed);
                    return Reaction { report: Report::Log, next: Next::Stop };
                }
                if self.running.is_some() {
                    match event {
                        Event::Finished(Ok(_)) => self.finish(now, None),
                        Event::Finished(Err(e)) => self.finish(now, Some(e.kind)),
                        Event::Close => {
                            self.closing = true;
                            silent_wait
                        },
                        Event::Tick => silent_wait,
                        _ => silent_ignore,
                    }
                } else if self.is_expired(now) {
                    self.end(Phase::TimedOut);
                    Reaction { report: Report::Silent, next: Next::Teardown }
                } else {
                    match event {
                        Event::Interaction(i) => self.route(i),
                        Event::Close => {
                            self.end(Phase::Closed);
                            Reaction { report: Report::Silent, next: Next::Teardown }
                        },
                        Event::Tick => silent_wait,
                        _ => silent_ignore,
                    }
                }
            },
            _ => Reaction { report: Report::Silent, next: Next::Stop },
        }
    }

    fn end(&mut self, phase: Phase)
        requires
            phase.is_final(),
        ensures
            final(self).model() == old(self).model().ended(phase),
    {
        proof {
            use_type_invariant(&*self);
        }
        self.closing = false;
        self.running = None;
        self.phase = phase;
    }

    fn finish(&mut self, now: u64, outcome: Option<ErrorKind>) -> (reaction: Reaction)
        ensures
            (final(self).model(), reaction) == old(self).model().on_finished(now, outcome),
    {
        proof {
            use_type_invariant(&*self);
        }
        let report = match outcome {
            None => Report::Silent,
            Some(kind) => kind.how_reported(),
        };
        let internal = match outcome {
            Some(ErrorKind::Internal) => true,
            _ => false,
        };
        let fatal = match outcome {
            Some(kind) => kind.is_fatal(),
            None => false,
        };
        if fatal {
            self.end(Phase::Failed);
            Reaction { report, next: Next::Stop }
        } else if self.closing || (internal && self.faulted) {
            self.end(Phase::Closed);
            Reaction { report, next: Next::Teardown }
        } else {
            self.running = None;
            self.waiting_since = now;
            self.faulted = self.faulted || internal;
            Reaction { report, next: Next::Wait }
        }
    }

    fn route(&mut self, interaction: &Interaction) -> (reaction: Reaction)
        requires
            old(self).model().phase is Active,
        ensures
            (final(self).model(), reaction) == old(self).model().on_interaction(
                interaction.message_id,
                interaction.component_id@,
            ),
    {
        proof {
            use_type_invariant(&*self);
        }
        let ours = match self.message {
            Some(id) => id == interaction.message_id,
            None => false,
        };
        if !ours {
            return Reaction { report: Report::Silent, next: Next::Ignore };
        }
        match self.layout.find(interaction.component_id.as_str()) {
            None => Reaction { report: Report::Log, next: Next::Ignore },
            Some(at) => {
                self.running = Some(at);
                Reaction { report: Report::Silent, next: Next::Dispatch(at) }
            },
        }
    }
}

/// A message with controls, the session state behind it, and the
/// controller's bookkeeping.
pub struct Menu<S> {
    state: S,
    controller: Controller,
}

impl<S> Menu<S> {
    /// The controller's state.
    pub closed spec fn model(&self) -> Model {
        self.controller.model()
    }

    /// The session state.
    pub closed spec fn session(&self) -> S {
        self.state
    }

    /// A menu over `state` that shows `layout` and ends by itself after
    /// `idle_window` without an event. The idle window and all times handed
    /// to the menu are in one unit of the caller's choice.
    pub fn new(state: S, layout: Layout, idle_window: u64) -> (menu: Menu<S>)
        ensures
            menu.model() == Model::initial(layout@, idle_window),
            menu.session() == state,
    {
        Menu { state, controller: Controller::new(layout, idle_window) }
    }

    /// Answers one event that arrived at `now`. The session state is never
    /// touched here: only a handler changes it.
    pub fn step(&mut self, now: u64, event: &Event) -> (reaction: Reaction)
        ensures
            (final(self).model(), reaction) == old(self).model().next(now, *event),
            final(self).session() == old(self).session(),
    {
        self.controller.step(now, event)
    }

    /// Where the menu is in its life.
    pub fn phase(&self) -> (phase: Phase)
        ensures
            phase == self.model().phase,
            self.model().well_formed(),
    {
        proof {
            use_type_invariant(&self.controller);
        }
        self.controller.phase
    }

    /// The message, once sent.
    pub fn message(&self) -> (message: Option<u64>)
        ensures
            message == self.model().message,
    {
        self.controller.message
    }

    /// How long the menu waits for an event before it ends by itself.
    pub fn idle_window(&self) -> (window: u64)
        ensures
            window == self.model().idle_window,
    {
        self.controller.idle_window
    }

    /// The control whose handler is at work, if one is.
    pub fn running(&self) -> (running: Option<Position>)
        ensures
            running == self.model().running,
            running is Some <==> self.model().handling(),
    {
        proof {
            use_type_invariant(&self.controller);
        }
        self.controller.running
    }

    /// The controls that can currently be used.
    pub fn layout(&self) -> (layout: &Layout)
        ensures
            layout@ == self.model().rows,
    {
        &self.controller.layout
    }

    /// The session state.
    pub fn state(&self) -> (state: &S)
        ensures
            *state == self.session(),
    {
        &self.state
    }

    /// The session state, to be changed: handed out only while a handler is
    /// at work.
    pub fn state_mut(&mut self) -> (state: Option<&mut S>)
        ensures
            final(self).model() == old(self).model(),
            match state {
                Some(s) => old(self).model().handling() && *s == old(self).session()
                    && final(self).session() == *final(s),
                None => !old(self).model().handling() && final(self).session() == old(
                    self,
                ).session(),
            },
    {
        proof {
            use_type_invariant(&self.controller);
        }
        if self.controller.running.is_some() {
            Some(&mut self.state)
        } else {
            None
        }
    }

    /// Puts `layout` in place of the controls shown so far: from now on its
    /// identifiers are the ones that events are routed by. Only a handler at
    /// work may do so.
    pub fn redraw(&mut self, layout: Layout) -> (result: Result<(), Error>)
        ensures
            final(self).session() == old(self).session(),
            match result {
                Ok(_) => old(self).model().handling() && final(self).model() == (Model {
                    rows: layout@,
                    ..old(self).model()
                }),
                Err(e) => !old(self).model().handling() && final(self).model() == old(
                    self,
                ).model() && e@ == (ErrorView {
                    kind: ErrorKind::Internal,
                    message: "redraw outside a handler"@,
                }),
            },
    {
        proof {
            use_type_invariant(&self.controller);
        }
        if self.controller.running.is_some() {
            self.controller.layout = layout;
            Ok(())
        } else {
            Err(Error::internal("redraw outside a handler"))
        }
    }

    /// Whether the idle window has run out at `now`.
    pub fn is_expired(&self, now: u64) -> (expired: bool)
        ensures
            expired == self.model().expired(now),
    {
        self.controller.is_expired(now)
    }
}

} // verus!
