//! The menu: three screens, and what a frame of the main loop has to do.
//!
//! The loop around this module owns the console, the camera and the socket.
//! Once per frame it hands the key pad's report to [`Session::frame`] and
//! carries out the actions that come back, in their order. When it has run a
//! connection attempt it reports how that ended to
//! [`Session::connect_finished`].

use vstd::prelude::*;
use crate::error::AppError;
use crate::keys::{Key, Keys};

verus! {

/// The screen that the program shows.
#[derive(Clone, Copy, Debug, PartialEq, Eq, Structural)]
pub enum AppStatus {
    NotConnected,
    Connected,
    Settings,
}

/// One thing that the main loop does for the menu.
#[derive(Clone, Copy, Debug, PartialEq, Eq, Structural)]
pub enum Action {
    /// Announce the exit and leave the main loop. With `shut_down` set a
    /// stream is held: shut it down first if its peer still answers.
    Exit { shut_down: bool },
    /// Print the camera's settings.
    ShowSettings,
    /// Ask for a server address and try to connect to it, then report the
    /// outcome.
    Connect,
    /// Clear the console and print the start screen.
    ShowMenu,
    /// Announce the disconnection and shut the held stream down.
    Disconnect,
}

/// How a connection attempt ended.
#[derive(Clone, Copy, Debug, PartialEq, Eq, Structural)]
pub enum ConnectOutcome {
    /// The server accepted; the loop now holds the new stream.
    Connected,
    /// The user closed the keyboard without confirming an address.
    Cancelled,
    /// The keyboard or the network failed.
    Failed(AppError),
}

/// What the main loop reports to the session.
#[derive(Clone, Copy, Debug, PartialEq, Eq, Structural)]
pub enum Event {
    /// A frame began with this report of the key pad.
    Frame(Keys),
    /// A connection attempt ended.
    ConnectFinished(ConnectOutcome),
}

/// What the menu remembers from one frame to the next.
#[derive(Clone, Copy, Debug, PartialEq, Eq, Structural)]
pub struct Session {
    /// The screen on display.
    pub status: AppStatus,
    /// Whether the loop holds a stream. A stream stays held after it was
    /// shut down, until the next successful attempt replaces it.
    pub holds_stream: bool,
    /// The key pad's report of the frame before.
    pub previous: Keys,
}

impl Session {
    /// The connected screen is only ever shown over a held stream.
    pub open spec fn consistent(self) -> bool {
        self.status is Connected ==> self.holds_stream
    }

    /// Whether a frame with the report `keys` reacts to the key pad at all:
    /// only a report that differs from the one before does.
    pub open spec fn dispatches(self, keys: Keys) -> bool {
        keys != self.previous
    }

    /// What the start screen asks for: the settings, a connection, or both
    /// in that order.
    pub open spec fn start_screen_reactions(keys: Keys) -> Seq<Action> {
        let settings = if keys.holds(Key::X) {
            seq![Action::ShowSettings]
        } else {
            Seq::<Action>::empty()
        };
        let connect = if keys.holds(Key::A) {
            seq![Action::Connect]
        } else {
            Seq::<Action>::empty()
        };
        settings + connect
    }

    /// The actions of a frame with the report `keys`, in the order in which
    /// the loop carries them out.
    pub open spec fn reactions(self, keys: Keys) -> Seq<Action> {
        if !self.dispatches(keys) {
            Seq::<Action>::empty()
        } else if keys.holds(Key::Start) {
            seq![Action::Exit { shut_down: self.holds_stream }]
        } else {
            match self.status {
                AppStatus::NotConnected => Session::start_screen_reactions(keys),
                AppStatus::Settings => if keys.holds(Key::B) {
                    seq![Action::ShowMenu]
                } else {
                    Seq::<Action>::empty()
                },
                AppStatus::Connected => if self.holds_stream && keys.holds(Key::B) {
                    seq![Action::ShowMenu, Action::Disconnect]
                } else {
                    Seq::<Action>::empty()
                },
            }
        }
    }

    /// The screen after a frame with the report `keys`.
    pub open spec fn next_status(self, keys: Keys) -> AppStatus {
        if !self.dispatches(keys) || keys.holds(Key::Start) {
            self.status
        } else {
            match self.status {
                AppStatus::NotConnected => if keys.holds(Key::X) {
                    AppStatus::Settings
                } else {
                    AppStatus::NotConnected
                },
                AppStatus::Settings => if keys.holds(Key::B) {
                    AppStatus::NotConnected
                } else {
                    AppStatus::Settings
                },
                AppStatus::Connected => if self.holds_stream && !keys.holds(Key::B) {
                    AppStatus::Connected
                } else {
                    AppStatus::NotConnected
                },
            }
        }
    }

    /// The session after a frame with the report `keys`.
    pub open spec fn after_frame(self, keys: Keys) -> Session {
        Session {
            status: self.next_status(keys),
            holds_stream: self.holds_stream,
            previous: keys,
        }
    }

    /// The session after a connection attempt that ended in `outcome`.
    pub open spec fn after_connect(self, outcome: ConnectOutcome) -> Session {
        match outcome {
            ConnectOutcome::Connected => Session {
                status: AppStatus::Connected,
                holds_stream: true,
                previous: self.previous,
            },
            _ => self,
        }
    }

    /// The session after one event.
    pub open spec fn after_event(self, event: Event) -> Session {
        match event {
            Event::Frame(keys) => self.after_frame(keys),
            Event::ConnectFinished(outcome) => self.after_connect(outcome),
        }
    }

    /// The session after a run of events, the first of them first.
    pub open spec fn after_all(self, events: Seq<Event>) -> Session
        decreases events.len(),
    {
        if events.len() == 0 {
            self
        } else {
            self.after_all(events.drop_last()).after_event(events.last())
        }
    }

    /// The session at program start: the start screen, no stream, and a key
    /// pad that nobody has touched yet.
    pub fn new() -> (session: Session)
        ensures
            session.status is NotConnected,
            !session.holds_stream,
            session.previous.bits == 0,
            session.consistent(),
    {
        Session { status: AppStatus::NotConnected, holds_stream: false, previous: Keys::empty() }
    }

    pub fn status(&self) -> (status: AppStatus)
        ensures
            status == self.status,
    {
        self.status
    }

    pub fn holds_stream(&self) -> (held: bool)
        ensures
            held == self.holds_stream,
    {
        self.holds_stream
    }

    /// Whether the frame that follows sends camera data.
    pub fn is_streaming(&self) -> (streaming: bool)
        ensures
            streaming <==> self.status is Connected,
    {
        self.status == AppStatus::Connected
    }

    /// Takes the key pad's report of one frame, moves to the next screen and
    /// returns what the loop has to do, in order.
    pub fn frame(&mut self, keys: Keys) -> (actions: Vec<Action>)
        ensures
            *final(self) == old(self).after_frame(keys),
            actions@ == old(self).reactions(keys),
    {
        let mut actions: Vec<Action> = Vec::new();
        let changed = keys != self.previous;
        self.previous = keys;
        if !changed {
            return actions;
        }
        if keys.intersects(Key::Start) {
            actions.push(Action::Exit { shut_down: self.holds_stream });
            return actions;
        }
        match self.status {
            AppStatus::NotConnected => {
                if keys.intersects(Key::X) {
                    self.status = AppStatus::Settings;
                    actions.push(Action::ShowSettings);
                }
                if keys.intersects(Key::A) {
                    actions.push(Action::Connect);
                }
            },
            AppStatus::Settings => {
                if keys.intersects(Key::B) {
                    self.status = AppStatus::NotConnected;
                    actions.push(Action::ShowMenu);
                }
            },
            AppStatus::Connected => {
                if self.holds_stream {
                    if keys.intersects(Key::B) {
                        actions.push(Action::ShowMenu);
                        actions.push(Action::Disconnect);
                        self.status = AppStatus::NotConnected;
                    }
                } else {
                    self.status = AppStatus::NotConnected;
                }
            },
        }
        assert(actions@ =~= old(self).reactions(keys));
        actions
    }

    /// Takes the outcome of the connection attempt that the loop ran for
    /// [`Action::Connect`]: a success leads to the connected screen over the
    /// new stream, anything else leaves the session as it is.
    pub fn connect_finished(&mut self, outcome: ConnectOutcome)
        ensures
            *final(self) == old(self).after_connect(outcome),
    {
        match outcome {
            ConnectOutcome::Connected => {
                self.holds_stream = true;
                self.status = AppStatus::Connected;
            },
            _ => {},
        }
    }

    /// A frame whose report equals the one before does nothing and changes
    /// no screen.
    pub proof fn lemma_unchanged_report_is_ignored(self, keys: Keys)
        requires
            keys == self.previous,
        ensures
            self.reactions(keys) == Seq::<Action>::empty(),
            self.after_frame(keys) == self,
    {
    }

    /// A changed report with START held ends the program from every screen:
    /// the frame's only action is the exit, the screen stays, and the exit
    /// shuts the stream down whenever one is held, so always on the
    /// connected screen of a consistent session.
    pub proof fn lemma_start_exits(self, keys: Keys)
        requires
            self.dispatches(keys),
            keys.holds(Key::Start),
        ensures
            self.reactions(keys) == seq![Action::Exit { shut_down: self.holds_stream }],
            self.after_frame(keys).status == self.status,
            self.consistent() && self.status is Connected ==> self.reactions(keys) == seq![
                Action::Exit { shut_down: true },
            ],
    {
    }

    /// A frame asks for a connection only on the start screen and at most
    /// once, and for a disconnection only on the connected screen over a
    /// held stream. After a disconnection the start screen is shown.
    pub proof fn lemma_actions_fit_the_screen(self, keys: Keys, i: int)
        requires
            0 <= i < self.reactions(keys).len(),
        ensures
            self.reactions(keys)[i] is Connect ==> self.status is NotConnected && i
                == self.reactions(keys).len() - 1,
            self.reactions(keys)[i] is ShowSettings ==> self.status is NotConnected && i == 0
                && self.after_frame(keys).status is Settings,
            self.reactions(keys)[i] is Disconnect ==> self.status is Connected
                && self.holds_stream && self.after_frame(keys).status is NotConnected,
            self.reactions(keys)[i] is ShowMenu ==> !(self.status is NotConnected)
                && self.after_frame(keys).status is NotConnected,
            self.reactions(keys)[i] is Exit ==> self.reactions(keys).len() == 1,
    {
    }

    /// Only a successful connection attempt leads to the connected screen,
    /// and no frame does.
    pub proof fn lemma_connected_screen_needs_success(self, event: Event)
        requires
            !(self.status is Connected),
            self.after_event(event).status is Connected,
        ensures
            event == Event::ConnectFinished(ConnectOutcome::Connected),
            self.after_event(event).holds_stream,
    {
    }

    /// Consistency is an invariant: whatever the loop reports, in whatever
    /// order, a consistent session stays consistent. So a session that began
    /// with `new` never shows the connected screen without a stream.
    pub proof fn lemma_consistency_is_invariant(self, events: Seq<Event>)
        requires
            self.consistent(),
        ensures
            self.after_all(events).consistent(),
        decreases events.len(),
    {
        if events.len() > 0 {
            self.lemma_consistency_is_invariant(events.drop_last());
        }
    }

    /// A held stream stays held: no event takes it away.
    pub proof fn lemma_stream_stays_held(self, events: Seq<Event>)
        requires
            self.holds_stream,
        ensures
            self.after_all(events).holds_stream,
        decreases events.len(),
    {
        if events.len() > 0 {
            self.lemma_stream_stays_held(events.drop_last());
        }
    }
}

} // verus!
