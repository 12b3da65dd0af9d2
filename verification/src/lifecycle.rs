//! The Lifecycle Supervisor: three independently bound listeners, one
//! shutdown protocol. A termination signal drains all three simultaneously —
//! each stops accepting and finishes its in-flight requests — and the
//! supervisor stops only once every listener has exited. One listener's
//! fatal error ends that listener alone, never the others.

use vstd::prelude::*;

verus! {

/// One listener's place in its lifecycle.
#[derive(Clone, Copy, Debug, PartialEq, Eq, Structural)]
pub enum ListenerState {
    /// Not yet bound.
    Idle,
    /// Bound and accepting connections.
    Accepting,
    /// No longer accepting; in-flight requests completing.
    Draining,
    /// Fully shut down, or stopped on its own fatal error.
    Exited,
}

/// The supervisor's overall phase, derived from the three listeners.
#[derive(Clone, Copy, Debug, PartialEq, Eq, Structural)]
pub enum Phase {
    Starting,
    Running,
    Draining,
    Stopped,
}

/// Which listener an event concerns.
#[derive(Clone, Copy, Debug, PartialEq, Eq, Structural)]
pub enum Listener {
    FileServe,
    Management,
    Health,
}

/// Where a termination signal sends one listener: an accepting listener
/// drains; any other state is unmoved — in particular, an exited listener
/// stays exited.
pub open spec fn drained(s: ListenerState) -> ListenerState {
    match s {
        ListenerState::Accepting => ListenerState::Draining,
        other => other,
    }
}

/// The Lifecycle Supervisor over the three listeners.
pub struct Supervisor {
    pub file_serve: ListenerState,
    pub management: ListenerState,
    pub health: ListenerState,
}

impl Supervisor {
    /// Every listener has exited: the join over all three has resolved.
    pub open spec fn all_exited(self) -> bool {
        &&& self.file_serve == ListenerState::Exited
        &&& self.management == ListenerState::Exited
        &&& self.health == ListenerState::Exited
    }

    /// No listener accepts any more: each is draining or has exited.
    pub open spec fn none_accepting(self) -> bool {
        &&& self.file_serve != ListenerState::Accepting && self.file_serve != ListenerState::Idle
        &&& self.management != ListenerState::Accepting && self.management != ListenerState::Idle
        &&& self.health != ListenerState::Accepting && self.health != ListenerState::Idle
    }

    /// The supervisor's phase: started, running while any listener accepts,
    /// draining once none does, stopped when all three have exited.
    pub open spec fn phase(self) -> Phase {
        if self.file_serve == ListenerState::Idle || self.management == ListenerState::Idle
            || self.health == ListenerState::Idle {
            Phase::Starting
        } else if self.all_exited() {
            Phase::Stopped
        } else if self.none_accepting() {
            Phase::Draining
        } else {
            Phase::Running
        }
    }

    /// A supervisor before any listener is bound.
    pub fn new() -> (s: Self)
        ensures
            s.file_serve == ListenerState::Idle,
            s.management == ListenerState::Idle,
            s.health == ListenerState::Idle,
            s.phase() == Phase::Starting,
    {
        Supervisor {
            file_serve: ListenerState::Idle,
            management: ListenerState::Idle,
            health: ListenerState::Idle,
        }
    }

    /// All three listeners bind and begin accepting, concurrently and
    /// independently.
    pub fn start(&mut self)
        requires
            old(self).phase() == Phase::Starting,
        ensures
            final(self).file_serve == ListenerState::Accepting,
            final(self).management == ListenerState::Accepting,
            final(self).health == ListenerState::Accepting,
            final(self).phase() == Phase::Running,
    {
        self.file_serve = ListenerState::Accepting;
        self.management = ListenerState::Accepting;
        self.health = ListenerState::Accepting;
    }

    /// A termination signal reaches every listener simultaneously: each one
    /// still accepting stops accepting; none is skipped, none exited early.
    pub fn signal(&mut self)
        ensures
            final(self).file_serve == drained(old(self).file_serve),
            final(self).management == drained(old(self).management),
            final(self).health == drained(old(self).health),
    {
        self.file_serve = drain_one(self.file_serve);
        self.management = drain_one(self.management);
        self.health = drain_one(self.health);
    }

    /// One listener finishes — its drain completed, or its own serve or bind
    /// error was fatal to it. The other two are untouched.
    pub fn listener_exited(&mut self, which: Listener)
        ensures
            final(self).file_serve == (if which == Listener::FileServe {
                ListenerState::Exited
            } else {
                old(self).file_serve
            }),
            final(self).management == (if which == Listener::Management {
                ListenerState::Exited
            } else {
                old(self).management
            }),
            final(self).health == (if which == Listener::Health {
                ListenerState::Exited
            } else {
                old(self).health
            }),
    {
        match which {
            Listener::FileServe => self.file_serve = ListenerState::Exited,
            Listener::Management => self.management = ListenerState::Exited,
            Listener::Health => self.health = ListenerState::Exited,
        }
    }

    /// Whether the overall wait point has resolved.
    pub fn is_stopped(&self) -> (r: bool)
        ensures
            r == (self.phase() == Phase::Stopped),
    {
        self.file_serve == ListenerState::Exited && self.management == ListenerState::Exited
            && self.health == ListenerState::Exited
    }
}

/// Where a signal sends one listener.
fn drain_one(s: ListenerState) -> (r: ListenerState)
    ensures
        r == drained(s),
{
    match s {
        ListenerState::Accepting => ListenerState::Draining,
        other => other,
    }
}

/// The supervisor stops only by the join over all three listeners: it is
/// stopped exactly when every one of them has exited — never while any
/// still accepts or drains.
pub proof fn lemma_stop_is_a_join(s: Supervisor)
    ensures
        (s.phase() == Phase::Stopped <==> s.all_exited()),
{
}

/// After a signal, no listener that was running accepts any longer, and a
/// listener that had already exited stays exited: draining is simultaneous
/// and loses nothing.
pub proof fn lemma_signal_drains_simultaneously(s: Supervisor)
    requires
        s.phase() == Phase::Running || s.phase() == Phase::Draining,
    ensures
        (Supervisor {
            file_serve: drained(s.file_serve),
            management: drained(s.management),
            health: drained(s.health),
        }.none_accepting()),
        s.file_serve == ListenerState::Exited ==> drained(s.file_serve) == ListenerState::Exited,
        s.management == ListenerState::Exited ==> drained(s.management) == ListenerState::Exited,
        s.health == ListenerState::Exited ==> drained(s.health) == ListenerState::Exited,
{
}

} // verus!
