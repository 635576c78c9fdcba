use vstd::prelude::*;
use vstd::string::*;

verus! {

/// A termination notification from the platform.
#[derive(Clone, Copy, PartialEq, Eq, Structural)]
pub enum Notification {
    /// The interrupt (Ctrl+C), available everywhere.
    Interrupt,
    /// The terminate signal, available on POSIX platforms only.
    Terminate,
}

/// Whether a notification can end the race on a platform: the interrupt
/// always can; the terminate signal only where the platform has it.
pub open spec fn wakes(n: Notification, terminate_supported: bool) -> bool {
    n == Notification::Interrupt || terminate_supported
}

/// Whether the race has been decided once `history` was delivered.
pub open spec fn resolved_after(terminate_supported: bool, history: Seq<Notification>) -> bool
    decreases history.len(),
{
    if history.len() == 0 {
        false
    } else {
        resolved_after(terminate_supported, history.drop_last()) || wakes(
            history.last(),
            terminate_supported,
        )
    }
}

/// How many times the start of a graceful shutdown was announced while
/// `history` was delivered.
pub open spec fn announcements(terminate_supported: bool, history: Seq<Notification>) -> nat
    decreases history.len(),
{
    if history.len() == 0 {
        0
    } else {
        let before = history.drop_last();
        announcements(terminate_supported, before) + if !resolved_after(terminate_supported, before)
            && wakes(history.last(), terminate_supported) {
            1nat
        } else {
            0nat
        }
    }
}

/// Races the platform's termination notifications: the first one that the
/// platform supports decides, and every later one is ignored.
pub struct ShutdownCoordinator {
    terminate_supported: bool,
    resolved: bool,
    history: Ghost<Seq<Notification>>,
}

impl ShutdownCoordinator {
    pub closed spec fn supports_terminate(&self) -> bool {
        self.terminate_supported
    }

    /// The notifications delivered so far, in order.
    pub closed spec fn history(&self) -> Seq<Notification> {
        self.history@
    }

    /// Whether the race has been decided by what was delivered so far.
    pub open spec fn resolved(&self) -> bool {
        resolved_after(self.supports_terminate(), self.history())
    }

    pub closed spec fn wf(&self) -> bool {
        self.resolved == resolved_after(self.terminate_supported, self.history@)
    }

    /// A coordinator that has seen nothing yet.
    pub fn new(terminate_supported: bool) -> (r: Self)
        ensures
            r.wf(),
            r.supports_terminate() == terminate_supported,
            r.history() == Seq::<Notification>::empty(),
            !r.resolved(),
    {
        ShutdownCoordinator { terminate_supported, resolved: false, history: Ghost(Seq::empty()) }
    }

    /// Whether the race has been decided.
    pub fn is_resolved(&self) -> (r: bool)
        requires
            self.wf(),
        ensures
            r == self.resolved(),
    {
        self.resolved
    }

    /// Delivers one notification. Returns true exactly when this one
    /// decides the race, which is when shutdown is to be announced.
    pub fn deliver(&mut self, n: Notification) -> (announce: bool)
        requires
            old(self).wf(),
        ensures
            final(self).wf(),
            final(self).supports_terminate() == old(self).supports_terminate(),
            final(self).history() == old(self).history().push(n),
            final(self).resolved() == (old(self).resolved() || wakes(n, old(self).supports_terminate())),
            announce == (!old(self).resolved() && wakes(n, old(self).supports_terminate())),
            announcements(final(self).supports_terminate(), final(self).history())
                == announcements(old(self).supports_terminate(), old(self).history()) + if announce {
                1nat
            } else {
                0nat
            },
    {
        let wakes_now = match n {
            Notification::Interrupt => true,
            Notification::Terminate => self.terminate_supported,
        };
        let announce = !self.resolved && wakes_now;
        let ghost before = self.history@;
        self.resolved = self.resolved || wakes_now;
        self.history = Ghost(before.push(n));
        proof {
            assert(self.history@.drop_last() =~= before);
        }
        announce
    }
}

/// The race is announced at most once, whatever is delivered; an interrupt
/// always decides it; and where the platform has no terminate signal,
/// nothing but an interrupt decides it.
pub proof fn shutdown_race(terminate_supported: bool, history: Seq<Notification>)
    ensures
        announcements(terminate_supported, history) <= 1,
        announcements(terminate_supported, history) == 1 <==> resolved_after(
            terminate_supported,
            history,
        ),
        history.contains(Notification::Interrupt) ==> resolved_after(terminate_supported, history),
        !terminate_supported && !history.contains(Notification::Interrupt) ==> !resolved_after(
            terminate_supported,
            history,
        ),
    decreases history.len(),
{
    if history.len() > 0 {
        let before = history.drop_last();
        shutdown_race(terminate_supported, before);
        if history.contains(Notification::Interrupt) && history.last() != Notification::Interrupt {
            let i = choose|i: int| 0 <= i < history.len() && history[i] == Notification::Interrupt;
            assert(before[i] == Notification::Interrupt);
        }
        if !history.contains(Notification::Interrupt) {
            assert forall|i: int| 0 <= i < before.len() implies before[i] != Notification::Interrupt by {
                assert(history[i] == before[i]);
            }
            assert(history[history.len() - 1] == history.last());
        }
    }
}

/// The notice printed when graceful shutdown starts.
pub fn shutdown_notice() -> (r: String)
    ensures
        r@ == "signal received, starting graceful shutdown"@,
{
    String::from_str("signal received, starting graceful shutdown")
}

} // verus!
