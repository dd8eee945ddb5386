//! The console's port: the one it listens on, and the search for a free one.

use vstd::prelude::*;
use crate::response::DEFAULT_WEB_CONSOLE_PORT;

verus! {

/// The port the console listens on, when it listens.
pub struct PortState {
    port: Option<u16>,
}

impl View for PortState {
    type V = Option<u16>;

    closed spec fn view(&self) -> Option<u16> {
        self.port
    }
}

/// What a state holds after `set_actual_port(port)`.
pub open spec fn spec_set_port(state: Option<u16>, port: Option<u16>) -> Option<u16> {
    port
}

/// What `get_actual_port` reads from a state.
pub open spec fn spec_get_port(state: Option<u16>) -> Option<u16> {
    state
}

/// The state before the server has started: no port.
pub fn web_console_port_state() -> (r: PortState)
    ensures
        r@ is None,
{
    PortState { port: None }
}

/// Records the port the console listens on (`None`: it does not listen).
pub fn set_actual_port(state: &mut PortState, port: Option<u16>)
    ensures
        final(state)@ == spec_set_port(old(state)@, port),
{
    state.port = port;
}

/// The port the console listens on, if any.
pub fn get_actual_port(state: &PortState) -> (r: Option<u16>)
    ensures
        r == spec_get_port(state@),
{
    state.port
}

/// A read after a write gives back what was written, whatever the state
/// held before.
pub proof fn law_port_read_after_write(before: Option<u16>, written: Option<u16>)
    ensures
        spec_get_port(spec_set_port(before, written)) == written,
{
}

/// The port tried at the given attempt: the preferred port plus the number
/// of attempts before, saturating at `u16::MAX`.
pub open spec fn candidate_port(attempt: nat) -> u16 {
    if DEFAULT_WEB_CONSOLE_PORT + attempt > u16::MAX {
        u16::MAX
    } else {
        (DEFAULT_WEB_CONSOLE_PORT + attempt) as u16
    }
}

/// What the server does next while it looks for a port.
#[derive(Debug, PartialEq, Eq, Structural)]
pub enum BindStep {
    /// Try to bind this port.
    TryBind(u16),
    /// Bound: listen here; `switched` when the preferred port was busy.
    Listening { port: u16, switched: bool },
    /// Every attempt failed: no port.
    Exhausted,
}

/// The search for a free port: at most `range` attempts, from the preferred
/// port upwards.
pub struct PortSearch {
    port: u16,
    attempt: u32,
    range: u32,
}

impl PortSearch {
    /// Number of attempts made before the current one.
    pub closed spec fn attempt(&self) -> nat {
        self.attempt as nat
    }

    /// Number of attempts allowed.
    pub closed spec fn range(&self) -> nat {
        self.range as nat
    }

    pub closed spec fn wf(&self) -> bool {
        self.port == candidate_port(self.attempt as nat)
    }

    /// Starts a search of at most `range` attempts, and says what to do first.
    pub fn new(range: u32) -> (r: (Self, BindStep))
        ensures
            r.0.wf(),
            r.0.attempt() == 0,
            r.0.range() == range,
            range > 0 ==> r.1 == BindStep::TryBind(DEFAULT_WEB_CONSOLE_PORT),
            range == 0 ==> r.1 == BindStep::Exhausted,
    {
        let s = PortSearch { port: DEFAULT_WEB_CONSOLE_PORT, attempt: 0, range };
        if range > 0 {
            (s, BindStep::TryBind(DEFAULT_WEB_CONSOLE_PORT))
        } else {
            (s, BindStep::Exhausted)
        }
    }

    /// Takes the result of binding the port of the current attempt.
    pub fn on_bind_result(&mut self, bound: bool) -> (r: BindStep)
        requires
            old(self).wf(),
            old(self).attempt() < old(self).range(),
        ensures
            final(self).wf(),
            final(self).range() == old(self).range(),
            bound ==> r == (BindStep::Listening {
                port: candidate_port(old(self).attempt()),
                switched: old(self).attempt() > 0,
            }) && final(self).attempt() == old(self).attempt(),
            !bound ==> final(self).attempt() == old(self).attempt() + 1,
            !bound && old(self).attempt() + 1 < old(self).range() ==> r == BindStep::TryBind(
                candidate_port(old(self).attempt() + 1),
            ),
            !bound && old(self).attempt() + 1 >= old(self).range() ==> r == BindStep::Exhausted,
    {
        if bound {
            return BindStep::Listening { port: self.port, switched: self.attempt > 0 };
        }
        self.port = self.port.saturating_add(1);
        self.attempt = self.attempt + 1;
        if self.attempt < self.range {
            BindStep::TryBind(self.port)
        } else {
            BindStep::Exhausted
        }
    }
}

} // verus!
