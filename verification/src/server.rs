use vstd::prelude::*;

use crate::error::ServerError;

verus! {

/// Immutable server settings, constructed once at startup and shared by
/// every connection task.
pub struct GatewayConfig {
    /// The address the listener binds, as `host:port`.
    pub addr: String,
    /// Whether a request body is read as an array of operations.
    pub enable_batch_requests: bool,
    /// Flush policy of the HTTP/1.1 connection builder.
    pub pipeline_flush: bool,
}

impl GatewayConfig {
    pub fn new(addr: String, enable_batch_requests: bool, pipeline_flush: bool) -> (r: Self)
        ensures
            r.addr@ == addr@,
            r.enable_batch_requests == enable_batch_requests,
            r.pipeline_flush == pipeline_flush,
    {
        GatewayConfig { addr, enable_batch_requests, pipeline_flush }
    }
}

/// Phase of the accept loop.
#[derive(Clone, Copy, PartialEq, Eq, Structural, Debug)]
pub enum LoopPhase {
    /// The listening socket is not bound yet.
    Binding,
    /// Bound; the server-wide TLS configuration is owed but not built yet.
    Configuring,
    /// Bound and configured; the readiness signal is owed but not sent yet.
    Signaling,
    /// Accepting connections.
    Accepting,
    /// Terminated by a fatal error.
    Stopped,
}

/// The next piece of outside work the accept loop asks its driver to do.
#[derive(Clone, Copy, PartialEq, Eq, Structural, Debug)]
pub enum LoopAction {
    /// Bind the configured address.
    Bind,
    /// Build the server-wide TLS configuration from the fixed
    /// certificate/key pair.
    ConfigureTls,
    /// Deliver the one-shot readiness signal.
    FireSignal,
    /// Accept the next connection and serve it on an independent task.
    Accept,
    /// Stop and surface the recorded fatal error.
    Stop,
}

/// The accept loop of the listener as an explicit state machine.
///
/// The driver alternates `next_action` with the outcome callbacks: it binds,
/// builds the TLS configuration if this listener terminates TLS, fires the
/// readiness signal if one was supplied, then accepts forever, spawning one
/// independent task per connection. The machine pins the
/// startup-synchronization policy: the signal is owed exactly once, only
/// after a successful bind (and, on a TLS listener, a successful TLS
/// configuration) and before the first accept; a bind, configuration or
/// accept failure is fatal; the outcome of a spawned connection task never
/// changes the state at all.
pub struct AcceptLoop {
    pub phase: LoopPhase,
    /// Whether this listener terminates TLS, so that a TLS configuration
    /// must be built between the bind and the readiness signal.
    pub needs_tls: bool,
    /// Whether a readiness channel was supplied by the caller.
    pub wants_signal: bool,
    /// Whether the readiness signal has been delivered.
    pub signal_fired: bool,
    /// How many connections have been accepted.
    pub accepted: Ghost<nat>,
    /// The fatal error, recorded when the machine stops.
    pub failure: Option<ServerError>,
}

impl AcceptLoop {
    /// Well-formedness: every state the machine can reach satisfies this.
    pub open spec fn wf(self) -> bool {
        &&& self.signal_fired ==> self.wants_signal
        &&& self.phase is Binding ==> !self.signal_fired && self.accepted@ == 0
        &&& self.phase is Configuring ==> self.needs_tls && !self.signal_fired
            && self.accepted@ == 0
        &&& self.phase is Signaling ==> self.wants_signal && !self.signal_fired
            && self.accepted@ == 0
        &&& self.phase is Accepting ==> (self.wants_signal ==> self.signal_fired)
        &&& self.phase is Stopped <==> self.failure is Some
        &&& match self.failure {
            Some(e) => e.spec_is_fatal(),
            None => true,
        }
        &&& self.failure == Some(ServerError::BindFailure) ==> !self.signal_fired
            && self.accepted@ == 0
        &&& self.failure == Some(ServerError::TlsConfigFailure) ==> !self.signal_fired
            && self.accepted@ == 0
        &&& self.failure == Some(ServerError::SignalDeliveryFailure) ==> !self.signal_fired
            && self.accepted@ == 0
        &&& self.accepted@ > 0 ==> (self.wants_signal ==> self.signal_fired)
    }

    /// A fresh machine for one server start.
    pub fn new(wants_signal: bool, needs_tls: bool) -> (r: Self)
        ensures
            r.wf(),
            r.phase is Binding,
            r.wants_signal == wants_signal,
            r.needs_tls == needs_tls,
            !r.signal_fired,
            r.accepted@ == 0,
            r.failure is None,
    {
        AcceptLoop {
            phase: LoopPhase::Binding,
            needs_tls,
            wants_signal,
            signal_fired: false,
            accepted: Ghost(0),
            failure: None,
        }
    }

    /// What the driver must do next, a function of the phase alone.
    pub fn next_action(&self) -> (r: LoopAction)
        ensures
            r == match self.phase {
                LoopPhase::Binding => LoopAction::Bind,
                LoopPhase::Configuring => LoopAction::ConfigureTls,
                LoopPhase::Signaling => LoopAction::FireSignal,
                LoopPhase::Accepting => LoopAction::Accept,
                LoopPhase::Stopped => LoopAction::Stop,
            },
    {
        match self.phase {
            LoopPhase::Binding => LoopAction::Bind,
            LoopPhase::Configuring => LoopAction::ConfigureTls,
            LoopPhase::Signaling => LoopAction::FireSignal,
            LoopPhase::Accepting => LoopAction::Accept,
            LoopPhase::Stopped => LoopAction::Stop,
        }
    }

    /// Outcome of the bind. On failure the server stops with `BindFailure`
    /// and the readiness signal has not fired and never will.
    pub fn on_bound(&mut self, ok: bool)
        requires
            old(self).wf(),
            old(self).phase is Binding,
        ensures
            final(self).wf(),
            final(self).wants_signal == old(self).wants_signal,
            final(self).needs_tls == old(self).needs_tls,
            !final(self).signal_fired,
            final(self).accepted@ == 0,
            ok && old(self).needs_tls ==> final(self).phase is Configuring
                && final(self).failure is None,
            ok && !old(self).needs_tls && old(self).wants_signal ==> final(self).phase
                is Signaling && final(self).failure is None,
            ok && !old(self).needs_tls && !old(self).wants_signal ==> final(self).phase
                is Accepting && final(self).failure is None,
            !ok ==> final(self).phase is Stopped
                && final(self).failure == Some(ServerError::BindFailure),
    {
        if ok {
            if self.needs_tls {
                self.phase = LoopPhase::Configuring;
            } else if self.wants_signal {
                self.phase = LoopPhase::Signaling;
            } else {
                self.phase = LoopPhase::Accepting;
            }
        } else {
            self.phase = LoopPhase::Stopped;
            self.failure = Some(ServerError::BindFailure);
        }
    }

    /// Outcome of building the server-wide TLS configuration. A rejected
    /// certificate/key pair stops the server with the fatal
    /// `TlsConfigFailure` before the readiness signal fires and before any
    /// connection is accepted.
    pub fn on_tls_configured(&mut self, ok: bool)
        requires
            old(self).wf(),
            old(self).phase is Configuring,
        ensures
            final(self).wf(),
            final(self).wants_signal == old(self).wants_signal,
            final(self).needs_tls == old(self).needs_tls,
            !final(self).signal_fired,
            final(self).accepted@ == 0,
            ok && old(self).wants_signal ==> final(self).phase is Signaling
                && final(self).failure is None,
            ok && !old(self).wants_signal ==> final(self).phase is Accepting
                && final(self).failure is None,
            !ok ==> final(self).phase is Stopped
                && final(self).failure == Some(ServerError::TlsConfigFailure),
    {
        if ok {
            if self.wants_signal {
                self.phase = LoopPhase::Signaling;
            } else {
                self.phase = LoopPhase::Accepting;
            }
        } else {
            self.phase = LoopPhase::Stopped;
            self.failure = Some(ServerError::TlsConfigFailure);
        }
    }

    /// Outcome of delivering the readiness signal. A lost consumer is an
    /// integration error and therefore fatal; the signal then never counts
    /// as fired.
    pub fn on_signal_sent(&mut self, delivered: bool)
        requires
            old(self).wf(),
            old(self).phase is Signaling,
        ensures
            final(self).wf(),
            final(self).wants_signal == old(self).wants_signal,
            final(self).needs_tls == old(self).needs_tls,
            final(self).accepted@ == 0,
            delivered ==> final(self).phase is Accepting
                && final(self).signal_fired
                && final(self).failure is None,
            !delivered ==> final(self).phase is Stopped
                && !final(self).signal_fired
                && final(self).failure == Some(ServerError::SignalDeliveryFailure),
    {
        if delivered {
            self.signal_fired = true;
            self.phase = LoopPhase::Accepting;
        } else {
            self.phase = LoopPhase::Stopped;
            self.failure = Some(ServerError::SignalDeliveryFailure);
        }
    }

    /// Outcome of one accept call. Accept errors are the one fatal condition
    /// of the steady state: the listening socket is assumed reliable, so its
    /// failure terminates the server.
    pub fn on_accept(&mut self, ok: bool)
        requires
            old(self).wf(),
            old(self).phase is Accepting,
        ensures
            final(self).wf(),
            final(self).wants_signal == old(self).wants_signal,
            final(self).needs_tls == old(self).needs_tls,
            final(self).signal_fired == old(self).signal_fired,
            ok ==> final(self).phase is Accepting
                && final(self).failure is None
                && final(self).accepted@ == old(self).accepted@ + 1,
            !ok ==> final(self).phase is Stopped
                && final(self).failure == Some(ServerError::AcceptFailure)
                && final(self).accepted@ == old(self).accepted@,
    {
        if ok {
            let ghost n: nat = self.accepted@;
            self.accepted = Ghost(n + 1);
        } else {
            self.phase = LoopPhase::Stopped;
            self.failure = Some(ServerError::AcceptFailure);
        }
    }

    /// Outcome of one spawned connection task. Whatever happened inside the
    /// task — handshake failure, protocol error, dispatch error or a clean
    /// close — the accept loop is left exactly as it was: per-connection
    /// failures are isolated.
    pub fn on_connection_done(&mut self, succeeded: bool)
        requires
            old(self).wf(),
            old(self).phase is Accepting,
        ensures
            *final(self) == *old(self),
    {
        let _ = succeeded;
    }
}

/// The readiness signal respects the bind: in every reachable state that has
/// accepted a connection, a supplied signal has already fired — the signal
/// comes strictly before the first accept resolves.
pub proof fn lemma_signal_before_first_accept(m: AcceptLoop)
    requires
        m.wf(),
        m.wants_signal,
        m.accepted@ > 0,
    ensures
        m.signal_fired,
{
}

/// The readiness signal fires at most once: while it is owed it has not
/// fired, and once it has fired the machine is never again in the one phase
/// whose action is `FireSignal`.
pub proof fn lemma_signal_fires_at_most_once(m: AcceptLoop)
    requires
        m.wf(),
    ensures
        m.phase is Signaling ==> !m.signal_fired,
        m.signal_fired ==> !(m.phase is Signaling),
{
}

/// A failed bind is fatal and silent: the machine is stopped with
/// `BindFailure`, the readiness signal has not fired, and no connection was
/// ever accepted.
pub proof fn lemma_bind_failure_no_signal(m: AcceptLoop)
    requires
        m.wf(),
        m.failure == Some(ServerError::BindFailure),
    ensures
        m.phase is Stopped,
        !m.signal_fired,
        m.accepted@ == 0,
{
}

/// A rejected certificate/key pair is fatal and silent too: the machine is
/// stopped with `TlsConfigFailure`, the readiness signal has not fired, and
/// no connection was ever accepted.
pub proof fn lemma_tls_config_failure_no_signal(m: AcceptLoop)
    requires
        m.wf(),
        m.failure == Some(ServerError::TlsConfigFailure),
    ensures
        m.phase is Stopped,
        !m.signal_fired,
        m.accepted@ == 0,
{
}

} // verus!
