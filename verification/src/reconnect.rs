//! The WebSocket reconnection loop, as an explicit state machine.
//!
//! The caller owns the socket and the clock; it reports what happened — a
//! handshake, a session end, a stop signal — and this machine decides, with a
//! proof, what the loop does next: which delay to sleep, when to retry, and
//! when to give up. The connected flag is true exactly while a session is
//! believed live, and is false by the time the loop stops.

use vstd::prelude::*;

use crate::backoff::BackoffPolicy;
use crate::models::WebSocketTelemetryMessage;

verus! {

/// Where the reconnection loop stands.
#[derive(Debug, Clone, Copy, PartialEq, Eq, Structural)]
pub enum WsPhase {
    Connecting,
    Connected,
    Backoff,
    Stopped,
}

/// What to do once the loop has entered backoff: sleep for a while, or stop.
#[derive(Debug, Clone, Copy, PartialEq, Eq, Structural)]
pub enum BackoffDecision {
    Sleep { delay_ms: u64 },
    Stop,
}

/// What to do after the backoff sleep: try to connect again, or stop.
#[derive(Debug, Clone, Copy, PartialEq, Eq, Structural)]
pub enum LoopDirective {
    Retry,
    Stop,
}

/// One device's reconnection loop: its backoff policy, current phase,
/// consecutive-failure count and connected flag.
#[derive(Debug, Clone, Copy)]
pub struct ReconnectLoop {
    pub policy: BackoffPolicy,
    pub phase: WsPhase,
    pub attempts: u32,
    pub connected: bool,
}

impl ReconnectLoop {
    /// The machine's invariant: the flag tracks the live session exactly, and
    /// a running loop has not exhausted its attempt ceiling (a fresh count of
    /// zero is always allowed in).
    pub open spec fn wf(self) -> bool {
        &&& self.policy.wf()
        &&& (self.connected <==> self.phase is Connected)
        &&& !(self.phase is Stopped) ==> (self.attempts == 0 || self.attempts
            < self.policy.max_attempts)
    }

    pub fn new(policy: BackoffPolicy) -> (r: Self)
        requires
            policy.wf(),
        ensures
            r == (ReconnectLoop {
                policy,
                phase: WsPhase::Connecting,
                attempts: 0,
                connected: false,
            }),
            r.wf(),
    {
        ReconnectLoop { policy, phase: WsPhase::Connecting, attempts: 0, connected: false }
    }

    /// Read-only view of the connected flag.
    pub fn is_connected(&self) -> (r: bool)
        ensures
            r == self.connected,
    {
        self.connected
    }

    /// The delay the loop would sleep before its next attempt.
    pub fn next_delay_ms(&self) -> (r: u64)
        requires
            self.wf(),
        ensures
            r == self.policy.spec_delay_ms(self.attempts),
    {
        self.policy.delay_ms(self.attempts)
    }

    /// The state after a clean handshake: live, with the failure counter
    /// cleared.
    pub open spec fn spec_established(self) -> ReconnectLoop {
        ReconnectLoop { phase: WsPhase::Connected, attempts: 0, connected: true, ..self }
    }

    /// A clean handshake: the session is live, and any clean handshake resets
    /// the backoff counter to zero, even if the session later drops.
    pub fn on_established(&mut self)
        requires
            old(self).wf(),
            old(self).phase is Connecting,
        ensures
            final(self).wf(),
            *final(self) == old(self).spec_established(),
    {
        self.phase = WsPhase::Connected;
        self.attempts = 0;
        self.connected = true;
    }

    /// The server closed the session or the read stream ended cleanly: the
    /// session is over, but a clean end is no failure, so the counter is left
    /// alone and the loop moves to backoff.
    pub fn on_session_closed(&mut self)
        requires
            old(self).wf(),
            old(self).phase is Connected,
        ensures
            final(self).wf(),
            *final(self) == (ReconnectLoop {
                phase: WsPhase::Backoff,
                connected: false,
                ..*old(self)
            }),
    {
        self.phase = WsPhase::Backoff;
        self.connected = false;
    }

    /// A failed handshake or an abrupt drop: the counter increments, and once
    /// it reaches the policy's ceiling the loop gives up for good.
    pub fn on_session_error(&mut self) -> (gave_up: bool)
        requires
            old(self).wf(),
            old(self).phase is Connecting || old(self).phase is Connected,
        ensures
            final(self).wf(),
            final(self).policy == old(self).policy,
            !final(self).connected,
            final(self).attempts == old(self).attempts + 1,
            gave_up <==> final(self).attempts >= old(self).policy.max_attempts,
            gave_up ==> final(self).phase is Stopped,
            !gave_up ==> final(self).phase is Backoff,
    {
        self.connected = false;
        self.attempts = self.attempts + 1;
        if self.attempts >= self.policy.max_attempts {
            self.phase = WsPhase::Stopped;
            true
        } else {
            self.phase = WsPhase::Backoff;
            false
        }
    }

    /// The stop check made before computing the backoff delay: a pending stop
    /// signal ends the loop cleanly; otherwise the loop sleeps for exactly
    /// the capped exponential delay of the current failure count.
    pub fn backoff_or_stop(&mut self, stop_requested: bool) -> (d: BackoffDecision)
        requires
            old(self).wf(),
            old(self).phase is Backoff,
        ensures
            final(self).wf(),
            final(self).policy == old(self).policy,
            final(self).attempts == old(self).attempts,
            stop_requested ==> d == BackoffDecision::Stop && final(self).phase is Stopped
                && !final(self).connected,
            !stop_requested ==> d == (BackoffDecision::Sleep {
                delay_ms: old(self).policy.spec_delay_ms(old(self).attempts) as u64,
            }) && *final(self) == *old(self),
    {
        if stop_requested {
            self.connected = false;
            self.phase = WsPhase::Stopped;
            BackoffDecision::Stop
        } else {
            BackoffDecision::Sleep { delay_ms: self.next_delay_ms() }
        }
    }

    /// The stop check made again after the sleep: a stop signal that arrived
    /// during backoff ends the loop; otherwise it goes back to connecting.
    pub fn after_sleep(&mut self, stop_requested: bool) -> (d: LoopDirective)
        requires
            old(self).wf(),
            old(self).phase is Backoff,
        ensures
            final(self).wf(),
            final(self).policy == old(self).policy,
            final(self).attempts == old(self).attempts,
            !final(self).connected,
            stop_requested ==> d == LoopDirective::Stop && final(self).phase is Stopped,
            !stop_requested ==> d == LoopDirective::Retry && final(self).phase is Connecting,
    {
        if stop_requested {
            self.connected = false;
            self.phase = WsPhase::Stopped;
            LoopDirective::Stop
        } else {
            self.phase = WsPhase::Connecting;
            LoopDirective::Retry
        }
    }

    /// An explicit disconnect: the flag drops and the loop is told to stop.
    /// Safe to call repeatedly and in any phase.
    pub fn on_disconnect(&mut self)
        requires
            old(self).wf(),
        ensures
            final(self).wf(),
            final(self).policy == old(self).policy,
            *final(self) == (ReconnectLoop {
                phase: WsPhase::Stopped,
                connected: false,
                attempts: old(self).attempts,
                policy: old(self).policy,
            }),
    {
        self.connected = false;
        self.phase = WsPhase::Stopped;
    }
}

/// A successful reconnection resets the backoff: however many failures came
/// before, the delay the loop would sleep after the transition into
/// Connected is the delay of attempt zero.
pub proof fn lemma_established_resets_delay(lp: ReconnectLoop)
    requires
        lp.wf(),
    ensures
        lp.spec_established().policy.spec_delay_ms(lp.spec_established().attempts)
            == lp.policy.spec_delay_ms(0),
{
}

/// One inbound WebSocket frame, with any text payload already parsed by the
/// caller: `Text { telemetry: None }` is a text frame that did not parse as
/// telemetry.
#[derive(Debug, Clone, Copy)]
pub enum WsFrame {
    Text { telemetry: Option<WebSocketTelemetryMessage> },
    Close,
    Ping,
    Other,
    SocketError,
}

/// What a session does with one inbound frame.
#[derive(Debug, Clone, Copy)]
pub enum FrameAction {
    Deliver { telemetry: WebSocketTelemetryMessage },
    Ignore,
    EndClean,
    EndError,
}

/// Per-frame session behaviour: telemetry is delivered to the callback, a
/// text frame that fails to parse is swallowed (one bad frame must not end
/// the session), a server close ends the session cleanly, and a socket error
/// ends it as a failure.
pub fn frame_action(frame: &WsFrame) -> (a: FrameAction)
    ensures
        match *frame {
            WsFrame::Text { telemetry: Some(t) } => a == (FrameAction::Deliver { telemetry: t }),
            WsFrame::Text { telemetry: None } => a is Ignore,
            WsFrame::Close => a is EndClean,
            WsFrame::Ping => a is Ignore,
            WsFrame::Other => a is Ignore,
            WsFrame::SocketError => a is EndError,
        },
{
    match frame {
        WsFrame::Text { telemetry: Some(t) } => FrameAction::Deliver { telemetry: *t },
        WsFrame::Text { telemetry: None } => FrameAction::Ignore,
        WsFrame::Close => FrameAction::EndClean,
        WsFrame::Ping => FrameAction::Ignore,
        WsFrame::Other => FrameAction::Ignore,
        WsFrame::SocketError => FrameAction::EndError,
    }
}

} // verus!
