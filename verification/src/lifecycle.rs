//! Service lifecycle controller: bridges OS service-control events to the
//! listener's one-shot stop signal and tracks the reported service state.

use vstd::prelude::*;

verus! {

/// States of the background-service lifecycle, from process start to
/// confirmed listener termination.
#[derive(Clone, Copy, PartialEq, Eq, Structural, Debug)]
pub enum ServiceLifecycleState {
    Starting,
    Running,
    StopRequested,
    Stopped,
}

/// Control events delivered by the OS service manager.
#[derive(Clone, Copy, PartialEq, Eq, Structural, Debug)]
pub enum ServiceControlEvent {
    Stop,
    Interrogate,
    UserEvent(u32),
    Other,
}

/// How the controller acknowledges a control event to the service manager.
#[derive(Clone, Copy, PartialEq, Eq, Structural, Debug)]
pub enum ControlAck {
    NoError,
    NotImplemented,
}

/// The user-defined control code treated as a stop request.
pub const STOP_USER_CODE: u32 = 130;

/// Whether a control event asks the service to stop.
pub open spec fn is_stop_request(ev: ServiceControlEvent) -> bool {
    ev == ServiceControlEvent::Stop || ev == ServiceControlEvent::UserEvent(STOP_USER_CODE)
}

/// The controller's reaction to one control event: the next state, whether
/// the one-shot stop signal has been consumed, the acknowledgement, and
/// whether the stop signal must be sent now.
pub open spec fn control_step(
    s: ServiceLifecycleState,
    signaled: bool,
    ev: ServiceControlEvent,
) -> (ServiceLifecycleState, bool, ControlAck, bool) {
    match ev {
        ServiceControlEvent::Stop | ServiceControlEvent::UserEvent(_) => {
            if is_stop_request(ev) && s == ServiceLifecycleState::Running && !signaled {
                (ServiceLifecycleState::StopRequested, true, ControlAck::NoError, true)
            } else {
                (s, signaled, ControlAck::NoError, false)
            }
        },
        ServiceControlEvent::Interrogate => (s, signaled, ControlAck::NoError, false),
        ServiceControlEvent::Other => (s, signaled, ControlAck::NotImplemented, false),
    }
}

/// Bridges OS service-control events to the listener's stop signal.
pub struct LifecycleController {
    pub state: ServiceLifecycleState,
    pub stop_signaled: bool,
}

impl LifecycleController {
    /// A controller for a service that has just begun starting up.
    pub fn new() -> (r: LifecycleController)
        ensures
            r.state == ServiceLifecycleState::Starting,
            !r.stop_signaled,
    {
        LifecycleController { state: ServiceLifecycleState::Starting, stop_signaled: false }
    }

    /// Handle one OS control event; returns the acknowledgement for the
    /// service manager and whether the one-shot stop signal must be sent.
    pub fn handle_control_event(&mut self, ev: ServiceControlEvent) -> (r: (ControlAck, bool))
        ensures
            ({
                let (s2, g2, ack, send) = control_step(
                    old(self).state,
                    old(self).stop_signaled,
                    ev,
                );
                final(self).state == s2 && final(self).stop_signaled == g2 && r.0 == ack && r.1
                    == send
            }),
    {
        match ev {
            ServiceControlEvent::Stop => self.request_stop(),
            ServiceControlEvent::UserEvent(code) => {
                if code == STOP_USER_CODE {
                    self.request_stop()
                } else {
                    (ControlAck::NoError, false)
                }
            },
            ServiceControlEvent::Interrogate => (ControlAck::NoError, false),
            ServiceControlEvent::Other => (ControlAck::NotImplemented, false),
        }
    }

    /// A stop request: honored once, while the listener runs; otherwise a no-op.
    fn request_stop(&mut self) -> (r: (ControlAck, bool))
        ensures
            old(self).state == ServiceLifecycleState::Running && !old(self).stop_signaled ==> (
            final(self).state == ServiceLifecycleState::StopRequested && final(self).stop_signaled
                && r.1),
            !(old(self).state == ServiceLifecycleState::Running && !old(self).stop_signaled) ==> (
            *final(self) == *old(self) && !r.1),
            r.0 == ControlAck::NoError,
    {
        if self.state == ServiceLifecycleState::Running && !self.stop_signaled {
            self.state = ServiceLifecycleState::StopRequested;
            self.stop_signaled = true;
            (ControlAck::NoError, true)
        } else {
            (ControlAck::NoError, false)
        }
    }

    /// Report that the listener is bound and accepting connections.
    pub fn listener_ready(&mut self)
        requires
            old(self).state == ServiceLifecycleState::Starting,
        ensures
            final(self).state == ServiceLifecycleState::Running,
            final(self).stop_signaled == old(self).stop_signaled,
    {
        self.state = ServiceLifecycleState::Running;
    }

    /// Report that the listener has confirmed its termination.
    pub fn listener_terminated(&mut self)
        requires
            old(self).state == ServiceLifecycleState::Running || old(self).state
                == ServiceLifecycleState::StopRequested,
        ensures
            final(self).state == ServiceLifecycleState::Stopped,
            final(self).stop_signaled == old(self).stop_signaled,
    {
        self.state = ServiceLifecycleState::Stopped;
    }
}

/// Law: from `Running`, a stop request moves the controller to
/// `StopRequested` and sends the one-shot signal; once the controller is
/// `Stopped`, a further stop request changes nothing, sends nothing, and is
/// still acknowledged without error.
pub proof fn lemma_stop_once_then_noop(ev: ServiceControlEvent)
    requires
        is_stop_request(ev),
    ensures
        control_step(ServiceLifecycleState::Running, false, ev) == (
            ServiceLifecycleState::StopRequested,
            true,
            ControlAck::NoError,
            true,
        ),
        control_step(ServiceLifecycleState::Stopped, true, ev) == (
            ServiceLifecycleState::Stopped,
            true,
            ControlAck::NoError,
            false,
        ),
{
}

/// Law: an event that is not a stop request never changes the controller
/// and never sends the stop signal; unknown events are acknowledged as not
/// implemented rather than escalated.
pub proof fn lemma_non_stop_events_are_harmless(
    s: ServiceLifecycleState,
    signaled: bool,
    ev: ServiceControlEvent,
)
    requires
        !is_stop_request(ev),
    ensures
        control_step(s, signaled, ev).0 == s,
        control_step(s, signaled, ev).1 == signaled,
        !control_step(s, signaled, ev).3,
{
}

} // verus!
