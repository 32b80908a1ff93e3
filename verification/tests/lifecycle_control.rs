use printing_service::lifecycle::{
    ControlAck, LifecycleController, ServiceControlEvent, ServiceLifecycleState, STOP_USER_CODE,
};

#[test]
fn stop_while_running_then_second_stop_is_noop() {
    let mut c = LifecycleController::new();
    assert_eq!(c.state, ServiceLifecycleState::Starting);
    c.listener_ready();
    assert_eq!(c.state, ServiceLifecycleState::Running);

    let (ack, send) = c.handle_control_event(ServiceControlEvent::Stop);
    assert_eq!(ack, ControlAck::NoError);
    assert!(send);
    assert_eq!(c.state, ServiceLifecycleState::StopRequested);

    c.listener_terminated();
    assert_eq!(c.state, ServiceLifecycleState::Stopped);

    let (ack2, send2) = c.handle_control_event(ServiceControlEvent::Stop);
    assert_eq!(ack2, ControlAck::NoError);
    assert!(!send2);
    assert_eq!(c.state, ServiceLifecycleState::Stopped);
}

#[test]
fn interrogate_is_acknowledged_without_state_change() {
    let mut c = LifecycleController::new();
    c.listener_ready();
    let (ack, send) = c.handle_control_event(ServiceControlEvent::Interrogate);
    assert_eq!(ack, ControlAck::NoError);
    assert!(!send);
    assert_eq!(c.state, ServiceLifecycleState::Running);
}

#[test]
fn unknown_events_are_not_implemented_and_harmless() {
    let mut c = LifecycleController::new();
    c.listener_ready();
    let (ack, send) = c.handle_control_event(ServiceControlEvent::Other);
    assert_eq!(ack, ControlAck::NotImplemented);
    assert!(!send);
    assert_eq!(c.state, ServiceLifecycleState::Running);
}

#[test]
fn user_stop_code_acts_as_stop_and_other_codes_do_not() {
    let mut c = LifecycleController::new();
    c.listener_ready();
    let (ack, send) = c.handle_control_event(ServiceControlEvent::UserEvent(5));
    assert_eq!(ack, ControlAck::NoError);
    assert!(!send);
    assert_eq!(c.state, ServiceLifecycleState::Running);

    let (ack, send) = c.handle_control_event(ServiceControlEvent::UserEvent(STOP_USER_CODE));
    assert_eq!(ack, ControlAck::NoError);
    assert!(send);
    assert_eq!(c.state, ServiceLifecycleState::StopRequested);
}
