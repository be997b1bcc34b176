use ultidesk::error::CoreError;
use ultidesk::ids::{DeviceId, EventId, LeaseId, ProjectionId, SessionId};
use ultidesk::projection::{ProjectionEvent, ProjectionState, TransitionError};
use ultidesk::scroll::{WheelDelta, WHEEL_DELTA};

#[test]
fn fresh_ids_do_not_repeat() {
    assert_ne!(DeviceId::new(), DeviceId::new());
    assert_ne!(SessionId::new(), SessionId::new());
    assert_ne!(LeaseId::new(), LeaseId::new());
    assert_ne!(ProjectionId::new(), ProjectionId::new());
    assert_ne!(EventId::new(), EventId::new());
}

#[test]
fn a_fresh_device_id_is_a_random_uuid() {
    let id = DeviceId::new();
    assert_eq!(uuid::Uuid::from_u128(id.as_u128()).get_version_num(), 4);
    assert_eq!(DeviceId::from_u128(id.as_u128()), id);
    assert_eq!(EventId::from_u128(5), EventId(5));
}

#[test]
fn a_refused_transition_becomes_a_core_error() {
    let e = TransitionError { state: ProjectionState::Local, event: ProjectionEvent::FirstFrame };
    assert!(matches!(CoreError::from(e), CoreError::Transition(t) if t == e));
}

#[test]
fn only_a_delta_with_no_notch_is_zero() {
    assert!(WheelDelta { x: 0, y: 0 }.is_zero());
    assert!(!WheelDelta { x: 0, y: -WHEEL_DELTA }.is_zero());
    assert!(!WheelDelta { x: WHEEL_DELTA, y: 0 }.is_zero());
    assert_eq!(WHEEL_DELTA, 120);
}
