use jni::objects::JObject;
use jvm_bridge::errors::BridgeError;
use jvm_bridge::game::Vec3d;
use jvm_bridge::locator::{
    evaluate_enumeration, locate_step, AttachLedger, LocateEvent, LocateState,
};
use jvm_bridge::motion::{
    after_failure, decide_motion, drive, IterationEvent, IterationOutcome, LoopAction, MotionRule,
};

#[test]
fn grounded_flag_picks_the_jump_rule() {
    assert_eq!(decide_motion(true), MotionRule::Grounded);
}

#[test]
fn airborne_flag_picks_the_glide_rule() {
    assert_eq!(decide_motion(false), MotionRule::Airborne);
}

#[test]
fn only_the_mapping_failure_is_fatal() {
    assert_eq!(after_failure(&BridgeError::MappingLoad), LoopAction::Halt);
    assert_eq!(after_failure(&BridgeError::ManagedCall), LoopAction::Continue);
    assert_eq!(after_failure(&BridgeError::ManagedAlloc), LoopAction::Continue);
    assert_eq!(after_failure(&BridgeError::DetachedEnvironment), LoopAction::Continue);
    assert_eq!(after_failure(&BridgeError::NoVmInstances), LoopAction::Continue);
}

#[test]
fn failure_on_one_iteration_spares_the_next() {
    let events = vec![
        IterationEvent::Healthy { on_ground: true },
        IterationEvent::Faulted { error: BridgeError::ManagedCall },
        IterationEvent::Healthy { on_ground: false },
    ];
    let log = drive(&events);
    assert_eq!(log.len(), 3);
    assert_eq!(log[0], IterationOutcome::Applied { rule: MotionRule::Grounded });
    assert_eq!(log[1], IterationOutcome::Skipped { error: BridgeError::ManagedCall });
    assert_eq!(log[2], IterationOutcome::Applied { rule: MotionRule::Airborne });
}

#[test]
fn fatal_failure_stops_the_loop_for_good() {
    let events = vec![
        IterationEvent::Faulted { error: BridgeError::MappingLoad },
        IterationEvent::Healthy { on_ground: true },
    ];
    let log = drive(&events);
    assert_eq!(log[0], IterationOutcome::Skipped { error: BridgeError::MappingLoad });
    assert_eq!(log[1], IterationOutcome::NotReached);
}

#[test]
fn zero_instances_fail_without_a_crash() {
    assert_eq!(evaluate_enumeration(0, 0), Err(BridgeError::NoVmInstances));
    assert_eq!(evaluate_enumeration(-1, 1), Err(BridgeError::NoVmInstances));
    assert_eq!(evaluate_enumeration(0, 1), Ok(()));
}

#[test]
fn zero_instances_never_reach_the_attach_step() {
    let s = locate_step(
        LocateState::NeedEnumeration,
        LocateEvent::Enumerated { code: 0, count: 0 },
    );
    assert_eq!(s, LocateState::Failed(BridgeError::NoVmInstances));
}

#[test]
fn locator_walks_the_happy_path() {
    let mut s = LocateState::NeedModule;
    s = locate_step(s, LocateEvent::ModuleResolved(true));
    assert_eq!(s, LocateState::NeedSymbol);
    s = locate_step(s, LocateEvent::SymbolResolved(true));
    assert_eq!(s, LocateState::NeedEnumeration);
    s = locate_step(s, LocateEvent::Enumerated { code: 0, count: 1 });
    assert_eq!(s, LocateState::NeedAttach);
    s = locate_step(s, LocateEvent::Attached(true));
    assert_eq!(s, LocateState::Done);
}

#[test]
fn locator_reports_each_missing_step() {
    assert_eq!(
        locate_step(LocateState::NeedModule, LocateEvent::ModuleResolved(false)),
        LocateState::Failed(BridgeError::ModuleNotFound)
    );
    assert_eq!(
        locate_step(LocateState::NeedSymbol, LocateEvent::SymbolResolved(false)),
        LocateState::Failed(BridgeError::SymbolNotFound)
    );
    assert_eq!(
        locate_step(LocateState::NeedAttach, LocateEvent::Attached(false)),
        LocateState::Failed(BridgeError::AttachFailed)
    );
}

#[test]
fn stray_event_leaves_the_locator_in_place() {
    let s = locate_step(LocateState::NeedModule, LocateEvent::Attached(true));
    assert_eq!(s, LocateState::NeedModule);
}

#[test]
fn attaching_twice_has_no_second_side_effect() {
    let mut ledger = AttachLedger::new();
    assert!(ledger.attach(7));
    let after_first = ledger.attached.clone();
    assert!(!ledger.attach(7));
    assert_eq!(ledger.attached, after_first);
    assert!(ledger.is_attached(7));
    assert!(!ledger.is_attached(8));
}

#[test]
fn null_reference_is_refused_by_the_vector_wrapper() {
    let r = Vec3d::from_ref(JObject::null());
    assert!(matches!(r, Err(BridgeError::ManagedCall)));
}

#[test]
fn error_descriptions_name_each_failure() {
    assert_eq!(BridgeError::NoVmInstances.describe(), "no virtual machine instances");
    assert_eq!(BridgeError::MappingLoad.describe(), "mapping table failed to load");
}
