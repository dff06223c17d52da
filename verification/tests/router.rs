use hostkit::runtime::error::ErrorCode;
use hostkit::runtime::router::Router;
use hostkit::runtime::task::ContextState;

#[test]
fn grant_and_query_capabilities() {
    let mut router: Router<u64, &str> = Router::new();
    assert_eq!(router.grant_count(), 0);
    assert!(!router.is_granted(&1));
    assert!(router.grant(1, "echo"));
    assert!(router.grant(2, "wait"));
    assert!(router.is_granted(&1));
    assert!(router.is_granted(&2));
    assert!(!router.is_granted(&3));
    assert_eq!(router.grant_count(), 2);
}

#[test]
fn duplicate_grant_preserves_original_handler() {
    let mut router: Router<u64, u32> = Router::default();
    assert!(router.grant(7, 1));
    assert!(!router.grant(7, 2));
    assert_eq!(router.grant_count(), 1);
    let mut context = ContextState::new();

    let (handler, task_id) = router.dispatch(&mut context, &7).unwrap();

    assert_eq!(*handler, 1);
    assert_eq!(task_id, 0);
}

#[test]
fn denied_capability_does_not_start_or_invoke_work() {
    let mut router: Router<u64, &str> = Router::new();
    router.grant(1, "echo");
    let mut context = ContextState::new();

    let error = match router.dispatch(&mut context, &2) {
        Ok(_) => panic!("ungranted capability was dispatched"),
        Err(error) => error,
    };

    assert_eq!(error.code(), ErrorCode::CapabilityDenied);
    assert_eq!(error.message(), "capability not granted");
    assert_eq!(context.task_count(), 0);
    assert_eq!(context.next_task_id(), 0);
}

#[test]
fn cancelled_context_does_not_invoke_granted_handler() {
    let mut router: Router<u64, &str> = Router::new();
    router.grant(1, "echo");
    let mut context = ContextState::new();
    context.close();

    let error = match router.dispatch(&mut context, &1) {
        Ok(_) => panic!("cancelled request context dispatched work"),
        Err(error) => error,
    };

    assert_eq!(error.code(), ErrorCode::Cancelled);
    assert_eq!(context.task_count(), 0);
    assert_eq!(context.next_task_id(), 0);
}

#[test]
fn denial_is_decided_before_cancellation() {
    let router: Router<u64, &str> = Router::new();
    let mut context = ContextState::new();
    context.close();

    let error = router.dispatch(&mut context, &1).err().unwrap();

    assert_eq!(error.code(), ErrorCode::CapabilityDenied);
}

#[test]
fn dispatch_hands_out_fresh_task_identifiers() {
    let mut router: Router<u64, &str> = Router::new();
    router.grant(1, "echo");
    let mut context = ContextState::new();

    let first = router.dispatch(&mut context, &1).unwrap().1;
    let second = router.dispatch(&mut context, &1).unwrap().1;

    assert_eq!(first, 0);
    assert_eq!(second, 1);
    assert_eq!(context.next_task_id(), 2);
}

#[test]
fn revocation_denies_new_work() {
    let mut router: Router<u64, &str> = Router::new();
    router.grant(1, "wait");
    let mut context = ContextState::new();
    assert!(router.dispatch(&mut context, &1).is_ok());

    assert!(router.revoke(&1));
    assert!(!router.is_granted(&1));
    assert!(!router.revoke(&1));
    let denied = router.dispatch(&mut context, &1).err().unwrap();
    assert_eq!(denied.code(), ErrorCode::CapabilityDenied);
    assert_eq!(router.grant_count(), 0);
}

#[test]
fn grant_then_revoke_restores_the_grants() {
    let mut router: Router<u64, &str> = Router::new();
    router.grant(1, "echo");
    assert!(router.grant(2, "wait"));
    assert!(router.revoke(&2));
    assert_eq!(router.grant_count(), 1);
    assert!(router.is_granted(&1));
    assert!(!router.is_granted(&2));
}

#[test]
fn string_keys_route_like_integer_keys() {
    let mut router: Router<String, u8> = Router::new();
    assert!(router.grant("sys".to_string(), 3));
    assert!(router.is_granted(&"sys".to_string()));
    let mut context = ContextState::new();
    let (handler, _) = router.dispatch(&mut context, &"sys".to_string()).unwrap();
    assert_eq!(*handler, 3);
}

#[test]
fn grant_count_follows_successful_grants_and_revocations() {
    let mut router: Router<u64, &str> = Router::new();
    assert!(router.grant(1, "a"));
    assert_eq!(router.grant_count(), 1);
    assert!(!router.grant(1, "b"));
    assert_eq!(router.grant_count(), 1);
    assert!(router.grant(2, "c"));
    assert_eq!(router.grant_count(), 2);
    assert!(router.revoke(&1));
    assert_eq!(router.grant_count(), 1);
    assert!(!router.revoke(&1));
    assert_eq!(router.grant_count(), 1);
}

#[test]
fn grant_after_revoke_takes_the_new_handler() {
    let mut router: Router<u64, &str> = Router::new();
    router.grant(1, "first");
    router.revoke(&1);
    assert!(router.grant(1, "second"));
    let mut context = ContextState::new();
    let (handler, _) = router.dispatch(&mut context, &1).unwrap();
    assert_eq!(*handler, "second");
}
