use haproxy_api::yield_fixup::{
    finish_yield_install, plan_yield_registration, plan_yield_release, plan_yield_uninstall,
    YieldFixupError, YieldRegistration, YieldRegistry, YieldRelease,
};

#[test]
fn yield_replacement_is_shared_between_registrations() {
    assert_eq!(plan_yield_registration(None), Ok(YieldRegistration::Install));
    assert_eq!(plan_yield_registration(Some(1)), Ok(YieldRegistration::Share(2)));
    assert_eq!(plan_yield_release(Some(2)), YieldRelease::Decrement(1));
    assert_eq!(plan_yield_release(Some(1)), YieldRelease::Uninstall);
    assert_eq!(plan_yield_release(None), YieldRelease::Keep);
}

#[test]
fn yield_user_count_is_bounded() {
    assert_eq!(
        plan_yield_registration(Some(u64::MAX)),
        Err(YieldFixupError::UserCountExhausted)
    );
    assert_eq!(
        YieldFixupError::UserCountExhausted.message(),
        "async yield user count exhausted"
    );
    assert_eq!(plan_yield_release(Some(0)), YieldRelease::Uninstall);
}

#[test]
fn n_registrations_need_n_releases() {
    let mut active: Option<u64> = None;
    for _ in 0..5 {
        active = match plan_yield_registration(active).unwrap() {
            YieldRegistration::Install => Some(1),
            YieldRegistration::Share(count) => Some(count),
        };
    }
    assert_eq!(active, Some(5));
    let mut uninstalled = 0;
    for _ in 0..5 {
        active = match plan_yield_release(active) {
            YieldRelease::Decrement(count) => Some(count),
            YieldRelease::Uninstall => {
                uninstalled += 1;
                None
            }
            YieldRelease::Keep => active,
        };
    }
    assert_eq!(active, None);
    assert_eq!(uninstalled, 1);
}

#[test]
fn install_records_one_user_or_nothing() {
    assert_eq!(
        finish_yield_install(true),
        YieldRegistry { users: Some(1), wrapper_saved: true, original_saved: true }
    );
    assert_eq!(
        finish_yield_install(false),
        YieldRegistry { users: None, wrapper_saved: false, original_saved: false }
    );
}

#[test]
fn uninstall_leaves_a_foreign_yield_alone() {
    let empty = YieldRegistry { users: None, wrapper_saved: false, original_saved: false };
    let ours = plan_yield_uninstall(true);
    assert!(ours.restore_original);
    assert_eq!(ours.registry, empty);
    let foreign = plan_yield_uninstall(false);
    assert!(!foreign.restore_original);
    assert_eq!(foreign.registry, empty);
}
