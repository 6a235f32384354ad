use wshowkeys::root_utils::{
    drop_root_plan, drop_root_to_plan, get_sudo_gid, get_sudo_uid, is_sudo_root, CredStep,
};

#[test]
fn sudo_ids_are_read() {
    assert_eq!(get_sudo_uid(Some("1000")), Ok(1000));
    assert_eq!(get_sudo_gid(Some("100")), Ok(100));
    assert_eq!(get_sudo_uid(None), Err(()));
    assert_eq!(get_sudo_gid(None), Err(()));
}

#[test]
fn sudo_root_needs_root_and_sudo() {
    assert!(is_sudo_root(0, Some("1000")));
    assert!(!is_sudo_root(0, None));
    assert!(!is_sudo_root(1000, Some("1000")));
    assert!(!is_sudo_root(1000, Some("not a number")));
}

#[test]
fn non_root_drops_nothing() {
    assert!(drop_root_plan(1000, 1000, Some("5"), Some("5")).is_empty());
}

#[test]
fn root_under_sudo_drops_to_sudo_ids() {
    assert_eq!(
        drop_root_plan(0, 0, Some("100"), Some("1000")),
        vec![CredStep::SetGid(100), CredStep::SetUid(1000)]
    );
}

#[test]
fn setuid_root_with_other_group_first_leaves_that_group() {
    assert_eq!(
        drop_root_plan(0, 50, None, None),
        vec![CredStep::SetGid(50), CredStep::SetUid(0), CredStep::TryRegainRoot]
    );
    assert_eq!(
        drop_root_plan(0, 50, Some("100"), Some("1000")),
        vec![
            CredStep::SetGid(50),
            CredStep::SetUid(0),
            CredStep::TryRegainRoot,
            CredStep::SetGid(100),
            CredStep::SetUid(1000)
        ]
    );
}

#[test]
fn plan_ends_with_sudo_user() {
    let plan = drop_root_plan(0, 7, Some("1"), Some("1234"));
    assert_eq!(plan.last(), Some(&CredStep::SetUid(1234)));
}

#[test]
fn drop_to_chosen_user() {
    assert_eq!(drop_root_to_plan(0, 1000), Some(1000));
    assert_eq!(drop_root_to_plan(1000, 0), None);
}
