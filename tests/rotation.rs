use chefctl::symlink::plan_rotation;

fn s(v: &str) -> String {
    v.to_string()
}

#[test]
fn first_rotation_promotes_current_to_last() {
    let plan = plan_rotation(Some(s("A")), None, s("B"));
    assert_eq!(plan.promote_last, Some(s("A")));
    assert_eq!(plan.current_target, "B");
}

#[test]
fn rotation_skips_last_when_it_already_matches() {
    let plan = plan_rotation(Some(s("B")), Some(s("B")), s("C"));
    assert_eq!(plan.promote_last, None);
    assert_eq!(plan.current_target, "C");
}

#[test]
fn second_rotation_promotes_the_newer_run() {
    let plan = plan_rotation(Some(s("B")), Some(s("A")), s("C"));
    assert_eq!(plan.promote_last, Some(s("B")));
    assert_eq!(plan.current_target, "C");
}

#[test]
fn rotation_without_current_only_repoints_current() {
    let plan = plan_rotation(None, Some(s("A")), s("B"));
    assert_eq!(plan.promote_last, None);
    assert_eq!(plan.current_target, "B");
}
