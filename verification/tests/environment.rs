use codex_sandbox_server::environment::apply_overrides;

fn pairs(list: &[(&str, &str)]) -> Vec<(String, String)> {
    list.iter().map(|(name, value)| (name.to_string(), value.to_string())).collect()
}

fn sorted(mut list: Vec<(String, String)>) -> Vec<(String, String)> {
    list.sort();
    list
}

#[test]
fn overrides_set_and_remove_variables() {
    let env = pairs(&[("HOME", "/root"), ("REMOVE_ME", "1"), ("BUILD_MODE", "debug")]);
    let overrides = vec![
        ("BUILD_MODE".to_string(), Some("release".to_string())),
        ("REMOVE_ME".to_string(), None),
        ("ABSENT".to_string(), None),
        ("NEW".to_string(), Some(String::new())),
    ];
    assert_eq!(
        sorted(apply_overrides(env, Some(overrides))),
        pairs(&[("BUILD_MODE", "release"), ("HOME", "/root"), ("NEW", "")])
    );
}

#[test]
fn without_overrides_the_environment_stays() {
    let env = pairs(&[("A", "1"), ("B", "2")]);
    assert_eq!(sorted(apply_overrides(env.clone(), None)), env);
    assert_eq!(sorted(apply_overrides(env.clone(), Some(Vec::new()))), env);
    assert!(apply_overrides(Vec::new(), None).is_empty());
}

#[test]
fn later_values_win() {
    let env = pairs(&[("A", "1"), ("A", "2")]);
    assert_eq!(apply_overrides(env.clone(), None), pairs(&[("A", "2")]));
    let overrides = vec![
        ("A".to_string(), Some("3".to_string())),
        ("A".to_string(), None),
    ];
    assert!(apply_overrides(env, Some(overrides)).is_empty());
}
