use pgdog::parameters::{ParameterValue, Parameters};
use pgdog::sticky::{replica_index_from_hash, replica_index_from_key, Role, Sticky};

fn text(value: &str) -> ParameterValue {
    ParameterValue::String(value.to_string())
}

#[test]
fn test_sticky() {
    let params = Parameters::default();
    assert!(Sticky::from_params(&params).role.is_none());

    for (attr, role) in [
        ("primary", Some(Role::Primary)),
        ("replica", Some(Role::Replica)),
        ("random", None),
    ] {
        let mut params = Parameters::default();
        params.insert("pgdog.role", text(attr));
        let sticky = Sticky::from_params(&params);
        assert_eq!(sticky.role, role);
    }
}

fn sticky_with_key(key: &str) -> Sticky {
    let mut params = Parameters::default();
    params.insert("pgdog.replica_affinity_key", text(key));
    Sticky::from_params(&params)
}

#[test]
fn test_replica_affinity_key_is_stable() {
    // Same key always maps to the same replica index, across connections and
    // (since FNV is fixed-seed) across processes.
    assert_eq!(
        sticky_with_key("pod-a").replica_index,
        sticky_with_key("pod-a").replica_index
    );
    // Distinct keys map to distinct indices.
    assert_ne!(
        sticky_with_key("pod-a").replica_index,
        sticky_with_key("pod-b").replica_index
    );
}

#[test]
fn key_maps_to_its_fnv_hash() {
    for (key, hash) in [
        ("pod-a", 0xbc6dfe5b4a72b0eb),
        ("pod-b", 0xbc69fe5b4a6ec814),
        ("", 0xaf64724c8602eb6e),
        ("h\u{e9}", 0xb1003dc9579a96b0),
    ] {
        assert_eq!(replica_index_from_key(key), replica_index_from_hash(hash));
        assert_eq!(sticky_with_key(key).replica_index, hash as usize);
    }
}

#[test]
fn hash_is_cut_to_an_index() {
    assert_eq!(replica_index_from_hash(0), 0);
    assert_eq!(replica_index_from_hash(u64::MAX), usize::MAX);
}

#[test]
fn indices_are_drawn_without_a_key() {
    let drawn: Vec<Sticky> = (0..64).map(|_| Sticky::new()).collect();
    for sticky in &drawn {
        assert!(sticky.role.is_none());
        assert!(1 <= sticky.omni_index && sticky.omni_index < usize::MAX);
        assert!(1 <= sticky.replica_index && sticky.replica_index < usize::MAX);
    }
    assert!(drawn.iter().any(|s| s.omni_index != drawn[0].omni_index));
    assert!(drawn.iter().any(|s| s.replica_index != drawn[0].replica_index));
    assert!(drawn.iter().any(|s| s.replica_index != s.omni_index));
    assert!(Sticky::default().role.is_none());
}

#[test]
fn omni_index_is_drawn_even_with_a_key() {
    let drawn: Vec<Sticky> = (0..8).map(|_| sticky_with_key("pod-a")).collect();
    assert!(drawn.iter().any(|s| s.omni_index != drawn[0].omni_index));
}

#[test]
fn other_parameters_are_ignored() {
    let mut params = Parameters::default();
    params.insert("pgdog.role", text("replica"));
    params.insert("pgdog.replica_affinity_key", text("pod-a"));
    params.insert("application_name", text("primary"));
    params.insert("PGDOG.ROLE", text("primary"));
    let sticky = Sticky::from_params(&params);
    assert_eq!(sticky.role, Some(Role::Replica));
    assert_eq!(sticky.replica_index, sticky_with_key("pod-a").replica_index);
}

#[test]
fn lists_are_ignored() {
    let list = || ParameterValue::Tuple(vec!["primary".to_string()]);
    let mut params = Parameters::default();
    params.insert("pgdog.role", list());
    params.insert("pgdog.replica_affinity_key", list());
    assert_eq!(Sticky::role_from_params(&params), None);
    assert_eq!(Sticky::affinity_key(&params), None);
    let sticky = Sticky::from_params(&params);
    assert!(sticky.role.is_none());
    assert!(1 <= sticky.replica_index && sticky.replica_index < usize::MAX);
}

#[test]
fn roles_are_matched_exactly() {
    for attr in ["Primary", "primary ", "", "primaryreplica", "any"] {
        let mut params = Parameters::default();
        params.insert("pgdog.role", text(attr));
        assert_eq!(Sticky::role_from_params(&params), None);
    }
}

#[test]
fn settings_of_given_indices() {
    let mut params = Parameters::default();
    params.insert("pgdog.role", text("primary"));
    let sticky = Sticky::with_indices(&params, 7, 9);
    assert_eq!(sticky.replica_index, 7);
    assert_eq!(sticky.omni_index, 9);
    assert_eq!(sticky.role, Some(Role::Primary));
}

#[test]
fn fixed_settings() {
    let sticky = Sticky::new_test();
    assert_eq!(sticky.omni_index, 1);
    assert_eq!(sticky.replica_index, 1);
    assert_eq!(sticky.role, None);
}

#[test]
fn last_insert_of_a_parameter_holds() {
    let mut params = Parameters::default();
    assert!(params.get("a").is_none());
    params.insert("a", text("1"));
    params.insert("b", text("2"));
    params.insert("a", text("3"));
    assert_eq!(params.get("a").and_then(|value| value.as_str()), Some("3"));
    assert_eq!(params.get("b").and_then(|value| value.as_str()), Some("2"));
    assert!(params.get("c").is_none());
    params.insert("b", ParameterValue::Tuple(vec![]));
    assert_eq!(params.get("b").and_then(|value| value.as_str()), None);
}

#[test]
fn session_attrs_give_the_role() {
    for (attrs, role) in [
        ("primary", Some(Role::Primary)),
        ("replica", Some(Role::Replica)),
        ("any", None),
        ("read-write", None),
    ] {
        let mut params = Parameters::default();
        params.insert("target_session_attrs", text(attrs));
        assert_eq!(Sticky::from_params(&params).role, role);
    }
}

#[test]
fn role_parameter_comes_first() {
    for (value, role) in [
        (text("replica"), Some(Role::Replica)),
        (text("random"), None),
        (ParameterValue::Tuple(vec!["replica".to_string()]), None),
    ] {
        let mut params = Parameters::default();
        params.insert("target_session_attrs", text("primary"));
        params.insert("pgdog.role", value);
        assert_eq!(Sticky::from_params(&params).role, role);
    }
}

#[test]
fn value_names_a_role() {
    let list = ParameterValue::Tuple(vec!["primary".to_string()]);
    assert_eq!(Sticky::role_from_value(&text("primary")), Some(Role::Primary));
    assert_eq!(Sticky::role_from_value(&text("replica")), Some(Role::Replica));
    assert_eq!(Sticky::role_from_value(&text("Primary")), None);
    assert_eq!(Sticky::role_from_value(&list), None);
}
