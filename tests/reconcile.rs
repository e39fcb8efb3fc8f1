use ruler_sync::{
    create_or_update_k8s_resource, find_group_named, resource_updated, sanitize_group_name,
    ResourceStatus, RuleGroup, TenantRuleResource,
};

fn group(name: &str, rules: &str) -> RuleGroup {
    RuleGroup { name: name.to_string(), rules: rules.to_string() }
}

fn resource(name: &str, tenants: &[&str], groups: Vec<RuleGroup>) -> TenantRuleResource {
    TenantRuleResource {
        name: Some(name.to_string()),
        tenants: tenants.iter().map(|t| t.to_string()).collect(),
        description: None,
        groups,
        status: None,
    }
}

#[test]
fn sanitize_turns_underscores_into_hyphens() {
    assert_eq!(sanitize_group_name(&String::from("a_b__c")), "a-b--c");
    assert_eq!(sanitize_group_name(&String::from("plain")), "plain");
    assert_eq!(sanitize_group_name(&String::new()), "");
}

#[test]
fn find_group_named_returns_first_position() {
    let gs = vec![group("a", "1"), group("b", "2"), group("b", "3")];
    assert_eq!(find_group_named(&gs, &String::from("b")), Some(1));
    assert_eq!(find_group_named(&gs, &String::from("z")), None);
    assert_eq!(find_group_named(&Vec::new(), &String::from("a")), None);
}

#[test]
fn unmatched_group_gets_a_fresh_resource() {
    let g = group("latency_p99", "- alert: slow\n");
    let p = create_or_update_k8s_resource(&Vec::new(), &String::from("team-a"), &g);
    assert_eq!(p.resource_name, "om-mt-k-ruler-src-latency-p99");
    assert_eq!(p.field_manager, "openmetricsrule");
    assert!(p.force);
    let expected = TenantRuleResource {
        name: Some(String::from("om-mt-k-ruler-src-latency-p99")),
        tenants: vec![String::from("team-a")],
        description: Some(String::from("open-metrics-multi-tenancy-kit-sourced-rule")),
        groups: vec![g.clone()],
        status: Some(ResourceStatus { ruler_updated: true }),
    };
    assert_eq!(p.resource, expected);
}

#[test]
fn fresh_name_for_cpu_alert() {
    let existing = vec![resource("other", &["team-z"], vec![group("cpu_alert", "x")])];
    let p = create_or_update_k8s_resource(
        &existing,
        &String::from("T"),
        &group("cpu_alert", "- alert: hot\n"),
    );
    assert_eq!(p.resource_name, "om-mt-k-ruler-src-cpu-alert");
    assert_eq!(p.resource.name, Some(String::from("om-mt-k-ruler-src-cpu-alert")));
    assert_eq!(p.resource.tenants, vec![String::from("T")]);
}

#[test]
fn existing_group_is_merged_at_its_position() {
    let old = group("latency_p99", "old");
    let new = group("latency_p99", "new");
    let r = resource("team-a-rules", &["team-a"], vec![old.clone()]);
    let p = create_or_update_k8s_resource(&vec![r], &String::from("team-a"), &new);
    assert_eq!(p.resource_name, "team-a-rules");
    assert_eq!(p.resource.name, Some(String::from("team-a-rules")));
    assert_eq!(p.resource.groups, vec![new, old]);
    assert_eq!(p.resource.tenants, vec![String::from("team-a")]);
    assert_eq!(p.resource.status, Some(ResourceStatus { ruler_updated: true }));
}

#[test]
fn search_moves_past_tenant_resource_without_the_group() {
    let r1 = resource("r1", &["T"], vec![group("a", "1")]);
    let r2 = resource("r2", &["T"], vec![group("x", "2")]);
    let incoming = group("x", "3");
    let p = create_or_update_k8s_resource(&vec![r1, r2], &String::from("T"), &incoming);
    assert_eq!(p.resource_name, "r2");
    assert_eq!(p.resource.groups, vec![incoming, group("x", "2")]);
}

#[test]
fn first_matching_resource_wins() {
    let r1 = resource("r1", &["U", "T"], vec![group("a", "1"), group("x", "2")]);
    let r2 = resource("r2", &["T"], vec![group("x", "3")]);
    let incoming = group("x", "4");
    let p = create_or_update_k8s_resource(&vec![r1, r2], &String::from("T"), &incoming);
    assert_eq!(p.resource_name, "r1");
    assert_eq!(p.resource.groups, vec![group("a", "1"), incoming, group("x", "2")]);
    assert_eq!(p.resource.tenants, vec![String::from("U"), String::from("T")]);
}

#[test]
fn other_tenant_resource_is_not_touched() {
    let r1 = resource("r1", &["U"], vec![group("x", "1")]);
    let p = create_or_update_k8s_resource(&vec![r1], &String::from("T"), &group("x", "2"));
    assert_eq!(p.resource_name, "om-mt-k-ruler-src-x");
    assert_eq!(p.resource.groups, vec![group("x", "2")]);
}

#[test]
fn stamping_sets_the_flag_whatever_it_was() {
    let mut r = resource("r", &["T"], vec![group("a", "1")]);
    r.status = Some(ResourceStatus { ruler_updated: false });
    let p = resource_updated(&String::from("r"), r);
    assert_eq!(p.resource.status, Some(ResourceStatus { ruler_updated: true }));
    assert_eq!(p.resource_name, "r");
    assert_eq!(p.resource.groups, vec![group("a", "1")]);
}

#[test]
fn applying_the_same_resource_twice_gives_the_same_patch() {
    let r = resource("r", &["T"], vec![group("a", "1")]);
    let once = resource_updated(&String::from("r"), r.clone());
    let twice = resource_updated(&String::from("r"), once.resource.clone());
    assert_eq!(once, twice);
}
