//! Choosing the resource that a rule-group change lands in, merging the group
//! into it, or synthesising a fresh resource when none holds it.
use vstd::prelude::*;
use crate::model::{
    clone_groups, clone_opt_string, clone_strings, groups_view, strings_view, ResourceView,
    RuleGroup, RuleGroupView, TenantRuleResource,
};
use crate::status::{apply_patch_of, resource_updated, ApplyPatch};

verus! {

/// `s` with every underscore turned into a hyphen.
pub open spec fn sanitized(s: Seq<char>) -> Seq<char> {
    s.map_values(|c: char| if c == '_' { '-' } else { c })
}

/// The name given to a resource synthesised for a group named `group_name`.
pub open spec fn new_resource_name(group_name: Seq<char>) -> Seq<char> {
    "om-mt-k-ruler-src-"@ + sanitized(group_name)
}

/// The description of a synthesised resource.
pub open spec fn default_description() -> Seq<char> {
    "open-metrics-multi-tenancy-kit-sourced-rule"@
}

pub open spec fn has_group_named(gs: Seq<RuleGroupView>, name: Seq<char>) -> bool {
    exists|i: int| 0 <= i < gs.len() && #[trigger] gs[i].name == name
}

/// `i` is the position of the first group of `gs` named `name`.
pub open spec fn is_first_named(gs: Seq<RuleGroupView>, name: Seq<char>, i: int) -> bool {
    &&& 0 <= i < gs.len()
    &&& gs[i].name == name
    &&& forall|j: int| 0 <= j < i ==> #[trigger] gs[j].name != name
}

/// `r` belongs to `tenant` and holds a group named `name`.
pub open spec fn holds_match(r: ResourceView, tenant: Seq<char>, name: Seq<char>) -> bool {
    r.tenants.contains(tenant) && has_group_named(r.groups, name)
}

/// `k` is the first resource of `rs` that belongs to `tenant` and holds a
/// group named `name`.
pub open spec fn is_target(
    rs: Seq<ResourceView>,
    tenant: Seq<char>,
    name: Seq<char>,
    k: int,
) -> bool {
    &&& 0 <= k < rs.len()
    &&& holds_match(rs[k], tenant, name)
    &&& forall|j: int| 0 <= j < k ==> !holds_match(#[trigger] rs[j], tenant, name)
}

pub open spec fn has_target(rs: Seq<ResourceView>, tenant: Seq<char>, name: Seq<char>) -> bool {
    exists|k: int| is_target(rs, tenant, name, k)
}

/// `r` with `g` inserted at the position of its first group of the same name.
pub open spec fn merged(r: ResourceView, g: RuleGroupView) -> ResourceView {
    let i = choose|i: int| is_first_named(r.groups, g.name, i);
    ResourceView { groups: r.groups.insert(i, g), ..r }
}

/// The resource synthesised for `tenant` when no resource holds `g`.
pub open spec fn fresh_resource(tenant: Seq<char>, g: RuleGroupView) -> ResourceView {
    ResourceView {
        name: Some(new_resource_name(g.name)),
        tenants: seq![tenant],
        description: Some(default_description()),
        groups: seq![g],
        status: None,
    }
}

/// The name and the content that reconciling `g` for `tenant` against `rs`
/// stores.
pub open spec fn reconciled(rs: Seq<ResourceView>, tenant: Seq<char>, g: RuleGroupView) -> (
    Seq<char>,
    ResourceView,
) {
    if has_target(rs, tenant, g.name) {
        let k = choose|k: int| is_target(rs, tenant, g.name, k);
        (rs[k].name.unwrap(), merged(rs[k], g))
    } else {
        (new_resource_name(g.name), fresh_resource(tenant, g))
    }
}

pub open spec fn resources_view(rs: Seq<TenantRuleResource>) -> Seq<ResourceView> {
    rs.map_values(|r: TenantRuleResource| r@)
}

/// Every resource carries a name, as every resource read from the store does.
pub open spec fn all_named(rs: Seq<TenantRuleResource>) -> bool {
    forall|i: int| 0 <= i < rs.len() ==> (#[trigger] rs[i]).name.is_some()
}

/// Replaces every underscore of `name` by a hyphen.
pub fn sanitize_group_name(name: &String) -> (r: String)
    ensures
        r@ == sanitized(name@),
{
    let s = name.as_str();
    let n = s.unicode_len();
    let mut r = String::new();
    let mut i: usize = 0;
    while i < n
        invariant
            n == s@.len(),
            s@ == name@,
            i <= n,
            r@ == sanitized(s@.subrange(0, i as int)),
        decreases n - i,
    {
        let c = s.get_char(i);
        if c == '_' {
            r.append("-");
        } else {
            r.append(s.substring_char(i, i + 1));
        }
        proof {
            reveal_strlit("-");
            assert(sanitized(s@.subrange(0, i + 1)) =~= sanitized(s@.subrange(0, i as int))
                + sanitized(s@.subrange(i as int, i + 1)));
        }
        i = i + 1;
    }
    assert(s@.subrange(0, n as int) =~= s@);
    r
}

/// The position of the first group of `groups` named `name`, if any.
pub fn find_group_named(groups: &Vec<RuleGroup>, name: &String) -> (r: Option<usize>)
    ensures
        match r {
            Some(i) => is_first_named(groups_view(groups@), name@, i as int),
            None => !has_group_named(groups_view(groups@), name@),
        },
{
    let ghost gs = groups_view(groups@);
    let mut i: usize = 0;
    while i < groups.len()
        invariant
            i <= groups@.len(),
            gs == groups_view(groups@),
            forall|j: int| 0 <= j < i ==> #[trigger] gs[j].name != name@,
        decreases groups@.len() - i,
    {
        if groups[i].name == *name {
            return Some(i);
        }
        i = i + 1;
    }
    None
}

/// Whether `tenant` is among `tenants`.
pub fn contains_tenant(tenants: &Vec<String>, tenant: &String) -> (r: bool)
    ensures
        r == strings_view(tenants@).contains(tenant@),
{
    let ghost ts = strings_view(tenants@);
    let mut i: usize = 0;
    while i < tenants.len()
        invariant
            i <= tenants@.len(),
            ts == strings_view(tenants@),
            forall|j: int| 0 <= j < i ==> #[trigger] ts[j] != tenant@,
        decreases tenants@.len() - i,
    {
        if tenants[i] == *tenant {
            assert(ts[i as int] == tenant@);
            return true;
        }
        i = i + 1;
    }
    false
}

/// Reconciles one rule-group change for `tenant_id` against the resources of
/// its namespace, in the order given.
///
/// The first resource that belongs to the tenant and already holds a group of
/// the same name is the target: `rule_group` is inserted at the position of
/// that group and the resource keeps its name. The group it matched is not
/// replaced: it stays in the sequence, one place further on, so the name then
/// occurs twice. Where no resource qualifies, a
/// fresh resource named after the group is synthesised for the tenant alone.
/// Either way the result is stamped as propagated and returned as the forced
/// apply that stores it.
pub fn create_or_update_k8s_resource(
    resources: &Vec<TenantRuleResource>,
    tenant_id: &String,
    rule_group: &RuleGroup,
) -> (p: ApplyPatch)
    requires
        all_named(resources@),
    ensures
        p@ == apply_patch_of(
            reconciled(resources_view(resources@), tenant_id@, rule_group@).0,
            reconciled(resources_view(resources@), tenant_id@, rule_group@).1,
        ),
{
    let ghost rs = resources_view(resources@);
    let ghost t = tenant_id@;
    let ghost g = rule_group@;
    let mut k: usize = 0;
    while k < resources.len()
        invariant
            k <= resources@.len(),
            rs == resources_view(resources@),
            t == tenant_id@,
            g == rule_group@,
            all_named(resources@),
            forall|j: int| 0 <= j < k ==> !holds_match(#[trigger] rs[j], t, g.name),
        decreases resources@.len() - k,
    {
        let rule = &resources[k];
        assert(rs[k as int] == rule@);
        if contains_tenant(&rule.tenants, tenant_id) {
            match find_group_named(&rule.groups, &rule_group.name) {
                Some(idx) => {
                    let mut groups = clone_groups(&rule.groups);
                    groups.insert(idx, rule_group.clone());
                    let name = match &rule.name {
                        Some(n) => n.clone(),
                        None => {
                            proof {
                                assert(resources@[k as int].name.is_some());
                            }
                            String::new()
                        },
                    };
                    let target = TenantRuleResource {
                        name: clone_opt_string(&rule.name),
                        tenants: clone_strings(&rule.tenants),
                        description: clone_opt_string(&rule.description),
                        groups,
                        status: rule.status,
                    };
                    proof {
                        let r = rs[k as int];
                        assert(is_target(rs, t, g.name, k as int));
                        lemma_first_match_wins(rs, t, g, k as int);
                        lemma_merge_inserts_at_match(r, g, idx as int);
                        assert(groups_view(target.groups@) =~= r.groups.insert(idx as int, g));
                        assert(target@ =~= merged(r, g));
                    }
                    return resource_updated(&name, target);
                },
                None => {},
            }
        }
        k = k + 1;
    }
    let sanitized_name = sanitize_group_name(&rule_group.name);
    let name = String::from_str("om-mt-k-ruler-src-").concat(sanitized_name.as_str());
    let fresh = TenantRuleResource {
        name: Some(name.clone()),
        tenants: vec![tenant_id.clone()],
        description: Some(String::from_str("open-metrics-multi-tenancy-kit-sourced-rule")),
        groups: vec![rule_group.clone()],
        status: None,
    };
    proof {
        assert(!has_target(rs, t, g.name));
        assert(strings_view(fresh.tenants@) =~= seq![t]);
        assert(groups_view(fresh.groups@) =~= seq![g]);
        assert(fresh@ =~= fresh_resource(t, g));
    }
    resource_updated(&name, fresh)
}


/// The first resource that belongs to the tenant and holds a group of the
/// incoming name is the one updated, whatever follows it; later candidates are
/// ignored and no resource is synthesised.
pub proof fn lemma_first_match_wins(
    rs: Seq<ResourceView>,
    tenant: Seq<char>,
    g: RuleGroupView,
    k: int,
)
    requires
        is_target(rs, tenant, g.name, k),
    ensures
        has_target(rs, tenant, g.name),
        reconciled(rs, tenant, g).0 == rs[k].name.unwrap(),
        reconciled(rs, tenant, g).1 == merged(rs[k], g),
{
    assert forall|k2: int| is_target(rs, tenant, g.name, k2) implies k2 == k by {
        if k2 < k {
            assert(!holds_match(rs[k2], tenant, g.name));
        } else if k2 > k {
            assert(!holds_match(rs[k], tenant, g.name));
        }
    }
}

/// Where no resource of the tenant holds a group of the incoming name, the
/// stored resource is the synthesised one, named after the group with its
/// underscores turned into hyphens.
pub proof fn lemma_fresh_when_unmatched(rs: Seq<ResourceView>, tenant: Seq<char>, g: RuleGroupView)
    requires
        !has_target(rs, tenant, g.name),
    ensures
        reconciled(rs, tenant, g).0 == new_resource_name(g.name),
        reconciled(rs, tenant, g).1 == fresh_resource(tenant, g),
        reconciled(rs, tenant, g).1.name == Some(reconciled(rs, tenant, g).0),
        !sanitized(g.name).contains('_'),
{
}

/// Merging inserts the incoming group at the position of the first group of
/// the same name, so the sequence grows by one, and leaves the rest of the
/// resource, its name included, as it was. The old group of that name stays
/// in the sequence, right after the incoming one.
pub proof fn lemma_merge_inserts_at_match(r: ResourceView, g: RuleGroupView, i: int)
    requires
        is_first_named(r.groups, g.name, i),
    ensures
        merged(r, g).groups == r.groups.insert(i, g),
        merged(r, g).groups.len() == r.groups.len() + 1,
        merged(r, g).groups[i] == g,
        merged(r, g).groups[i + 1] == r.groups[i],
        merged(r, g).name == r.name,
        merged(r, g).tenants == r.tenants,
        merged(r, g).description == r.description,
        merged(r, g).status == r.status,
{
    assert forall|i2: int| is_first_named(r.groups, g.name, i2) implies i2 == i by {
        if i2 < i {
            assert(r.groups[i2].name != g.name);
        } else if i2 > i {
            assert(r.groups[i].name != g.name);
        }
    }
}

/// Whatever the resources and the incoming group, the resource that
/// reconciliation submits carries the propagation flag, under the name it
/// was given.
pub proof fn lemma_reconciled_is_stamped(rs: Seq<ResourceView>, tenant: Seq<char>, g: RuleGroupView)
    ensures
        ({
            let (name, r) = reconciled(rs, tenant, g);
            &&& apply_patch_of(name, r).resource.status == Some(true)
            &&& apply_patch_of(name, r).resource_name == name
            &&& apply_patch_of(name, r).force
        }),
{
}

} // verus!
