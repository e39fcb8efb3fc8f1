//! The data that reconciliation reads and writes: rule groups and the
//! per-tenant resources that hold them.
use vstd::prelude::*;

verus! {

/// A named group of rules. Only the name is inspected; the rules are carried
/// through as their encoded text.
#[derive(Debug, PartialEq, Eq)]
pub struct RuleGroup {
    pub name: String,
    pub rules: String,
}

/// A rule group as the contracts see it.
pub struct RuleGroupView {
    pub name: Seq<char>,
    pub rules: Seq<char>,
}

impl View for RuleGroup {
    type V = RuleGroupView;

    open spec fn view(&self) -> RuleGroupView {
        RuleGroupView { name: self.name@, rules: self.rules@ }
    }
}

impl Clone for RuleGroup {
    fn clone(&self) -> (r: Self)
        ensures
            r@ == self@,
    {
        RuleGroup { name: self.name.clone(), rules: self.rules.clone() }
    }
}

/// The propagation flag of a resource.
#[derive(Clone, Copy, Debug, PartialEq, Eq, Structural)]
pub struct ResourceStatus {
    pub ruler_updated: bool,
}

/// A resource that declares which rule groups apply to which tenants of a
/// namespace.
#[derive(Debug, PartialEq, Eq)]
pub struct TenantRuleResource {
    /// Absent until the resource is first stored.
    pub name: Option<String>,
    pub tenants: Vec<String>,
    pub description: Option<String>,
    pub groups: Vec<RuleGroup>,
    pub status: Option<ResourceStatus>,
}

/// A resource as the contracts see it.
pub struct ResourceView {
    pub name: Option<Seq<char>>,
    pub tenants: Seq<Seq<char>>,
    pub description: Option<Seq<char>>,
    pub groups: Seq<RuleGroupView>,
    /// `Some(b)` where the resource carries a status whose flag is `b`.
    pub status: Option<bool>,
}

pub open spec fn opt_str_view(s: Option<String>) -> Option<Seq<char>> {
    match s {
        Some(v) => Some(v@),
        None => None,
    }
}

pub open spec fn strings_view(v: Seq<String>) -> Seq<Seq<char>> {
    v.map_values(|s: String| s@)
}

pub open spec fn groups_view(v: Seq<RuleGroup>) -> Seq<RuleGroupView> {
    v.map_values(|g: RuleGroup| g@)
}

impl View for TenantRuleResource {
    type V = ResourceView;

    open spec fn view(&self) -> ResourceView {
        ResourceView {
            name: opt_str_view(self.name),
            tenants: strings_view(self.tenants@),
            description: opt_str_view(self.description),
            groups: groups_view(self.groups@),
            status: match self.status {
                Some(st) => Some(st.ruler_updated),
                None => None,
            },
        }
    }
}

/// A copy of an optional string.
pub fn clone_opt_string(s: &Option<String>) -> (r: Option<String>)
    ensures
        opt_str_view(r) == opt_str_view(*s),
{
    match s {
        Some(v) => Some(v.clone()),
        None => None,
    }
}

/// A copy of a list of strings, element by element.
pub fn clone_strings(v: &Vec<String>) -> (r: Vec<String>)
    ensures
        strings_view(r@) == strings_view(v@),
{
    let mut r: Vec<String> = Vec::new();
    let mut i: usize = 0;
    while i < v.len()
        invariant
            i <= v@.len(),
            r@.len() == i,
            forall|j: int| 0 <= j < i ==> (#[trigger] r@[j])@ == v@[j]@,
        decreases v@.len() - i,
    {
        r.push(v[i].clone());
        i = i + 1;
    }
    assert(strings_view(r@) =~= strings_view(v@));
    r
}

/// A copy of a list of groups, element by element.
pub fn clone_groups(v: &Vec<RuleGroup>) -> (r: Vec<RuleGroup>)
    ensures
        groups_view(r@) == groups_view(v@),
{
    let mut r: Vec<RuleGroup> = Vec::new();
    let mut i: usize = 0;
    while i < v.len()
        invariant
            i <= v@.len(),
            r@.len() == i,
            forall|j: int| 0 <= j < i ==> (#[trigger] r@[j])@ == v@[j]@,
        decreases v@.len() - i,
    {
        r.push(v[i].clone());
        i = i + 1;
    }
    assert(groups_view(r@) =~= groups_view(v@));
    r
}

impl Clone for TenantRuleResource {
    fn clone(&self) -> (r: Self)
        ensures
            r@ == self@,
    {
        TenantRuleResource {
            name: clone_opt_string(&self.name),
            tenants: clone_strings(&self.tenants),
            description: clone_opt_string(&self.description),
            groups: clone_groups(&self.groups),
            status: self.status,
        }
    }
}

} // verus!
