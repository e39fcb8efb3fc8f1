//! Stamping a resource as propagated and describing the forced whole-object
//! apply that stores it.
use vstd::prelude::*;
use crate::model::{ResourceStatus, ResourceView, TenantRuleResource};

verus! {

/// A forced server-side apply of `resource` under `resource_name`, owned by
/// `field_manager`.
#[derive(Debug, PartialEq, Eq)]
pub struct ApplyPatch {
    pub resource_name: String,
    pub field_manager: String,
    pub force: bool,
    pub resource: TenantRuleResource,
}

pub struct ApplyPatchView {
    pub resource_name: Seq<char>,
    pub field_manager: Seq<char>,
    pub force: bool,
    pub resource: ResourceView,
}

impl View for ApplyPatch {
    type V = ApplyPatchView;

    open spec fn view(&self) -> ApplyPatchView {
        ApplyPatchView {
            resource_name: self.resource_name@,
            field_manager: self.field_manager@,
            force: self.force,
            resource: self.resource@,
        }
    }
}

/// The identity that owns the fields written by an apply.
pub open spec fn field_manager_name() -> Seq<char> {
    "openmetricsrule"@
}

/// `r` with its propagation flag set.
pub open spec fn stamped(r: ResourceView) -> ResourceView {
    ResourceView { status: Some(true), ..r }
}

/// The apply that stores `r`, stamped, under `name`.
pub open spec fn apply_patch_of(name: Seq<char>, r: ResourceView) -> ApplyPatchView {
    ApplyPatchView {
        resource_name: name,
        field_manager: field_manager_name(),
        force: true,
        resource: stamped(r),
    }
}

/// The cluster store after a forced whole-object apply: the submitted object
/// replaces whatever stood under its name.
pub open spec fn store_after(
    store: Map<Seq<char>, ResourceView>,
    p: ApplyPatchView,
) -> Map<Seq<char>, ResourceView> {
    store.insert(p.resource_name, p.resource)
}

/// Sets the propagation flag of `open_metrics_rule` and wraps it in the forced
/// apply that stores it under `resource_name`. The flag records that
/// propagation was attempted, not that the Ruler accepted it.
pub fn resource_updated(resource_name: &String, open_metrics_rule: TenantRuleResource) -> (p:
    ApplyPatch)
    ensures
        p@ == apply_patch_of(resource_name@, open_metrics_rule@),
{
    let mut resource = open_metrics_rule;
    resource.status = Some(ResourceStatus { ruler_updated: true });
    ApplyPatch {
        resource_name: resource_name.clone(),
        field_manager: String::from_str("openmetricsrule"),
        force: true,
        resource,
    }
}

/// Applying the same name and resource twice leaves the store as applying it
/// once does.
pub proof fn lemma_apply_idempotent(
    store: Map<Seq<char>, ResourceView>,
    name: Seq<char>,
    r: ResourceView,
)
    ensures
        store_after(store_after(store, apply_patch_of(name, r)), apply_patch_of(name, r))
            == store_after(store, apply_patch_of(name, r)),
{
    assert(store_after(store_after(store, apply_patch_of(name, r)), apply_patch_of(name, r))
        =~= store_after(store, apply_patch_of(name, r)));
}

/// Stamping an already stamped resource again yields the same apply.
pub proof fn lemma_restamp_same_patch(name: Seq<char>, r: ResourceView)
    ensures
        apply_patch_of(name, apply_patch_of(name, r).resource) == apply_patch_of(name, r),
{
}

/// After an apply, the stored resource under its name carries the flag.
pub proof fn lemma_stored_is_stamped(
    store: Map<Seq<char>, ResourceView>,
    name: Seq<char>,
    r: ResourceView,
)
    ensures
        store_after(store, apply_patch_of(name, r)).contains_key(name),
        store_after(store, apply_patch_of(name, r))[name].status == Some(true),
        store_after(store, apply_patch_of(name, r))[name] == stamped(r),
{
}

} // verus!
