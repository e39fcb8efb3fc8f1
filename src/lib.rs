//! Reconciliation of tenant rule groups between a Ruler service and the
//! cluster resources that declare them.
//!
//! Everything here is pure: the caller performs the HTTP and cluster calls
//! and hands the outcomes back as plain values.
pub mod model;
pub mod ruler;
pub mod reconcile;
pub mod status;

pub use model::{ResourceStatus, RuleGroup, TenantRuleResource};
pub use reconcile::{create_or_update_k8s_resource, find_group_named, sanitize_group_name};
pub use ruler::{
    check_response_202, remove_ruler_rule, update_ruler_rule, HttpMethod, RulerError,
    RulerRequest, RulerResponse,
};
pub use status::{resource_updated, ApplyPatch};
