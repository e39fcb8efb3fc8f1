//! Requests that mirror a rule-group change onto the Ruler's per-tenant rule
//! store, and the judgement of what the Ruler answered.
use vstd::prelude::*;
use crate::model::RuleGroup;

verus! {

#[derive(Clone, Copy, Debug, PartialEq, Eq, Structural)]
pub enum HttpMethod {
    Post,
    Delete,
}

/// One request to the Ruler: where it goes, the tenant-scoping header, and the
/// body, if any.
#[derive(Debug, PartialEq, Eq)]
pub struct RulerRequest {
    pub method: HttpMethod,
    pub url: String,
    pub header_name: String,
    pub header_value: String,
    pub body: Option<String>,
}

/// What came back from sending a request.
#[derive(Debug, PartialEq, Eq)]
pub enum RulerResponse {
    /// The request could not be sent or no response arrived.
    TransportFailed,
    /// A response arrived with `status`; `body` is `None` where it could not
    /// be read.
    Received { status: u16, body: Option<String> },
}

/// Why a change did not reach the Ruler.
#[derive(Clone, Copy, Debug, PartialEq, Eq, Structural)]
pub enum RulerError {
    /// The group could not be encoded; nothing was sent.
    EncodingFailure,
    /// The request or its response was lost in transport.
    TransportFailure,
    /// The Ruler answered with a status other than 202. This ends the work on
    /// the current event.
    UnexpectedStatus { status: u16 },
}

/// The header that scopes a request to a tenant.
pub open spec fn scope_header() -> Seq<char> {
    "X-Scope-OrgID"@
}

/// The rule store of `namespace` under the Ruler at `base`.
pub open spec fn rules_url(base: Seq<char>, namespace: Seq<char>) -> Seq<char> {
    base + "api/v1/rules/"@ + namespace
}

/// The group `group_name` in the rule store of `namespace`.
pub open spec fn group_url(base: Seq<char>, namespace: Seq<char>, group_name: Seq<char>) -> Seq<
    char,
> {
    rules_url(base, namespace) + "/"@ + group_name
}

/// The outcome that `response` stands for: only a readable answer with status
/// 202 is a success.
pub open spec fn response_outcome(response: RulerResponse) -> Result<(), RulerError> {
    match response {
        RulerResponse::TransportFailed => Err(RulerError::TransportFailure),
        RulerResponse::Received { status, body } => {
            if status != 202 {
                Err(RulerError::UnexpectedStatus { status })
            } else if body.is_none() {
                Err(RulerError::TransportFailure)
            } else {
                Ok(())
            }
        },
    }
}

fn rules_url_of(ruler_api_url: &String, namespace: &String) -> (r: String)
    ensures
        r@ == rules_url(ruler_api_url@, namespace@),
{
    ruler_api_url.clone().concat("api/v1/rules/").concat(namespace.as_str())
}

/// The request that creates or updates a group in the rule store of
/// `namespace` for `tenant_id`, with `encoded_group` as its body. Where the
/// group could not be encoded (`None`) nothing is to be sent.
pub fn update_ruler_rule(
    ruler_api_url: &String,
    tenant_id: &String,
    namespace: &String,
    encoded_group: Option<String>,
) -> (r: Result<RulerRequest, RulerError>)
    ensures
        match encoded_group {
            None => r == Err::<RulerRequest, RulerError>(RulerError::EncodingFailure),
            Some(body) => r matches Ok(req) && {
                &&& req.method == HttpMethod::Post
                &&& req.url@ == rules_url(ruler_api_url@, namespace@)
                &&& req.header_name@ == scope_header()
                &&& req.header_value@ == tenant_id@
                &&& req.body == Some(body)
            },
        },
{
    match encoded_group {
        Some(body) => Ok(
            RulerRequest {
                method: HttpMethod::Post,
                url: rules_url_of(ruler_api_url, namespace),
                header_name: String::from_str("X-Scope-OrgID"),
                header_value: tenant_id.clone(),
                body: Some(body),
            },
        ),
        None => Err(RulerError::EncodingFailure),
    }
}

/// The request that deletes `rule_group` from the rule store of `namespace`
/// for `tenant_id`.
pub fn remove_ruler_rule(
    ruler_api_url: &String,
    tenant_id: &String,
    namespace: &String,
    rule_group: &RuleGroup,
) -> (r: RulerRequest)
    ensures
        r.method == HttpMethod::Delete,
        r.url@ == group_url(ruler_api_url@, namespace@, rule_group.name@),
        r.header_name@ == scope_header(),
        r.header_value@ == tenant_id@,
        r.body.is_none(),
{
    let url = rules_url_of(ruler_api_url, namespace).concat("/").concat(rule_group.name.as_str());
    RulerRequest {
        method: HttpMethod::Delete,
        url,
        header_name: String::from_str("X-Scope-OrgID"),
        header_value: tenant_id.clone(),
        body: None,
    }
}

/// Judges the Ruler's answer to a create, update or delete: 202 is the only
/// success.
pub fn check_response_202(response: &RulerResponse) -> (r: Result<(), RulerError>)
    ensures
        r == response_outcome(*response),
{
    match response {
        RulerResponse::TransportFailed => Err(RulerError::TransportFailure),
        RulerResponse::Received { status, body } => {
            if *status != 202 {
                Err(RulerError::UnexpectedStatus { status: *status })
            } else if body.is_none() {
                Err(RulerError::TransportFailure)
            } else {
                Ok(())
            }
        },
    }
}

/// Whatever the Ruler answered, the change counts as made exactly when a
/// readable answer came with status 202; any other status is the fatal
/// unexpected-status outcome, never a success.
pub proof fn lemma_only_202_succeeds(response: RulerResponse)
    ensures
        match response {
            RulerResponse::TransportFailed => response_outcome(response) is Err,
            RulerResponse::Received { status, body } => {
                &&& response_outcome(response) is Ok <==> status == 202 && body.is_some()
                &&& status != 202 ==> response_outcome(response) == Err::<
                    (),
                    RulerError,
                >(RulerError::UnexpectedStatus { status })
            },
        },
{
}

} // verus!
