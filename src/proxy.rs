use vstd::prelude::*;
use vstd::string::*;

use crate::manager::{decimal, port_text};

verus! {

/// What serde_json writes for a JSON string holding `s`: quoted, with escapes.
pub uninterp spec fn json_string_text(s: Seq<char>) -> Seq<char>;

/// Relies on serde_json: `Value::String(s)` printed as JSON text.
#[verifier::external_body]
fn quote_json(s: &str) -> (r: String)
    ensures
        r@ == json_string_text(s@),
{
    serde_json::Value::from(s).to_string()
}

/// Address of a service bound to `port` on this host.
pub open spec fn base_url_for(port: u16) -> Seq<char> {
    "http://localhost:"@ + decimal(port as nat)
}

/// `{base}/chains/{chain}`, or `{base}/chains/{chain}/applications/{app}`.
pub open spec fn chain_target(base: Seq<char>, chain_id: Seq<char>, app_id: Option<Seq<char>>) -> Seq<
    char,
> {
    match app_id {
        Some(a) => base + "/chains/"@ + chain_id + "/applications/"@ + a,
        None => base + "/chains/"@ + chain_id,
    }
}

/// `{"query":<query>}`, or `{"query":<query>,"variables":<variables>}`, where the query
/// is written as a JSON string and the variables are JSON text already.
pub open spec fn body_text(query: Seq<char>, variables: Option<Seq<char>>) -> Seq<char> {
    match variables {
        Some(v) => "{\"query\":"@ + json_string_text(query) + ",\"variables\":"@ + v + "}"@,
        None => "{\"query\":"@ + json_string_text(query) + "}"@,
    }
}

pub open spec fn is_success_status(status: u16) -> bool {
    200 <= status <= 299
}

pub open spec fn opt_view(o: Option<&str>) -> Option<Seq<char>> {
    match o {
        Some(s) => Some(s@),
        None => None,
    }
}

/// Forwarding target of the running service; it holds only the derived address.
#[derive(Debug, Clone)]
pub struct GraphQLProxy {
    base_url: String,
}

impl GraphQLProxy {
    pub closed spec fn base(&self) -> Seq<char> {
        self.base_url@
    }

    pub fn new(port: u16) -> (r: Self)
        ensures
            r.base() == base_url_for(port),
    {
        let mut base_url = String::from_str("http://localhost:");
        let p = port_text(port);
        base_url.append(p.as_str());
        GraphQLProxy { base_url }
    }

    pub fn base_url(&self) -> (r: &str)
        ensures
            r@ == self.base(),
    {
        self.base_url.as_str()
    }

    /// Where a chain (or application) query is posted.
    pub fn query_url(&self, chain_id: &str, app_id: Option<&str>) -> (r: String)
        ensures
            r@ == chain_target(self.base(), chain_id@, opt_view(app_id)),
    {
        let mut url = self.base_url.clone();
        url.append("/chains/");
        url.append(chain_id);
        match app_id {
            Some(app) => {
                url.append("/applications/");
                url.append(app);
            },
            None => {},
        }
        url
    }

    /// Where a system query is posted, and the health probe sent.
    pub fn system_url(&self) -> (r: String)
        ensures
            r@ == self.base() + "/"@,
    {
        let mut url = self.base_url.clone();
        url.append("/");
        url
    }
}

/// The JSON body of a forwarded query.
pub fn request_body(query: &str, variables: Option<&str>) -> (r: String)
    ensures
        r@ == body_text(query@, opt_view(variables)),
{
    let mut body = String::from_str("{\"query\":");
    let q = quote_json(query);
    body.append(q.as_str());
    match variables {
        Some(v) => {
            body.append(",\"variables\":");
            body.append(v);
        },
        None => {},
    }
    body.append("}");
    body
}

/// Whether an HTTP status is a success (2xx).
pub fn is_success(status: u16) -> (r: bool)
    ensures
        r == is_success_status(status),
{
    200 <= status && status <= 299
}

/// Reachability from the probe's outcome: the response status, or `None` where the
/// request failed in transport.
pub fn health_check(response_status: Option<u16>) -> (r: bool)
    ensures
        r == (response_status is Some && is_success_status(response_status->0)),
{
    match response_status {
        Some(s) => is_success(s),
        None => false,
    }
}

} // verus!
