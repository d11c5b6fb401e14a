use vstd::prelude::*;
use crate::node::K8sNode;

verus! {

#[verifier::external_type_specification]
#[verifier::external_body]
pub struct ExUrl(reqwest::Url);

/// Whether the URL parser accepts a text.
pub uninterp spec fn url_accepts(s: Seq<char>) -> bool;

/// Relies on `url::Url::parse` (re-exported as `reqwest::Url`): whether it
/// accepts a text depends on the text alone.
#[verifier::external_body]
fn parse_url(s: &str) -> (r: Option<reqwest::Url>)
    ensures
        r.is_some() == url_accepts(s@),
{
    reqwest::Url::parse(s).ok()
}

impl K8sNode {
    /// The REST endpoint as a parsed URL, or `None` where the parser
    /// rejects its text.
    pub fn rest_api_url(&self) -> (r: Option<reqwest::Url>)
        ensures
            r.is_some() == url_accepts(self.rest_endpoint_spec()),
    {
        let text = self.rest_api_endpoint();
        parse_url(text.as_str())
    }

    /// The inspection endpoint as a parsed URL, or `None` where the parser
    /// rejects its text.
    pub fn inspection_service_url(&self) -> (r: Option<reqwest::Url>)
        ensures
            r.is_some() == url_accepts(self.inspection_endpoint_spec()),
    {
        let text = self.inspection_service_endpoint();
        parse_url(text.as_str())
    }
}

} // verus!
