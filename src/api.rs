//! The authenticated client: base URL, access token, and the requests that
//! are not scoped to one diagram.

use vstd::prelude::*;
use vstd::string::*;

use crate::diagram::{CoggleApiDiagram, DiagramResource};
use crate::error::CoggleError;
use crate::request::{ApiRequest, Method, RequestBody};
use crate::text::{percent_encode, percent_encoded, prefix_query, prefixed_query};
use vstd::utf8::encode_utf8;

verus! {

/// The service that a client talks to when no other base URL is given.
pub const DEFAULT_BASE_URL: &'static str = "https://coggle.it";

/// The shape that an organization name must have.
pub const ORG_NAME_PATTERN: &'static str = "^[a-z]+[a-z0-9-]{2,}$";

/// Whether the regex engine accepts `pattern` as a regular expression.
pub uninterp spec fn regex_compiles(pattern: Seq<char>) -> bool;

/// Whether the compiled `pattern` matches somewhere in `haystack`.
pub uninterp spec fn regex_finds(pattern: Seq<char>, haystack: Seq<char>) -> bool;

/// Relies on `regex::Regex::new`, which fails exactly on the patterns that it
/// cannot compile, and on `regex::Regex::is_match`, which tells whether the
/// compiled pattern matches anywhere in `haystack`.
#[verifier::external_body]
fn regex_is_match(pattern: &str, haystack: &str) -> (r: Option<bool>)
    ensures
        r is Some <==> regex_compiles(pattern@),
        r matches Some(b) ==> b == regex_finds(pattern@, haystack@),
{
    match regex::Regex::new(pattern) {
        Ok(re) => Some(re.is_match(haystack)),
        Err(_) => None,
    }
}

/// `org` is a valid organization name: it matches `ORG_NAME_PATTERN`.
pub open spec fn org_name_accepted(org: Seq<char>) -> bool {
    regex_compiles(ORG_NAME_PATTERN@) && regex_finds(ORG_NAME_PATTERN@, org)
}

/// The verdict on an organization name, given what matching it against
/// `ORG_NAME_PATTERN` gave: `None` when the pattern did not compile, else
/// whether it matched. Only a match accepts the name.
pub fn organization_verdict(matched: Option<bool>) -> (r: Result<(), CoggleError>)
    ensures
        r is Ok <==> matched == Some(true),
        r is Err ==> r == Err::<(), CoggleError>(CoggleError::InvalidOrganizationName),
{
    match matched {
        Some(true) => Ok(()),
        _ => Err(CoggleError::InvalidOrganizationName),
    }
}

/// Checks an organization name against `ORG_NAME_PATTERN`.
pub fn validate_organization(org: &str) -> (r: Result<(), CoggleError>)
    ensures
        r is Ok <==> org_name_accepted(org@),
        r is Err ==> r == Err::<(), CoggleError>(CoggleError::InvalidOrganizationName),
{
    organization_verdict(regex_is_match(ORG_NAME_PATTERN, org))
}

/// The endpoint that lists diagrams: the caller's own, or an organization's.
pub open spec fn diagrams_endpoint(organization: Option<Seq<char>>) -> Seq<char> {
    match organization {
        Some(org) => "/api/1/organisations/"@ + org + "/diagrams"@,
        None => "/api/1/diagrams"@,
    }
}

/// How a client is configured.
pub struct ApiOptions {
    pub base_url: Option<String>,
    pub token: String,
}

/// An authenticated client of the service.
#[derive(Debug)]
pub struct CoggleApi {
    pub base_url: String,
    pub token: String,
}

impl Clone for CoggleApi {
    fn clone(&self) -> (r: Self)
        ensures
            r == *self,
    {
        CoggleApi { base_url: self.base_url.clone(), token: self.token.clone() }
    }
}

impl CoggleApi {
    /// A client for `options.base_url`, or for `DEFAULT_BASE_URL` when none is
    /// given, authenticated by `options.token`, which must not be empty.
    pub fn new(options: &ApiOptions) -> (r: Self)
        requires
            options.token@.len() > 0,
        ensures
            r.base_url@ == (match options.base_url {
                Some(u) => u@,
                None => DEFAULT_BASE_URL@,
            }),
            r.token@ == options.token@,
    {
        let base_url = match &options.base_url {
            Some(u) => u.clone(),
            None => DEFAULT_BASE_URL.to_owned(),
        };
        CoggleApi { base_url, token: options.token.clone() }
    }

    /// The access token as it stands in a URL: percent-encoded.
    pub open spec fn encoded_token(&self) -> Seq<char> {
        percent_encoded(encode_utf8(self.token@))
    }

    /// The URL of `endpoint`: the base URL, the endpoint, the encoded access
    /// token, then the query fragment.
    pub open spec fn url_spec(&self, endpoint: Seq<char>, query: Seq<char>) -> Seq<char> {
        self.base_url@ + endpoint + "?access_token="@ + self.encoded_token() + prefixed_query(query)
    }

    /// `r` is a request `method endpoint?query` of this client.
    pub open spec fn issues(&self, r: ApiRequest, method: Method, endpoint: Seq<char>, query: Seq<char>) -> bool {
        &&& r.method == method
        &&& r.url@ == self.url_spec(endpoint, query)
    }

    /// The URL of `endpoint` with the access token and `query_string`.
    pub fn url(&self, endpoint: &str, query_string: &str) -> (r: String)
        ensures
            r@ == self.url_spec(endpoint@, query_string@),
    {
        let mut r = self.base_url.clone();
        r.append(endpoint);
        r.append("?access_token=");
        let token = percent_encode(self.token.as_str());
        r.append(token.as_str());
        let q = prefix_query(query_string);
        r.append(q.as_str());
        r
    }

    /// A GET of `endpoint`.
    pub fn get(&self, endpoint: &str, query_string: &str) -> (r: ApiRequest)
        ensures
            self.issues(r, Method::Get, endpoint@, query_string@),
            r.body == RequestBody::NoBody,
    {
        ApiRequest { method: Method::Get, url: self.url(endpoint, query_string), body: RequestBody::NoBody }
    }

    /// A POST of `body` to `endpoint`.
    pub fn post(&self, endpoint: &str, query_string: &str, body: RequestBody) -> (r: ApiRequest)
        ensures
            self.issues(r, Method::Post, endpoint@, query_string@),
            r.body == body,
    {
        ApiRequest { method: Method::Post, url: self.url(endpoint, query_string), body }
    }

    /// A PUT of `body` to `endpoint`.
    pub fn put(&self, endpoint: &str, query_string: &str, body: RequestBody) -> (r: ApiRequest)
        ensures
            self.issues(r, Method::Put, endpoint@, query_string@),
            r.body == body,
    {
        ApiRequest { method: Method::Put, url: self.url(endpoint, query_string), body }
    }

    /// A DELETE of `endpoint`.
    pub fn delete(&self, endpoint: &str, query_string: &str) -> (r: ApiRequest)
        ensures
            self.issues(r, Method::Delete, endpoint@, query_string@),
            r.body == RequestBody::NoBody,
    {
        ApiRequest { method: Method::Delete, url: self.url(endpoint, query_string), body: RequestBody::NoBody }
    }

    /// The request that lists the caller's diagrams, or those of
    /// `organization`; an error, and no request, when the organization name
    /// is not valid.
    pub fn list_diagrams(&self, organization: Option<&str>) -> (r: Result<ApiRequest, CoggleError>)
        ensures
            r is Err <==> (organization matches Some(org) && !org_name_accepted(org@)),
            r is Err ==> r->Err_0 == CoggleError::InvalidOrganizationName,
            r is Ok ==> {
                &&& self.issues(
                    r->Ok_0,
                    Method::Get,
                    diagrams_endpoint(
                        match organization {
                            Some(org) => Some(org@),
                            None => None,
                        },
                    ),
                    ""@,
                )
                &&& r->Ok_0.body == RequestBody::NoBody
            },
    {
        match organization {
            Some(org) => {
                if validate_organization(org).is_err() {
                    return Err(CoggleError::InvalidOrganizationName);
                }
                let mut endpoint = "/api/1/organisations/".to_owned();
                endpoint.append(org);
                endpoint.append("/diagrams");
                Ok(self.get(endpoint.as_str(), ""))
            },
            None => Ok(self.get("/api/1/diagrams", "")),
        }
    }

    /// The diagrams that the service listed, one handle for each resource, in
    /// order.
    pub fn diagrams_from(&self, diagram_resources: &Vec<DiagramResource>) -> (r: Vec<CoggleApiDiagram>)
        ensures
            r.len() == diagram_resources.len(),
            forall|i: int|
                0 <= i < r.len() ==> {
                    &&& (#[trigger] r[i]).api_client == *self
                    &&& r[i].id == diagram_resources[i].id
                    &&& r[i].title == diagram_resources[i].title
                },
    {
        let mut r: Vec<CoggleApiDiagram> = Vec::new();
        let mut i: usize = 0;
        while i < diagram_resources.len()
            invariant
                i <= diagram_resources.len(),
                r.len() == i,
                forall|j: int|
                    0 <= j < i ==> {
                        &&& (#[trigger] r[j]).api_client == *self
                        &&& r[j].id == diagram_resources[j].id
                        &&& r[j].title == diagram_resources[j].title
                    },
            decreases diagram_resources.len() - i,
        {
            r.push(CoggleApiDiagram::new(self, &diagram_resources[i]));
            i += 1;
        }
        r
    }

    /// The request that creates a diagram titled `title`.
    pub fn create_diagram(&self, title: &str) -> (r: ApiRequest)
        ensures
            self.issues(r, Method::Post, "/api/1/diagrams"@, ""@),
            r.body matches RequestBody::NewDiagram { title: t } && t@ == title@,
    {
        self.post("/api/1/diagrams", "", RequestBody::NewDiagram { title: title.to_owned() })
    }
}

/// The leading `&` of a query fragment is optional: for a non-empty fragment
/// `q` that does not start with `&`, the fragments `q` and `&q` give the same
/// URL, for every client and endpoint.
pub proof fn ampersand_prefix_is_optional(api: CoggleApi, endpoint: Seq<char>, query: Seq<char>)
    requires
        query.len() > 0,
        query[0] != '&',
    ensures
        api.url_spec(endpoint, seq!['&'] + query) == api.url_spec(endpoint, query),
{
    assert((seq!['&'] + query)[0] == '&');
}

} // verus!
