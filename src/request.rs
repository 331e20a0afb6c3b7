use vstd::prelude::*;
use crate::payload::opt_view;

verus! {

/// HTTP methods used by the reporting calls.
#[derive(Debug, Clone, Copy, PartialEq, Eq, Structural)]
pub enum Method {
    Post,
    Patch,
}

impl Method {
    pub open spec fn name(self) -> Seq<char> {
        match self {
            Method::Post => "POST"@,
            Method::Patch => "PATCH"@,
        }
    }

    pub fn as_str(&self) -> (r: &'static str)
        ensures
            r@ == self.name(),
    {
        match self {
            Method::Post => "POST",
            Method::Patch => "PATCH",
        }
    }
}

/// Credentials and team scoping supplied by the caller for one call.
#[derive(Debug, Clone)]
pub struct APIAuth {
    pub token: String,
    pub team_id: String,
    pub team_slug: Option<String>,
}

/// What a preflight probe reported: whether the Authorization header may be
/// sent, and the URL the real request must target.
#[derive(Debug, Clone)]
pub struct PreflightResponse {
    pub allow_authorization_header: bool,
    pub location: String,
}

/// The probe to send before the real request when preflight mode is on.
#[derive(Debug, Clone)]
pub struct PreflightProbe {
    pub url: String,
    pub method: Method,
    pub request_headers: String,
}

/// A fully assembled, not yet sent request. Headers and query parameters are
/// name/value pairs in the order they are attached.
#[derive(Debug, Clone)]
pub struct RequestSpec {
    pub method: Method,
    pub url: String,
    pub headers: Vec<(String, String)>,
    pub query: Vec<(String, String)>,
}

/// Failures of a reporting call.
#[derive(Debug, Clone)]
pub enum ApiError {
    /// The preflight probe failed or returned a non-success status.
    Preflight(String),
    /// The transport gave up without a response.
    Transport(String),
    /// The server answered with a non-2xx status.
    RemoteRejected { status: u16, body: String },
    /// A 2xx body did not have the expected shape.
    Deserialization(String),
}

/// Client configuration, fixed at construction.
#[derive(Debug, Clone)]
pub struct APIClient {
    pub base_url: String,
    pub use_preflight: bool,
}

/// The views of a sequence of string pairs.
pub open spec fn pairs_view(v: Seq<(String, String)>) -> Seq<(Seq<char>, Seq<char>)> {
    Seq::new(v.len(), |i: int| (v[i].0@, v[i].1@))
}

/// Team scoping query parameters: the team id when non-empty, then the slug
/// when present.
pub open spec fn team_query(team_id: Seq<char>, team_slug: Option<Seq<char>>) -> Seq<(Seq<char>, Seq<char>)> {
    let by_id = if team_id.len() > 0 {
        seq![("teamId"@, team_id)]
    } else {
        Seq::empty()
    };
    match team_slug {
        Some(s) => by_id.push(("slug"@, s)),
        None => by_id,
    }
}

/// Headers of the real request: the JSON content type always, the bearer
/// token when allowed, the CI vendor constant when one was detected.
pub open spec fn request_headers(allow_auth: bool, token: Seq<char>, ci: Option<Seq<char>>) -> Seq<(Seq<char>, Seq<char>)> {
    let base = seq![("Content-Type"@, "application/json"@)];
    let with_auth = if allow_auth {
        base.push(("Authorization"@, "Bearer "@ + token))
    } else {
        base
    };
    match ci {
        Some(c) => with_auth.push(("x-artifact-client-ci"@, c)),
        None => with_auth,
    }
}

/// The header names a probe declares for the real request.
pub open spec fn probe_header_names() -> Seq<char> {
    "Authorization, User-Agent"@
}

pub open spec fn runs_path(space_id: Seq<char>) -> Seq<char> {
    "/v0/spaces/"@ + space_id + "/runs"@
}

pub open spec fn run_path(space_id: Seq<char>, run_id: Seq<char>) -> Seq<char> {
    "/v0/spaces/"@ + space_id + "/runs/"@ + run_id
}

pub open spec fn tasks_path(space_id: Seq<char>, run_id: Seq<char>) -> Seq<char> {
    "/v0/spaces/"@ + space_id + "/runs/"@ + run_id + "/tasks"@
}

/// Path of the collection of runs of a space.
pub fn space_runs_path(space_id: &str) -> (r: String)
    ensures
        r@ == runs_path(space_id@),
{
    let mut p = String::from_str("/v0/spaces/");
    p.append(space_id);
    p.append("/runs");
    p
}

/// Path of one run of a space.
pub fn space_run_path(space_id: &str, run_id: &str) -> (r: String)
    ensures
        r@ == run_path(space_id@, run_id@),
{
    let mut p = String::from_str("/v0/spaces/");
    p.append(space_id);
    p.append("/runs/");
    p.append(run_id);
    p
}

/// Path of the task records of one run.
pub fn space_tasks_path(space_id: &str, run_id: &str) -> (r: String)
    ensures
        r@ == tasks_path(space_id@, run_id@),
{
    let mut p = String::from_str("/v0/spaces/");
    p.append(space_id);
    p.append("/runs/");
    p.append(run_id);
    p.append("/tasks");
    p
}

/// Appends the team scoping parameters to `query`.
pub fn add_team_params(query: &mut Vec<(String, String)>, team_id: &str, team_slug: Option<&str>)
    ensures
        pairs_view(final(query)@) == pairs_view(old(query)@) + team_query(
            team_id@,
            match team_slug {
                Some(s) => Some(s@),
                None => None,
            },
        ),
{
    let ghost start = pairs_view(query@);
    if team_id.unicode_len() > 0 {
        query.push((String::from_str("teamId"), String::from_str(team_id)));
    }
    let ghost mid = pairs_view(query@);
    assert(mid =~= start + (if team_id@.len() > 0 {
        seq![("teamId"@, team_id@)]
    } else {
        Seq::empty()
    }));
    match team_slug {
        Some(s) => {
            query.push((String::from_str("slug"), String::from_str(s)));
            assert(pairs_view(query@) =~= mid.push(("slug"@, s@)));
        },
        None => {},
    }
    assert(pairs_view(query@) =~= start + team_query(
        team_id@,
        match team_slug {
            Some(s) => Some(s@),
            None => None,
        },
    ));
}

/// The request that the assembler is owed: `method` against `url`, with the
/// headers of `request_headers` and the team scoping of `auth`.
pub open spec fn assembled(
    r: RequestSpec,
    method: Method,
    url: Seq<char>,
    allow_auth: bool,
    auth: APIAuth,
    ci: Option<Seq<char>>,
) -> bool {
    &&& r.method == method
    &&& r.url@ == url
    &&& pairs_view(r.headers@) == request_headers(allow_auth, auth.token@, ci)
    &&& pairs_view(r.query@) == team_query(auth.team_id@, opt_view(auth.team_slug))
}

/// The outcome of assembling a request for `path`, given the result of the
/// preflight probe (`None` when no probe was sent).
pub open spec fn assembly_outcome(
    client: APIClient,
    path: Seq<char>,
    auth: APIAuth,
    method: Method,
    preflight: Option<Result<PreflightResponse, String>>,
    ci: Option<Seq<char>>,
    r: Result<RequestSpec, ApiError>,
) -> bool {
    if !client.use_preflight {
        r matches Ok(req) && assembled(req, method, client.base_url@ + path, true, auth, ci)
    } else {
        match preflight {
            Some(Ok(v)) => r matches Ok(req) && assembled(
                req,
                method,
                v.location@,
                v.allow_authorization_header,
                auth,
                ci,
            ),
            Some(Err(e)) => r matches Err(ApiError::Preflight(m)) && m@ == e@,
            None => r matches Err(ApiError::Preflight(_)),
        }
    }
}

/// Whether a status code counts as success.
pub open spec fn is_success(status: u16) -> bool {
    200 <= status < 300
}

/// The classification of a completed exchange with status `status` and
/// body `body`.
pub open spec fn classified(status: u16, body: Seq<char>, r: Result<String, ApiError>) -> bool {
    if is_success(status) {
        r matches Ok(b) && b@ == body
    } else {
        r matches Err(ApiError::RemoteRejected { status: s, body: b }) && s == status && b@ == body
    }
}

impl APIClient {
    /// Resolves `path` against the base endpoint.
    pub fn make_url(&self, path: &str) -> (r: String)
        ensures
            r@ == self.base_url@ + path@,
    {
        let mut u = self.base_url.clone();
        u.append(path);
        u
    }

    /// The preflight probe owed before a request for `path` with `method`:
    /// one exactly when preflight mode is on.
    pub fn preflight_probe(&self, path: &str, method: Method) -> (r: Option<PreflightProbe>)
        ensures
            r.is_some() == self.use_preflight,
            r matches Some(p) ==> p.url@ == self.base_url@ + path@ && p.method == method
                && p.request_headers@ == probe_header_names(),
    {
        if self.use_preflight {
            Some(
                PreflightProbe {
                    url: self.make_url(path),
                    method,
                    request_headers: String::from_str("Authorization, User-Agent"),
                },
            )
        } else {
            None
        }
    }

    /// Assembles the real request for `path`. With preflight mode on,
    /// `preflight` holds the probe's result and decides the target URL and
    /// whether the token is sent; a failed or missing probe fails the
    /// assembly. `ci_constant` is the detected CI vendor's constant, if any.
    pub fn create_request_builder(
        &self,
        path: &str,
        api_auth: &APIAuth,
        method: Method,
        preflight: Option<Result<PreflightResponse, String>>,
        ci_constant: Option<&str>,
    ) -> (r: Result<RequestSpec, ApiError>)
        ensures
            assembly_outcome(
                *self,
                path@,
                *api_auth,
                method,
                preflight,
                match ci_constant {
                    Some(c) => Some(c@),
                    None => None,
                },
                r,
            ),
    {
        let (allow_auth, url) = if self.use_preflight {
            match preflight {
                Some(Ok(v)) => (v.allow_authorization_header, v.location),
                Some(Err(e)) => {
                    return Err(ApiError::Preflight(e));
                },
                None => {
                    return Err(ApiError::Preflight(String::from_str("preflight probe was not sent")));
                },
            }
        } else {
            (true, self.make_url(path))
        };
        let ghost ci = match ci_constant {
            Some(c) => Some(c@),
            None => None,
        };
        let mut headers: Vec<(String, String)> = Vec::new();
        headers.push((String::from_str("Content-Type"), String::from_str("application/json")));
        let ghost base = pairs_view(headers@);
        assert(base =~= seq![("Content-Type"@, "application/json"@)]);
        if allow_auth {
            let mut bearer = String::from_str("Bearer ");
            bearer.append(api_auth.token.as_str());
            headers.push((String::from_str("Authorization"), bearer));
            assert(pairs_view(headers@) =~= base.push(("Authorization"@, "Bearer "@ + api_auth.token@)));
        }
        let ghost with_auth = pairs_view(headers@);
        match ci_constant {
            Some(c) => {
                headers.push((String::from_str("x-artifact-client-ci"), String::from_str(c)));
                assert(pairs_view(headers@) =~= with_auth.push(("x-artifact-client-ci"@, c@)));
            },
            None => {},
        }
        assert(pairs_view(headers@) =~= request_headers(allow_auth, api_auth.token@, ci));
        let mut query: Vec<(String, String)> = Vec::new();
        let slug = match &api_auth.team_slug {
            Some(s) => Some(s.as_str()),
            None => None,
        };
        add_team_params(&mut query, api_auth.team_id.as_str(), slug);
        assert(pairs_view(query@) =~= team_query(api_auth.team_id@, opt_view(api_auth.team_slug)));
        Ok(RequestSpec { method, url, headers, query })
    }
}

/// Classifies a completed exchange: a 2xx status yields the body, any other
/// status is a rejection carrying status and body.
pub fn classify_response(status: u16, body: String) -> (r: Result<String, ApiError>)
    ensures
        classified(status, body@, r),
{
    if 200 <= status && status < 300 {
        Ok(body)
    } else {
        Err(ApiError::RemoteRejected { status, body })
    }
}

/// Classifies what the retrying transport handed back: a response as
/// `(status, body)`, or the error it gave up with.
pub fn complete_exchange(outcome: Result<(u16, String), String>) -> (r: Result<String, ApiError>)
    ensures
        match outcome {
            Ok((status, body)) => classified(status, body@, r),
            Err(e) => r matches Err(ApiError::Transport(m)) && m@ == e@,
        },
{
    match outcome {
        Ok((status, body)) => classify_response(status, body),
        Err(e) => Err(ApiError::Transport(e)),
    }
}

} // verus!
