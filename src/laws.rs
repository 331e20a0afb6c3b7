use vstd::prelude::*;
use crate::request::{
    assembly_outcome, pairs_view, APIAuth, APIClient, ApiError, Method, PreflightResponse,
    RequestSpec,
};

verus! {

/// An assembled request whose auth context has an empty team id and no team
/// slug carries no query parameters.
pub proof fn lemma_no_team_scope(
    client: APIClient,
    path: Seq<char>,
    auth: APIAuth,
    method: Method,
    preflight: Option<Result<PreflightResponse, String>>,
    ci: Option<Seq<char>>,
    r: Result<RequestSpec, ApiError>,
)
    requires
        assembly_outcome(client, path, auth, method, preflight, ci, r),
        auth.team_id@.len() == 0,
        auth.team_slug.is_none(),
        r.is_ok(),
    ensures
        r->Ok_0.query@.len() == 0,
{
    assert(pairs_view(r->Ok_0.query@).len() == 0);
}

/// When the auth context has both a team id and a team slug, the assembled
/// request carries both as query parameters.
pub proof fn lemma_full_team_scope(
    client: APIClient,
    path: Seq<char>,
    auth: APIAuth,
    method: Method,
    preflight: Option<Result<PreflightResponse, String>>,
    ci: Option<Seq<char>>,
    r: Result<RequestSpec, ApiError>,
)
    requires
        assembly_outcome(client, path, auth, method, preflight, ci, r),
        auth.team_id@.len() > 0,
        auth.team_slug.is_some(),
        r.is_ok(),
    ensures
        pairs_view(r->Ok_0.query@).contains(("teamId"@, auth.team_id@)),
        pairs_view(r->Ok_0.query@).contains(("slug"@, auth.team_slug->Some_0@)),
{
    let q = pairs_view(r->Ok_0.query@);
    assert(q.len() == 2);
    assert(q[0] == ("teamId"@, auth.team_id@));
    assert(q[1] == ("slug"@, auth.team_slug->Some_0@));
}

/// With preflight mode off, assembly always succeeds, targets the base
/// endpoint joined with the path, and attaches the bearer token.
pub proof fn lemma_no_preflight_sends_token(
    client: APIClient,
    path: Seq<char>,
    auth: APIAuth,
    method: Method,
    preflight: Option<Result<PreflightResponse, String>>,
    ci: Option<Seq<char>>,
    r: Result<RequestSpec, ApiError>,
)
    requires
        assembly_outcome(client, path, auth, method, preflight, ci, r),
        !client.use_preflight,
    ensures
        r.is_ok(),
        r->Ok_0.url@ == client.base_url@ + path,
        pairs_view(r->Ok_0.headers@).contains(("Authorization"@, "Bearer "@ + auth.token@)),
{
    let h = pairs_view(r->Ok_0.headers@);
    assert(h.len() >= 2);
    assert(h[1] == ("Authorization"@, "Bearer "@ + auth.token@));
}

/// With preflight mode on and a probe that refuses the Authorization header,
/// the assembled request carries no Authorization header.
pub proof fn lemma_refused_auth_is_omitted(
    client: APIClient,
    path: Seq<char>,
    auth: APIAuth,
    method: Method,
    verdict: PreflightResponse,
    ci: Option<Seq<char>>,
    r: Result<RequestSpec, ApiError>,
)
    requires
        assembly_outcome(client, path, auth, method, Some(Ok(verdict)), ci, r),
        client.use_preflight,
        !verdict.allow_authorization_header,
    ensures
        r.is_ok(),
        forall|i: int|
            0 <= i < r->Ok_0.headers@.len() ==> #[trigger] pairs_view(r->Ok_0.headers@)[i].0
                != "Authorization"@,
{
    reveal_strlit("Authorization");
    reveal_strlit("Content-Type");
    reveal_strlit("x-artifact-client-ci");
    let h = pairs_view(r->Ok_0.headers@);
    assert forall|i: int| 0 <= i < h.len() implies #[trigger] h[i].0 != "Authorization"@ by {
        assert(h[i].0[0] != "Authorization"@[0] || h[i].0.len() != "Authorization"@.len());
    }
}

/// With preflight mode on, the assembled request targets the location the
/// probe reported, not the original URL.
pub proof fn lemma_preflight_location_wins(
    client: APIClient,
    path: Seq<char>,
    auth: APIAuth,
    method: Method,
    verdict: PreflightResponse,
    ci: Option<Seq<char>>,
    r: Result<RequestSpec, ApiError>,
)
    requires
        assembly_outcome(client, path, auth, method, Some(Ok(verdict)), ci, r),
        client.use_preflight,
    ensures
        r.is_ok(),
        r->Ok_0.url@ == verdict.location@,
{
}

} // verus!
