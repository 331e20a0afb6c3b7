use spaces_client::{
    add_team_params, allows_authorization, classify_response, interpret_preflight, complete_exchange, space_run_path, space_runs_path,
    space_tasks_path, APIAuth, APIClient, ApiError, CreateSpaceRunPayload, FinishSpaceRunPayload,
    Method, PreflightResponse, RequestSpec, RunStatus, SpaceRunType,
};

fn client(use_preflight: bool) -> APIClient {
    APIClient { base_url: "https://api.example.com".to_string(), use_preflight }
}

fn auth(team_id: &str, team_slug: Option<&str>) -> APIAuth {
    APIAuth {
        token: "t".to_string(),
        team_id: team_id.to_string(),
        team_slug: team_slug.map(|s| s.to_string()),
    }
}

fn header<'a>(req: &'a RequestSpec, name: &str) -> Option<&'a str> {
    req.headers.iter().find(|(n, _)| n == name).map(|(_, v)| v.as_str())
}

fn pairs(v: &[(&str, &str)]) -> Vec<(String, String)> {
    v.iter().map(|(a, b)| (a.to_string(), b.to_string())).collect()
}

#[test]
fn create_run_without_preflight() {
    let c = client(false);
    let path = space_runs_path("space1");
    assert!(c.preflight_probe(&path, Method::Post).is_none());
    let req = c.create_request_builder(&path, &auth("", None), Method::Post, None, None).unwrap();
    assert_eq!(req.method, Method::Post);
    assert_eq!(req.method.as_str(), "POST");
    assert_eq!(req.url, "https://api.example.com/v0/spaces/space1/runs");
    assert_eq!(
        req.headers,
        pairs(&[("Content-Type", "application/json"), ("Authorization", "Bearer t")])
    );
    assert!(req.query.is_empty());
}

#[test]
fn no_preflight_ignores_probe_result() {
    let c = client(false);
    let verdict = PreflightResponse {
        allow_authorization_header: false,
        location: "https://elsewhere.example.com/x".to_string(),
    };
    let req = c
        .create_request_builder("/p", &auth("", None), Method::Patch, Some(Ok(verdict)), None)
        .unwrap();
    assert_eq!(req.url, "https://api.example.com/p");
    assert_eq!(header(&req, "Authorization"), Some("Bearer t"));
}

#[test]
fn team_id_and_slug_both_sent() {
    let c = client(false);
    let req = c
        .create_request_builder("/p", &auth("team_1", Some("acme")), Method::Post, None, None)
        .unwrap();
    assert_eq!(req.query, pairs(&[("teamId", "team_1"), ("slug", "acme")]));
}

#[test]
fn team_slug_only() {
    let mut q = Vec::new();
    add_team_params(&mut q, "", Some("acme"));
    assert_eq!(q, pairs(&[("slug", "acme")]));
}

#[test]
fn team_id_only_appends() {
    let mut q = pairs(&[("a", "b")]);
    add_team_params(&mut q, "team_9", None);
    assert_eq!(q, pairs(&[("a", "b"), ("teamId", "team_9")]));
}

#[test]
fn preflight_probe_declares_headers() {
    let c = client(true);
    let probe = c.preflight_probe("/v0/spaces/s/runs", Method::Patch).unwrap();
    assert_eq!(probe.url, "https://api.example.com/v0/spaces/s/runs");
    assert_eq!(probe.method, Method::Patch);
    assert_eq!(probe.request_headers, "Authorization, User-Agent");
}

#[test]
fn preflight_refusal_drops_authorization() {
    let c = client(true);
    let verdict = PreflightResponse {
        allow_authorization_header: false,
        location: "https://api.example.com/p".to_string(),
    };
    let req = c
        .create_request_builder("/p", &auth("", None), Method::Post, Some(Ok(verdict)), None)
        .unwrap();
    assert_eq!(header(&req, "Authorization"), None);
    assert_eq!(header(&req, "Content-Type"), Some("application/json"));
}

#[test]
fn preflight_location_is_targeted() {
    let c = client(true);
    let verdict = PreflightResponse {
        allow_authorization_header: true,
        location: "https://canonical.example.com/v0/spaces/s/runs".to_string(),
    };
    let req = c
        .create_request_builder("/v0/spaces/s/runs", &auth("", None), Method::Post, Some(Ok(verdict)), None)
        .unwrap();
    assert_eq!(req.url, "https://canonical.example.com/v0/spaces/s/runs");
    assert_eq!(header(&req, "Authorization"), Some("Bearer t"));
}

#[test]
fn preflight_failure_is_fatal() {
    let c = client(true);
    let r = c.create_request_builder(
        "/p",
        &auth("", None),
        Method::Post,
        Some(Err("probe returned 403".to_string())),
        None,
    );
    match r {
        Err(ApiError::Preflight(m)) => assert_eq!(m, "probe returned 403"),
        other => panic!("unexpected {:?}", other),
    }
    let r = c.create_request_builder("/p", &auth("", None), Method::Post, None, None);
    assert!(matches!(r, Err(ApiError::Preflight(_))));
}

#[test]
fn ci_header_attached_when_detected() {
    let c = client(false);
    let req = c
        .create_request_builder("/p", &auth("", None), Method::Post, None, Some("GITHUB_ACTIONS"))
        .unwrap();
    assert_eq!(
        req.headers,
        pairs(&[
            ("Content-Type", "application/json"),
            ("Authorization", "Bearer t"),
            ("x-artifact-client-ci", "GITHUB_ACTIONS"),
        ])
    );
}

#[test]
fn paths_follow_templates() {
    assert_eq!(space_runs_path("sp"), "/v0/spaces/sp/runs");
    assert_eq!(space_run_path("sp", "r1"), "/v0/spaces/sp/runs/r1");
    assert_eq!(space_tasks_path("sp", "r1"), "/v0/spaces/sp/runs/r1/tasks");
    assert_eq!(client(false).make_url("/x"), "https://api.example.com/x");
}

#[test]
fn every_attempt_unavailable_is_rejected() {
    match complete_exchange(Ok((503, "unavailable".to_string()))) {
        Err(ApiError::RemoteRejected { status, body }) => {
            assert_eq!(status, 503);
            assert_eq!(body, "unavailable");
        }
        other => panic!("unexpected {:?}", other),
    }
}

#[test]
fn transport_exhaustion_is_transport_error() {
    match complete_exchange(Err("connection refused".to_string())) {
        Err(ApiError::Transport(m)) => assert_eq!(m, "connection refused"),
        other => panic!("unexpected {:?}", other),
    }
}

#[test]
fn task_report_for_unknown_run_surfaces_rejection() {
    let c = client(false);
    let path = space_tasks_path("space1", "not-yet-created");
    let req = c.create_request_builder(&path, &auth("", None), Method::Post, None, None);
    assert!(req.is_ok());
    match complete_exchange(Ok((404, "run not found".to_string()))) {
        Err(ApiError::RemoteRejected { status, .. }) => assert_eq!(status, 404),
        other => panic!("unexpected {:?}", other),
    }
}

#[test]
fn classification_bounds() {
    assert_eq!(classify_response(200, "a".to_string()).unwrap(), "a");
    assert_eq!(classify_response(299, "b".to_string()).unwrap(), "b");
    assert!(matches!(classify_response(199, String::new()), Err(ApiError::RemoteRejected { status: 199, .. })));
    assert!(matches!(classify_response(300, String::new()), Err(ApiError::RemoteRejected { status: 300, .. })));
    assert!(matches!(classify_response(404, String::new()), Err(ApiError::RemoteRejected { status: 404, .. })));
}

#[test]
fn deserialization_error_carries_message() {
    let e = ApiError::Deserialization("missing field id".to_string());
    assert!(matches!(e, ApiError::Deserialization(ref m) if m == "missing field id"));
}

#[test]
fn finish_payload_is_completed_for_any_exit_code() {
    for code in [0, 1, -1, i32::MIN, i32::MAX] {
        let p = FinishSpaceRunPayload::new(1_700_000_000_000, code);
        assert_eq!(p.status, RunStatus::Completed);
        assert_eq!(p.status.as_str(), "completed");
        assert_eq!(p.exit_code, code);
        assert_eq!(p.end_time, 1_700_000_000_000);
    }
}

#[test]
fn create_payload_local_run() {
    let p = CreateSpaceRunPayload::new(
        42,
        "turbo run build",
        None,
        Some("main".to_string()),
        None,
        "1.9.0".to_string(),
        "alice".to_string(),
        None,
    );
    assert_eq!(p.start_time, 42);
    assert_eq!(p.status, RunStatus::Running);
    assert_eq!(p.ty.as_str(), "TURBO");
    assert_eq!(p.ty, SpaceRunType::Turbo);
    assert_eq!(p.command, "turbo run build");
    assert_eq!(p.package_inference_root, "");
    assert_eq!(p.run_context, "LOCAL");
    assert_eq!(p.git_branch.as_deref(), Some("main"));
    assert_eq!(p.git_sha, None);
    assert_eq!(p.user, "alice");
    assert_eq!(p.client.id, "turbo");
    assert_eq!(p.client.name, "Turbo");
    assert_eq!(p.client.version, "1.9.0");
}

#[test]
fn create_payload_under_ci() {
    let p = CreateSpaceRunPayload::new(
        7,
        "turbo run test",
        Some("packages/web"),
        None,
        Some("abc123".to_string()),
        "2.0.0".to_string(),
        "bot".to_string(),
        Some("GITHUB_ACTIONS"),
    );
    assert_eq!(p.run_context, "GITHUB_ACTIONS");
    assert_eq!(p.package_inference_root, "packages/web");
    assert_eq!(p.git_sha.as_deref(), Some("abc123"));
    assert_eq!(RunStatus::Running.as_str(), "running");
}

#[test]
fn allow_list_entries_match_case_insensitively() {
    assert!(allows_authorization("Authorization, User-Agent"));
    assert!(allows_authorization("content-type,  AUTHORIZATION  "));
    assert!(allows_authorization("authorization"));
    assert!(allows_authorization("x, AuThOrIzAtIoN ,y"));
    assert!(!allows_authorization(""));
    assert!(!allows_authorization("User-Agent"));
    assert!(!allows_authorization("x-authorization, User-Agent"));
    assert!(!allows_authorization("authorizations"));
    assert!(!allows_authorization("authoriz"));
}

#[test]
fn probe_verdict_from_headers() {
    let v = interpret_preflight("https://a.example.com/x".to_string(), Some("Authorization"));
    assert!(v.allow_authorization_header);
    assert_eq!(v.location, "https://a.example.com/x");
    let v = interpret_preflight("https://a.example.com/x".to_string(), None);
    assert!(!v.allow_authorization_header);
}
