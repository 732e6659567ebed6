use gh_api_service::error::GHAPIError;
use gh_api_service::github::{
    authorization_value, base_url_or_default, default_headers, is_success_status, next_action,
    FetchAction, FetchEvent, GithubAPI, Repository,
};
use gh_api_service::server::root_body;

fn ssh_signer() -> Repository {
    Repository {
        full_name: "tarkalabs/ssh-signer".to_string(),
        description: None,
        html_url: "https://github.com/tarkalabs/ssh-signer".to_string(),
    }
}

#[test]
fn error_messages() {
    assert_eq!(GHAPIError::ClientCreationFailed.message(), "Creating reqwest client failed");
    assert_eq!(GHAPIError::RequestFailed.message(), "Sending request failed");
    assert_eq!(
        GHAPIError::ResponseUnsuccessful("{\"message\":\"Not Found\"}".to_string()).message(),
        "Request unsuccessful - {\"message\":\"Not Found\"}"
    );
    assert_eq!(GHAPIError::FailedToDeserialize.message(), "Failed to deserialize");
}

#[test]
fn root_route_body() {
    assert_eq!(root_body(), "hello world");
}

#[test]
fn authorization_header_text() {
    assert_eq!(authorization_value("abc123"), "token abc123");
    assert_eq!(authorization_value(""), "token ");
}

#[test]
fn base_url_default_and_override() {
    assert_eq!(base_url_or_default(None), "https://api.github.com");
    assert_eq!(
        base_url_or_default(Some("http://127.0.0.1:4000".to_string())),
        "http://127.0.0.1:4000"
    );
}

#[test]
fn default_headers_hold_token_agent_and_accept() {
    let hm = default_headers("ghp_abc123").unwrap();
    assert_eq!(hm.len(), 3);
    assert_eq!(hm.get("authorization").unwrap(), "token ghp_abc123");
    assert_eq!(hm.get("user-agent").unwrap(), "gh-api-service");
    assert_eq!(hm.get("accept").unwrap(), "application/json");
}

#[test]
fn default_headers_refuse_newline_in_key() {
    assert!(matches!(default_headers("bad\nkey"), Err(GHAPIError::ClientCreationFailed)));
    assert!(matches!(default_headers("del\u{7f}"), Err(GHAPIError::ClientCreationFailed)));
    assert!(default_headers("tab\tkey").is_ok());
}

#[test]
fn new_with_invalid_key_fails() {
    let r = GithubAPI::new("bad\r\nkey".to_string(), None);
    assert!(matches!(r, Err(GHAPIError::ClientCreationFailed)));
}

#[test]
fn new_uses_override_or_default() {
    let api = GithubAPI::new("key".to_string(), Some("http://127.0.0.1:4000".to_string())).unwrap();
    assert_eq!(api.base_url(), "http://127.0.0.1:4000");
    let api = GithubAPI::new("key".to_string(), None).unwrap();
    assert_eq!(api.base_url(), "https://api.github.com");
}

#[test]
fn repository_url_joins_base_and_path() {
    let api = GithubAPI::new("key".to_string(), Some("http://127.0.0.1:4000".to_string())).unwrap();
    assert_eq!(
        api.repository_url("tarkalabs/ssh-signer"),
        "http://127.0.0.1:4000/repos/tarkalabs/ssh-signer"
    );
    let req = api
        .client()
        .get(api.repository_url("tarkalabs/ssh-signer"))
        .build()
        .unwrap();
    assert_eq!(req.method().as_str(), "GET");
    assert_eq!(req.url().as_str(), "http://127.0.0.1:4000/repos/tarkalabs/ssh-signer");
}

#[test]
fn success_status_range() {
    assert!(!is_success_status(199));
    assert!(is_success_status(200));
    assert!(is_success_status(204));
    assert!(is_success_status(299));
    assert!(!is_success_status(300));
    assert!(!is_success_status(404));
}

#[test]
fn send_failure_finishes_with_request_failed() {
    assert!(matches!(
        next_action(FetchEvent::SendFailed),
        FetchAction::Finish(Err(GHAPIError::RequestFailed))
    ));
}

#[test]
fn success_response_returns_repository() {
    assert!(matches!(next_action(FetchEvent::Responded(200)), FetchAction::ParseRepository));
    match next_action(FetchEvent::Parsed(Some(ssh_signer()))) {
        FetchAction::Finish(Ok(repo)) => {
            assert_eq!(repo.full_name, "tarkalabs/ssh-signer");
            assert_eq!(repo.description, None);
            assert_eq!(repo.html_url, "https://github.com/tarkalabs/ssh-signer");
        }
        other => panic!("unexpected {:?}", other),
    }
}

#[test]
fn not_found_keeps_body() {
    assert!(matches!(next_action(FetchEvent::Responded(404)), FetchAction::ReadErrorBody));
    let body = "{\"message\":\"Not Found\"}".to_string();
    match next_action(FetchEvent::ErrorBody(Some(body))) {
        FetchAction::Finish(Err(GHAPIError::ResponseUnsuccessful(b))) => {
            assert_eq!(b, "{\"message\":\"Not Found\"}")
        }
        other => panic!("unexpected {:?}", other),
    }
}

#[test]
fn unreadable_error_body_fails_to_deserialize() {
    assert!(matches!(
        next_action(FetchEvent::ErrorBody(None)),
        FetchAction::Finish(Err(GHAPIError::FailedToDeserialize))
    ));
}

#[test]
fn malformed_body_fails_to_deserialize() {
    assert!(matches!(
        next_action(FetchEvent::Parsed(None)),
        FetchAction::Finish(Err(GHAPIError::FailedToDeserialize))
    ));
}

#[test]
fn repeated_steps_agree() {
    let api = GithubAPI::new("key".to_string(), Some("http://127.0.0.1:4000".to_string())).unwrap();
    assert_eq!(api.repository_url("a/b"), api.repository_url("a/b"));
    let first = next_action(FetchEvent::Parsed(Some(ssh_signer())));
    let second = next_action(FetchEvent::Parsed(Some(ssh_signer())));
    match (first, second) {
        (FetchAction::Finish(Ok(a)), FetchAction::Finish(Ok(b))) => {
            assert_eq!(a.full_name, b.full_name);
            assert_eq!(a.description, b.description);
            assert_eq!(a.html_url, b.html_url);
        }
        other => panic!("unexpected {:?}", other),
    }
}
