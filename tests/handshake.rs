use persys_login::commands::{complete, starts_with};
use persys_login::credential::{credential_from_fields, AuthUser, FieldValue};
use persys_login::error::{HandshakeError, ProtocolFault};
use persys_login::handshake::{step, Action, Event, Phase, GRACE_PERIOD_MS};
use persys_login::token::{correlation_token, initiate, login_url, pair_value, state_from_pairs};

fn pairs(items: &[(&str, &str)]) -> Vec<(String, String)> {
    items.iter().map(|(k, v)| (k.to_string(), v.to_string())).collect()
}

fn text(k: &str, v: &str) -> (String, FieldValue) {
    (k.to_string(), FieldValue::Text(v.to_string()))
}

fn full_credential_fields() -> Vec<(String, FieldValue)> {
    vec![
        text("login", "octo"),
        text("name", "Octo Cat"),
        text("email", "octo@example.com"),
        text("company", "Persys"),
        text("url", "https://github.com/octo"),
        text("githubToken", "gh-123"),
        ("userID".to_string(), FieldValue::Integer(9007199254740993)),
        text("persysToken", "ps-456"),
        text("state", "abc123"),
        text("createdAt", "2023-01-01T00:00:00Z"),
        text("updatedAt", "2023-02-01T00:00:00Z"),
    ]
}

fn expected_user() -> AuthUser {
    AuthUser {
        login: "octo".to_string(),
        name: "Octo Cat".to_string(),
        email: "octo@example.com".to_string(),
        company: "Persys".to_string(),
        url: "https://github.com/octo".to_string(),
        github_token: "gh-123".to_string(),
        user_id: 9007199254740993,
        persys_token: "ps-456".to_string(),
        state: "abc123".to_string(),
        created_at: "2023-01-01T00:00:00Z".to_string(),
        updated_at: "2023-02-01T00:00:00Z".to_string(),
    }
}

fn redeeming(token: &str) -> Phase {
    Phase::Redeeming { token: token.to_string() }
}

#[test]
fn initiate_example_url_yields_abc123() {
    let response = pairs(&[("URL", "http://example.com/login?state=abc123")]);
    let (url, token) = initiate(&response).unwrap();
    assert_eq!(url, "http://example.com/login?state=abc123");
    assert_eq!(token, "abc123");
}

#[test]
fn step_on_example_response_opens_browser() {
    let response = pairs(&[("URL", "http://example.com/login?state=abc123")]);
    let (next, act) = step(Phase::UrlRequested, Event::LoginResponse(Ok(response)));
    assert_eq!(act, Action::OpenBrowser("http://example.com/login?state=abc123".to_string()));
    assert!(matches!(next, Phase::OpeningBrowser { ref token } if token == "abc123"));
}

#[test]
fn missing_url_is_protocol_error_without_browser() {
    let response = pairs(&[("url", "http://example.com/login?state=abc123"), ("other", "x")]);
    assert_eq!(login_url(&response), Err(HandshakeError::Protocol(ProtocolFault::MissingUrl)));
    let (next, act) = step(Phase::UrlRequested, Event::LoginResponse(Ok(response)));
    assert_eq!(act, Action::Stop);
    assert!(matches!(next, Phase::Failed(HandshakeError::Protocol(ProtocolFault::MissingUrl))));
}

#[test]
fn empty_login_response_is_missing_url() {
    assert_eq!(initiate(&Vec::new()), Err(HandshakeError::Protocol(ProtocolFault::MissingUrl)));
}

#[test]
fn login_url_is_trimmed() {
    let response = pairs(&[("URL", "  http://example.com/login?state=abc123\n")]);
    assert_eq!(login_url(&response).unwrap(), "http://example.com/login?state=abc123");
    assert_eq!(initiate(&response).unwrap().1, "abc123");
}

#[test]
fn invalid_url_is_protocol_error() {
    assert_eq!(
        correlation_token("not a url"),
        Err(HandshakeError::Protocol(ProtocolFault::InvalidUrl))
    );
    let response = pairs(&[("URL", "/login?state=abc123")]);
    assert_eq!(initiate(&response), Err(HandshakeError::Protocol(ProtocolFault::InvalidUrl)));
}

#[test]
fn url_without_state_is_protocol_error() {
    assert_eq!(
        correlation_token("http://example.com/login?code=1"),
        Err(HandshakeError::Protocol(ProtocolFault::MissingState))
    );
    assert_eq!(
        correlation_token("http://example.com/login"),
        Err(HandshakeError::Protocol(ProtocolFault::MissingState))
    );
}

#[test]
fn token_is_percent_decoded() {
    assert_eq!(correlation_token("http://example.com/login?state=a%20b%2Bc").unwrap(), "a b+c");
    assert_eq!(correlation_token("http://example.com/login?x=1&state=q+r&y=2").unwrap(), "q r");
}

#[test]
fn encoded_token_round_trips() {
    for token in ["abc123", "a b&c=d", "\u{e9}t\u{e9}/?#", ""] {
        let url = reqwest::Url::parse_with_params("http://example.com/login", &[("state", token)]).unwrap();
        assert_eq!(correlation_token(url.as_str()).unwrap(), token);
    }
}

#[test]
fn last_state_parameter_wins() {
    assert_eq!(correlation_token("http://example.com/login?state=one&state=two").unwrap(), "two");
    let q = pairs(&[("state", "one"), ("a", "b"), ("state", "two")]);
    assert_eq!(state_from_pairs(&q).unwrap(), "two");
    assert_eq!(pair_value(&q, &"a".to_string()), Some("b".to_string()));
    assert_eq!(pair_value(&q, &"z".to_string()), None);
}

#[test]
fn grace_period_is_waited_before_redeeming() {
    let (phase, act) = step(Phase::OpeningBrowser { token: "abc123".to_string() }, Event::BrowserLaunched(Ok(())));
    assert_eq!(act, Action::Sleep(GRACE_PERIOD_MS));
    assert_eq!(GRACE_PERIOD_MS, 30000);
    let (phase, act) = step(phase, Event::Slept(10000));
    assert_eq!(act, Action::Sleep(20000));
    let (phase, act) = step(phase, Event::Slept(19999));
    assert_eq!(act, Action::Sleep(1));
    assert!(matches!(phase, Phase::Waiting { waited_ms: 29999, .. }));
    let (phase, act) = step(phase, Event::Slept(1));
    assert_eq!(act, Action::Redeem("abc123".to_string()));
    assert!(matches!(phase, Phase::Redeeming { ref token } if token == "abc123"));
}

#[test]
fn oversleeping_still_redeems_once() {
    let phase = Phase::Waiting { token: "t".to_string(), waited_ms: 5 };
    let (phase, act) = step(phase, Event::Slept(u64::MAX));
    assert_eq!(act, Action::Redeem("t".to_string()));
    let (_, act) = step(phase, Event::Slept(1));
    assert_eq!(act, Action::Nothing);
}

#[test]
fn complete_response_yields_matching_credential() {
    assert_eq!(credential_from_fields(&full_credential_fields()), Ok(expected_user()));
    let (next, act) = step(redeeming("abc123"), Event::RedemptionResponse(Ok(full_credential_fields())));
    assert_eq!(act, Action::Stop);
    match next {
        Phase::Redeemed(u) => assert_eq!(u, expected_user()),
        other => panic!("unexpected phase {:?}", other),
    }
}

#[test]
fn extra_fields_are_ignored() {
    let mut fields = full_credential_fields();
    fields.push(text("extra", "x"));
    fields.push(("flag".to_string(), FieldValue::Other));
    assert_eq!(credential_from_fields(&fields), Ok(expected_user()));
}

#[test]
fn missing_persys_token_is_protocol_error() {
    let fields: Vec<_> = full_credential_fields().into_iter().filter(|(k, _)| k != "persysToken").collect();
    let err = HandshakeError::Protocol(ProtocolFault::MalformedCredential);
    assert_eq!(credential_from_fields(&fields), Err(err.clone()));
    let (next, act) = step(redeeming("abc123"), Event::RedemptionResponse(Ok(fields)));
    assert_eq!(act, Action::Stop);
    assert!(matches!(next, Phase::Failed(e) if e == err));
}

#[test]
fn every_missing_field_is_protocol_error() {
    for i in 0..full_credential_fields().len() {
        let mut fields = full_credential_fields();
        fields.remove(i);
        assert_eq!(
            credential_from_fields(&fields),
            Err(HandshakeError::Protocol(ProtocolFault::MalformedCredential))
        );
    }
}

#[test]
fn mistyped_user_id_is_protocol_error() {
    let mut fields = full_credential_fields();
    fields[6] = text("userID", "42");
    assert_eq!(
        credential_from_fields(&fields),
        Err(HandshakeError::Protocol(ProtocolFault::MalformedCredential))
    );
    let mut fields = full_credential_fields();
    fields[0] = ("login".to_string(), FieldValue::Integer(1));
    assert!(credential_from_fields(&fields).is_err());
}

#[test]
fn redemption_timeout_is_transport_error() {
    let err = HandshakeError::Transport("operation timed out".to_string());
    let (next, act) = step(redeeming("abc123"), Event::RedemptionResponse(Err(err.clone())));
    assert_eq!(act, Action::Stop);
    assert!(matches!(next, Phase::Failed(e) if e == err));
}

#[test]
fn browser_failure_is_environment_error() {
    let (next, act) = step(
        Phase::OpeningBrowser { token: "abc123".to_string() },
        Event::BrowserLaunched(Err("no browser".to_string())),
    );
    assert_eq!(act, Action::Stop);
    assert!(matches!(next, Phase::Failed(HandshakeError::Environment(ref m)) if m == "no browser"));
}

#[test]
fn login_fetch_failure_is_kept() {
    let err = HandshakeError::Transport("connection refused".to_string());
    let (next, act) = step(Phase::UrlRequested, Event::LoginResponse(Err(err.clone())));
    assert_eq!(act, Action::Stop);
    assert!(matches!(next, Phase::Failed(e) if e == err));
}

#[test]
fn cancel_ends_any_live_phase() {
    for phase in [Phase::Idle, Phase::UrlRequested, Phase::Waiting { token: "t".to_string(), waited_ms: 3 }, redeeming("t")] {
        let (next, act) = step(phase, Event::Cancel);
        assert_eq!(act, Action::Stop);
        assert!(matches!(next, Phase::Failed(HandshakeError::Cancelled)));
    }
}

#[test]
fn start_requests_login_url() {
    let (next, act) = step(Phase::Idle, Event::Start);
    assert_eq!(act, Action::FetchLoginUrl);
    assert!(matches!(next, Phase::UrlRequested));
}

#[test]
fn unexpected_events_are_ignored() {
    let (next, act) = step(Phase::Idle, Event::Slept(5));
    assert_eq!(act, Action::Nothing);
    assert!(matches!(next, Phase::Idle));
    let (next, act) = step(Phase::UrlRequested, Event::RedemptionResponse(Ok(full_credential_fields())));
    assert_eq!(act, Action::Nothing);
    assert!(matches!(next, Phase::UrlRequested));
}

#[test]
fn terminal_phases_stay() {
    let (next, act) = step(Phase::Failed(HandshakeError::Cancelled), Event::Start);
    assert_eq!(act, Action::Stop);
    assert!(matches!(next, Phase::Failed(HandshakeError::Cancelled)));
    let (next, act) = step(Phase::Redeemed(expected_user()), Event::Cancel);
    assert_eq!(act, Action::Stop);
    assert!(matches!(next, Phase::Redeemed(_)));
}

#[test]
fn errors_describe_themselves() {
    assert_eq!(HandshakeError::Cancelled.kind(), "cancelled");
    assert_eq!(HandshakeError::Protocol(ProtocolFault::MissingUrl).kind(), "protocol error");
    assert!(ProtocolFault::MissingState.describe().contains("state"));
}

#[test]
fn completion_offers_matching_commands() {
    let add: Vec<(String, String)> = complete("add", 3).into_iter().map(|c| (c.display, c.replacement)).collect();
    assert_eq!(
        add,
        vec![
            ("add_webhook".to_string(), "_webhook".to_string()),
            ("add_access_token".to_string(), "_access_token".to_string()),
        ]
    );
    assert_eq!(complete("", 0).len(), 6);
    assert_eq!(complete("", 0)[5].display, "events");
    assert!(complete("x", 1).is_empty());
    let login = complete("login", 5);
    assert_eq!(login.len(), 1);
    assert_eq!(login[0].replacement, "");
    assert!(complete("loginx", 6).is_empty());
}

#[test]
fn starts_with_checks_prefix() {
    assert!(starts_with("list_repos", "list_"));
    assert!(starts_with("events", ""));
    assert!(!starts_with("events", "eventss"));
    assert!(!starts_with("login", "logout"));
}
