use isdown::check::statuspageio::StatusPageCheck;
use isdown::check::{feed_outcomes, Check, CheckStatus, Next, ProviderCheck, Reply};
use isdown::json::Json;
use isdown::registry::ProviderKind;

fn text(s: &str) -> Json {
    Json::Str(s.to_string())
}

fn object(members: Vec<(&str, Json)>) -> Json {
    Json::Object(members.into_iter().map(|(k, v)| (k.to_string(), v)).collect())
}

fn summary(indicator: &str, incidents: Vec<Json>) -> Json {
    object(vec![("status", object(vec![("indicator", text(indicator))])), ("incidents", Json::Array(incidents))])
}

#[test]
fn check_returns_up_when_indicator_none() {
    let provider = StatusPageCheck::new("TestProvider", "127.0.0.1");
    assert_eq!(provider.url(), "https://127.0.0.1/api/v2/summary.json");
    let outcomes = feed_outcomes(&provider, &summary("none", vec![])).unwrap();

    assert_eq!(outcomes.len(), 1);
    assert_eq!(outcomes[0].status, CheckStatus::Up);
    assert_eq!(outcomes[0].provider, "TestProvider");
    assert!(outcomes[0].causes.is_empty());
}

#[test]
fn check_returns_degraded_with_causes() {
    let provider = StatusPageCheck::new("TestProvider", "127.0.0.1");
    let body = summary(
        "minor",
        vec![object(vec![("name", text("Slow API")), ("status", text("investigating"))])],
    );
    let outcomes = feed_outcomes(&provider, &body).unwrap();

    assert_eq!(outcomes[0].status, CheckStatus::Degraded);
    assert_eq!(outcomes[0].causes, vec!["Slow API (investigating)"]);
}

#[test]
fn check_returns_error_on_http_failure() {
    let check: Check = ProviderKind::GitHub.check();
    match check.on_reply(&Reply::Received { status: 503, body: Vec::new() }) {
        Next::Finished(r) => assert!(r.is_err()),
        _ => panic!("expected the check to end"),
    }
}
