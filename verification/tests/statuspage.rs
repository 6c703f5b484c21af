use isdown::check::github::GitHubCheck;
use isdown::check::slack::SlackCheck;
use isdown::check::statuspageio::StatusPageCheck;
use isdown::check::{feed_outcomes, CheckError, CheckStatus, ProviderCheck};
use isdown::json::Json;

fn check() -> GitHubCheck {
    GitHubCheck
}

fn text(s: &str) -> Json {
    Json::Str(s.to_string())
}

fn object(members: Vec<(&str, Json)>) -> Json {
    Json::Object(members.into_iter().map(|(k, v)| (k.to_string(), v)).collect())
}

fn incident(name: &str, status: &str) -> Json {
    object(vec![("name", text(name)), ("status", text(status))])
}

#[test]
fn parse_status_ok() {
    let v = object(vec![("status", object(vec![("indicator", text("none"))]))]);
    assert_eq!(check().parse_status(&v).unwrap(), "none");
}

#[test]
fn parse_status_missing_returns_error() {
    assert!(check().parse_status(&object(vec![])).is_err());
}

#[test]
fn map_status_none_is_up() {
    assert_eq!(check().map_status("none".to_string()), CheckStatus::Up);
}

#[test]
fn map_status_minor_is_degraded() {
    assert_eq!(check().map_status("minor".to_string()), CheckStatus::Degraded);
}

#[test]
fn map_status_other_is_down() {
    assert_eq!(check().map_status("major".to_string()), CheckStatus::Down);
    assert_eq!(check().map_status("critical".to_string()), CheckStatus::Down);
}

#[test]
fn causes_empty_when_no_incidents() {
    assert!(check().causes(&object(vec![("incidents", Json::Array(vec![]))])).is_empty());
}

#[test]
fn causes_formats_name_and_status() {
    let v = object(vec![("incidents", Json::Array(vec![incident("API outage", "investigating")]))]);
    assert_eq!(check().causes(&v), vec!["API outage (investigating)"]);
}

#[test]
fn causes_multiple_incidents() {
    let v = object(vec![(
        "incidents",
        Json::Array(vec![incident("Slow builds", "monitoring"), incident("Pages down", "identified")]),
    )]);
    let causes = check().causes(&v);
    assert_eq!(causes.len(), 2);
    assert!(causes.contains(&"Slow builds (monitoring)".to_string()));
    assert!(causes.contains(&"Pages down (identified)".to_string()));
}

#[test]
fn causes_skips_malformed_incidents() {
    assert!(check()
        .causes(&object(vec![("incidents", Json::Array(vec![object(vec![("no_name", Json::Bool(true))])]))]))
        .is_empty());
}

#[test]
fn parse_status_needs_a_string_indicator() {
    let v = object(vec![("status", object(vec![("indicator", Json::Number("1".to_string()))]))]);
    assert_eq!(check().parse_status(&v), Err(CheckError::ParseError));
    let v = object(vec![("status", text("none"))]);
    assert_eq!(check().parse_status(&v), Err(CheckError::ParseError));
    assert_eq!(check().parse_status(&Json::Null), Err(CheckError::ParseError));
}

#[test]
fn causes_ignore_a_non_array() {
    assert!(check().causes(&object(vec![("incidents", incident("x", "y"))])).is_empty());
    assert!(check().causes(&Json::Array(vec![])).is_empty());
}

#[test]
fn github_feed_address() {
    assert_eq!(check().url(), "https://www.githubstatus.com/api/v2/summary.json");
    assert_eq!(check().provider(), "GitHub");
}

#[test]
fn statuspage_check_builds_its_address() {
    let c = StatusPageCheck::new("Discord", "discordstatus.com");
    assert_eq!(c.url(), "https://discordstatus.com/api/v2/summary.json");
    assert_eq!(c.provider(), "Discord");
    assert_eq!(c.host(), "discordstatus.com");
}

#[test]
fn feed_outcomes_report_one_outcome() {
    let v = object(vec![
        ("status", object(vec![("indicator", text("minor"))])),
        ("incidents", Json::Array(vec![incident("Slow API", "investigating")])),
    ]);
    let outcomes = feed_outcomes(&check(), &v).unwrap();
    assert_eq!(outcomes.len(), 1);
    assert_eq!(outcomes[0].provider, "GitHub");
    assert_eq!(outcomes[0].status, CheckStatus::Degraded);
    assert_eq!(outcomes[0].causes, vec!["Slow API (investigating)"]);
    assert_eq!(feed_outcomes(&check(), &object(vec![])), Err(CheckError::ParseError));
}

#[test]
fn slack_reads_its_own_feed() {
    let s = SlackCheck;
    assert_eq!(s.url(), "https://slack-status.com/api/v2.0.0/current");
    let v = object(vec![
        ("status", text("active")),
        (
            "active_incidents",
            Json::Array(vec![
                object(vec![("title", text("Messages delayed")), ("status", text("active"))]),
                incident("named, not titled", "active"),
            ]),
        ),
    ]);
    assert_eq!(s.parse_status(&v).unwrap(), "active");
    assert_eq!(s.map_status("ok".to_string()), CheckStatus::Up);
    assert_eq!(s.map_status("active".to_string()), CheckStatus::Degraded);
    assert_eq!(s.map_status("broken".to_string()), CheckStatus::Down);
    assert_eq!(s.map_status("outage".to_string()), CheckStatus::Down);
    assert_eq!(s.causes(&v), vec!["Messages delayed (active)"]);
    let outcomes = feed_outcomes(&s, &v).unwrap();
    assert_eq!(outcomes[0].provider, "Slack");
    assert_eq!(outcomes[0].status, CheckStatus::Degraded);
}

fn slack_incident(title: &str, status: &str, kind: &str) -> Json {
    object(vec![("title", text(title)), ("status", text(status)), ("type", text(kind))])
}

#[test]
fn slack_degraded_with_a_cause() {
    let v = object(vec![
        ("status", text("active")),
        ("active_incidents", Json::Array(vec![slack_incident("Slow API", "investigating", "incident")])),
    ]);
    let outcomes = feed_outcomes(&SlackCheck, &v).unwrap();
    assert_eq!(outcomes.len(), 1);
    assert_eq!(outcomes[0].provider, "Slack");
    assert_eq!(outcomes[0].status, CheckStatus::Degraded);
    assert_eq!(outcomes[0].causes, vec!["Slow API (investigating)"]);
}

#[test]
fn slack_status_is_read_as_given() {
    let v = object(vec![
        ("status", text("active")),
        (
            "active_incidents",
            Json::Array(vec![
                slack_incident("Notice", "active", "notice"),
                slack_incident("Cannot connect", "active", "outage"),
            ]),
        ),
    ]);
    assert_eq!(SlackCheck.parse_status(&v).unwrap(), "active");
    let outcomes = feed_outcomes(&SlackCheck, &v).unwrap();
    assert_eq!(outcomes[0].status, CheckStatus::Degraded);
    assert_eq!(outcomes[0].causes, vec!["Notice (active)", "Cannot connect (active)"]);
    let broken = object(vec![("status", text("broken"))]);
    assert_eq!(SlackCheck.parse_status(&broken).unwrap(), "broken");
    assert_eq!(feed_outcomes(&SlackCheck, &broken).unwrap()[0].status, CheckStatus::Down);
}

#[test]
fn slack_ok_is_up() {
    let v = object(vec![
        ("status", text("ok")),
        ("active_incidents", Json::Array(vec![slack_incident("Old", "resolved", "outage")])),
    ]);
    assert_eq!(SlackCheck.parse_status(&v).unwrap(), "ok");
    assert_eq!(feed_outcomes(&SlackCheck, &v).unwrap()[0].status, CheckStatus::Up);
    let missing = object(vec![("active_incidents", Json::Array(vec![]))]);
    assert_eq!(SlackCheck.parse_status(&missing), Err(CheckError::ParseError));
}
