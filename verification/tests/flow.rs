use isdown::check::aws::accept_decoded;
use isdown::report::label_width;
use isdown::watch::step;
use isdown::check::url::UrlCheck;
use isdown::check::{Check, CheckError, CheckOutcome, CheckStatus, Next, Reply};
use isdown::json::Json;
use isdown::planner::gather;
use isdown::registry::{lookup, ProviderKind};
use isdown::text::{cause, has_prefix, normalize, str_eq, trim};
use isdown::watch::{WatchAction, WatchSignal, Watcher};
use std::time::Duration;

fn text(s: &str) -> Json {
    Json::Str(s.to_string())
}

fn object(members: Vec<(&str, Json)>) -> Json {
    Json::Object(members.into_iter().map(|(k, v)| (k.to_string(), v)).collect())
}

fn outcome(provider: &str, status: CheckStatus) -> CheckOutcome {
    CheckOutcome { provider: provider.to_string(), status, causes: vec![] }
}

#[test]
fn registry_finds_every_key() {
    let keys = [
        ("github", ProviderKind::GitHub),
        ("slack", ProviderKind::Slack),
        ("atlassian", ProviderKind::Atlassian),
        ("circleci", ProviderKind::CircleCI),
        ("cloudflare", ProviderKind::Cloudflare),
        ("datadog", ProviderKind::Datadog),
        ("discord", ProviderKind::Discord),
        ("linear", ProviderKind::Linear),
        ("netlify", ProviderKind::Netlify),
        ("npm", ProviderKind::Npm),
        ("openai", ProviderKind::OpenAI),
        ("vercel", ProviderKind::Vercel),
        ("aws", ProviderKind::Aws),
    ];
    for (key, kind) in keys {
        assert_eq!(lookup(key).unwrap().kind, kind);
    }
    assert!(lookup("GitHub").is_none());
    assert!(lookup("statuspage").is_none());
    assert!(lookup("").is_none());
}

#[test]
fn kinds_check_their_feeds() {
    let cases = [
        (ProviderKind::GitHub, "https://www.githubstatus.com/api/v2/summary.json"),
        (ProviderKind::Slack, "https://slack-status.com/api/v2.0.0/current"),
        (ProviderKind::Atlassian, "https://status.atlassian.com/api/v2/summary.json"),
        (ProviderKind::CircleCI, "https://status.circleci.com/api/v2/summary.json"),
        (ProviderKind::Cloudflare, "https://www.cloudflarestatus.com/api/v2/summary.json"),
        (ProviderKind::Datadog, "https://status.datadoghq.com/api/v2/summary.json"),
        (ProviderKind::Discord, "https://discordstatus.com/api/v2/summary.json"),
        (ProviderKind::Linear, "https://linearstatus.com/api/v2/summary.json"),
        (ProviderKind::Netlify, "https://www.netlifystatus.com/api/v2/summary.json"),
        (ProviderKind::Npm, "https://status.npmjs.org/api/v2/summary.json"),
        (ProviderKind::OpenAI, "https://status.openai.com/api/v2/summary.json"),
        (ProviderKind::Vercel, "https://www.vercel-status.com/api/v2/summary.json"),
        (ProviderKind::Aws, "https://health.aws.amazon.com/public/currentevents"),
    ];
    for (kind, url) in cases {
        let c = kind.check();
        assert_eq!(c.url(), url);
        assert!(c.reads_body());
    }
}

#[test]
fn unreachable_feed_is_a_connection_error() {
    for kind in [ProviderKind::GitHub, ProviderKind::Aws, ProviderKind::Slack] {
        match kind.check().on_reply(&Reply::Unreachable) {
            Next::Finished(r) => assert_eq!(r, Err(CheckError::HttpError)),
            _ => panic!("expected the check to end"),
        }
    }
}

#[test]
fn error_status_is_a_connection_error() {
    let c = ProviderKind::Cloudflare.check();
    for status in [400u16, 404, 503, 599] {
        match c.on_reply(&Reply::Received { status, body: b"{}".to_vec() }) {
            Next::Finished(r) => assert_eq!(r, Err(CheckError::HttpError)),
            _ => panic!("expected the check to end"),
        }
    }
    for status in [200u16, 204, 301, 399, 600] {
        assert!(matches!(c.on_reply(&Reply::Received { status, body: vec![] }), Next::ParseBody));
    }
}

#[test]
fn statuspage_round_trip() {
    let c = ProviderKind::Discord.check();
    assert!(matches!(c.on_reply(&Reply::Received { status: 200, body: vec![] }), Next::ParseBody));
    let body = object(vec![
        ("status", object(vec![("indicator", text("major"))])),
        ("incidents", Json::Array(vec![object(vec![("name", text("Voice down")), ("status", text("identified"))])])),
    ]);
    let outcomes = c.on_json(Some(body)).unwrap();
    assert_eq!(outcomes.len(), 1);
    assert_eq!(outcomes[0].provider, "Discord");
    assert_eq!(outcomes[0].status, CheckStatus::Down);
    assert_eq!(outcomes[0].causes, vec!["Voice down (identified)"]);
    assert_eq!(c.on_json(None), Err(CheckError::HttpError));
    assert_eq!(c.on_json(Some(Json::Null)), Err(CheckError::ParseError));
}

#[test]
fn aws_round_trip() {
    let c = ProviderKind::Aws.check();
    let mut body = vec![0xFF, 0xFE];
    body.extend_from_slice(b"[\x00]\x00");
    match c.on_reply(&Reply::Received { status: 200, body }) {
        Next::ParseText(t) => assert_eq!(t, "[]"),
        _ => panic!("expected text to parse"),
    }
    match c.on_reply(&Reply::Received { status: 200, body: vec![0xC3] }) {
        Next::Finished(r) => assert_eq!(r, Err(CheckError::ParseError)),
        _ => panic!("expected the check to end"),
    }
    assert_eq!(c.on_json(None), Err(CheckError::JsonError));
    assert_eq!(c.on_json(Some(text("x"))), Err(CheckError::JsonError));
    let outcomes = c.on_json(Some(Json::Array(vec![]))).unwrap();
    assert_eq!(outcomes, vec![outcome("AWS", CheckStatus::Up)]);
}

#[test]
fn url_check_rates_by_status_code() {
    let c = Check::Url(UrlCheck::new("https://example.com".to_string()));
    assert!(!c.reads_body());
    assert_eq!(c.url(), "https://example.com");
    match c.on_reply(&Reply::Received { status: 200, body: vec![] }) {
        Next::Finished(r) => assert_eq!(r, Ok(vec![outcome("https://example.com", CheckStatus::Up)])),
        _ => panic!("expected the check to end"),
    }
    for status in [201u16, 404, 500] {
        match c.on_reply(&Reply::Received { status, body: vec![] }) {
            Next::Finished(r) => assert_eq!(r, Ok(vec![outcome("https://example.com", CheckStatus::Down)])),
            _ => panic!("expected the check to end"),
        }
    }
    match c.on_reply(&Reply::Unreachable) {
        Next::Finished(r) => assert_eq!(r, Err(CheckError::HttpError)),
        _ => panic!("expected the check to end"),
    }
}

#[test]
fn gather_keeps_order_and_errors() {
    let results = vec![
        Ok(vec![outcome("A", CheckStatus::Up), outcome("B", CheckStatus::Down)]),
        Err(CheckError::HttpError),
        Ok(vec![]),
        Ok(vec![outcome("C", CheckStatus::Degraded)]),
    ];
    let all = gather(results);
    assert_eq!(
        all,
        vec![
            Ok(outcome("A", CheckStatus::Up)),
            Ok(outcome("B", CheckStatus::Down)),
            Err(CheckError::HttpError),
            Ok(outcome("C", CheckStatus::Degraded)),
        ]
    );
    assert!(gather(vec![]).is_empty());
}

#[test]
fn watch_decisions() {
    let w = Watcher::new(vec![], Duration::from_secs(2), Some(Duration::from_secs(5)));
    assert_eq!(w.interval(), Duration::from_secs(2));
    assert!(w.targets().is_empty());
    assert_eq!(w.deadline(), Duration::from_secs(5));
    assert_eq!(w.next_action(WatchSignal::Began, &Duration::from_secs(0)), WatchAction::RunChecks);
    assert_eq!(w.next_action(WatchSignal::Woke, &Duration::from_millis(4999)), WatchAction::RunChecks);
    assert_eq!(w.next_action(WatchSignal::Woke, &Duration::from_secs(5)), WatchAction::Stop);
    assert_eq!(w.next_action(WatchSignal::Sent, &Duration::from_secs(9)), WatchAction::Wait);
    for s in [WatchSignal::ClientFailed, WatchSignal::SendFailed, WatchSignal::Interrupted, WatchSignal::Closed] {
        assert_eq!(w.next_action(s, &Duration::from_secs(0)), WatchAction::Stop);
    }
    let forever = Watcher::new(vec![], Duration::from_secs(1), None);
    assert_eq!(forever.deadline(), Duration::from_secs(u64::MAX));
    assert_eq!(forever.next_action(WatchSignal::Woke, &Duration::from_secs(1_000_000_000)), WatchAction::RunChecks);
}

#[test]
fn error_messages() {
    assert_eq!(CheckError::HttpError.message(), "Connection error");
    assert_eq!(CheckError::JsonError.message(), "Invalid json");
    assert_eq!(CheckError::ParseError.message(), "Parse error");
}

#[test]
fn text_helpers() {
    assert!(str_eq("héllo", "héllo"));
    assert!(!str_eq("héllo", "hello"));
    assert!(!str_eq("a", "ab"));
    assert!(has_prefix("https://x", "http"));
    assert!(!has_prefix("htt", "http"));
    assert!(has_prefix("abc", ""));
    assert_eq!(trim("  a b \t"), "a b");
    assert_eq!(trim(" \u{a0}\u{2028} "), "");
    assert_eq!(trim("x"), "x");
    assert_eq!(normalize("  ÀWS\n"), "àws");
    assert_eq!(cause("Outage", "resolved"), "Outage (resolved)");
}

#[test]
fn json_lookups() {
    let v = object(vec![("a", text("1")), ("b", Json::Bool(true)), ("a", text("2"))]);
    match v.get("a") {
        Some(Json::Str(s)) => assert_eq!(s, "1"),
        _ => panic!("expected the first member"),
    }
    assert!(v.get("c").is_none());
    assert!(text("x").get("a").is_none());
    assert_eq!(text("x").as_str(), Some("x"));
    assert!(Json::Null.as_str().is_none());
    assert_eq!(Json::Array(vec![Json::Null]).as_array().map(|a| a.len()), Some(1));
    assert!(v.as_object().is_some());
    assert!(v.as_array().is_none());
}

#[test]
fn white_space_matches_std() {
    for u in 0u32..0x110000 {
        if let Some(c) = char::from_u32(u) {
            assert_eq!(isdown::text::is_white_space(c), c.is_whitespace(), "U+{:04X}", u);
        }
    }
}

#[test]
fn feed_names_match_registry_names() {
    let body = object(vec![("status", object(vec![("indicator", text("none"))]))]);
    let slack_body = object(vec![("status", text("ok"))]);
    for key in ["github", "slack", "atlassian", "circleci", "cloudflare", "datadog", "discord", "linear", "netlify", "npm", "openai", "vercel"] {
        let details = lookup(key).unwrap();
        let check = details.kind.check();
        let b = if key == "slack" { slack_body.clone_json() } else { body.clone_json() };
        let outcomes = check.on_json(Some(b)).unwrap();
        assert_eq!(outcomes.len(), 1);
        assert_eq!(outcomes[0].provider, details.name);
        assert_eq!(outcomes[0].status, CheckStatus::Up);
    }
}

trait CloneJson {
    fn clone_json(&self) -> Json;
}

impl CloneJson for Json {
    fn clone_json(&self) -> Json {
        match self {
            Json::Null => Json::Null,
            Json::Bool(b) => Json::Bool(*b),
            Json::Number(n) => Json::Number(n.clone()),
            Json::Str(s) => Json::Str(s.clone()),
            Json::Array(a) => Json::Array(a.iter().map(|j| j.clone_json()).collect()),
            Json::Object(m) => Json::Object(m.iter().map(|(k, v)| (k.clone(), v.clone_json())).collect()),
        }
    }
}

#[test]
fn watch_step_on_plain_numbers() {
    assert_eq!(step(WatchSignal::Began, 0, 1), WatchAction::RunChecks);
    assert_eq!(step(WatchSignal::Began, 1, 1), WatchAction::Stop);
    assert_eq!(step(WatchSignal::Woke, 5, 0), WatchAction::Stop);
    assert_eq!(step(WatchSignal::Sent, 5, 0), WatchAction::Wait);
    assert_eq!(step(WatchSignal::Interrupted, 0, 10), WatchAction::Stop);
}

#[test]
fn decoded_text_is_kept_unless_malformed() {
    assert_eq!(accept_decoded("[]".to_string(), false), Ok("[]".to_string()));
    assert_eq!(accept_decoded("[\u{fffd}]".to_string(), true), Err(CheckError::ParseError));
}

#[test]
fn label_width_is_capped() {
    assert_eq!(label_width(&[]), 0);
    let results = vec![Ok(outcome("GitHub", CheckStatus::Up)), Err(CheckError::HttpError), Ok(outcome("Slack", CheckStatus::Up))];
    assert_eq!(label_width(&results), 6);
    let long = "x".repeat(55);
    assert_eq!(label_width(&[Ok(outcome(&long, CheckStatus::Down))]), 40);
    assert_eq!(label_width(&[Ok(outcome("Überwachung", CheckStatus::Down))]), 12);
}
