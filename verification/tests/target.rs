use isdown::registry::ProviderKind;
use isdown::target::Target;

#[test]
fn parse_url() {
    match Target::parse("https://example.com").unwrap() {
        Target::Url(url) => assert_eq!(url, "https://example.com"),
        other => panic!("expected a url, got {:?}", other),
    }
}

#[test]
fn parse_known_provider() {
    match Target::parse("github").unwrap() {
        Target::Provider(d) => assert_eq!(d.kind, ProviderKind::GitHub),
        other => panic!("expected a provider, got {:?}", other),
    }
}

#[test]
fn parse_case_insensitive() {
    match Target::parse("GitHub").unwrap() {
        Target::Provider(d) => assert_eq!(d.kind, ProviderKind::GitHub),
        other => panic!("expected a provider, got {:?}", other),
    }
    match Target::parse("GITHUB").unwrap() {
        Target::Provider(d) => assert_eq!(d.kind, ProviderKind::GitHub),
        other => panic!("expected a provider, got {:?}", other),
    }
}

#[test]
fn parse_trims_whitespace() {
    match Target::parse("  aws  ").unwrap() {
        Target::Provider(d) => assert_eq!(d.kind, ProviderKind::Aws),
        other => panic!("expected a provider, got {:?}", other),
    }
}

#[test]
fn parse_unknown_returns_none() {
    assert!(Target::parse("unknown_provider").is_none());
    assert!(Target::parse("").is_none());
}

#[test]
fn parse_keeps_url_as_typed() {
    match Target::parse(" HTTP://Example.com/Path ").unwrap() {
        Target::Url(url) => assert_eq!(url, " HTTP://Example.com/Path "),
        other => panic!("expected a url, got {:?}", other),
    }
}

#[test]
fn parse_trims_unicode_whitespace() {
    match Target::parse("\u{2003}\tSlack\n\u{3000}").unwrap() {
        Target::Provider(d) => {
            assert_eq!(d.kind, ProviderKind::Slack);
            assert_eq!(d.name, "Slack");
        }
        other => panic!("expected a provider, got {:?}", other),
    }
}

#[test]
fn parse_shows_registered_names() {
    let cases = [
        ("github", "GitHub", ProviderKind::GitHub),
        ("slack", "Slack", ProviderKind::Slack),
        ("atlassian", "Atlassian", ProviderKind::Atlassian),
        ("circleci", "CircleCI", ProviderKind::CircleCI),
        ("cloudflare", "Cloudflare", ProviderKind::Cloudflare),
        ("datadog", "Datadog", ProviderKind::Datadog),
        ("discord", "Discord", ProviderKind::Discord),
        ("linear", "Linear", ProviderKind::Linear),
        ("netlify", "Netlify", ProviderKind::Netlify),
        ("NPM", "npm", ProviderKind::Npm),
        ("OpenAI", "OpenAI", ProviderKind::OpenAI),
        ("vercel", "Vercel", ProviderKind::Vercel),
        ("aws", "AWS", ProviderKind::Aws),
    ];
    for (typed, name, kind) in cases {
        match Target::parse(typed).unwrap() {
            Target::Provider(d) => {
                assert_eq!(d.name, name);
                assert_eq!(d.kind, kind);
            }
            other => panic!("expected a provider, got {:?}", other),
        }
    }
}

#[test]
fn from_key_needs_a_normalized_key() {
    assert!(Target::from_key("GitHub", "GitHub").is_none());
    match Target::from_key("github", "  GitHub ").unwrap() {
        Target::Provider(d) => assert_eq!(d.kind, ProviderKind::GitHub),
        other => panic!("expected a provider, got {:?}", other),
    }
    match Target::from_key("httpx", "HTTPX").unwrap() {
        Target::Url(u) => assert_eq!(u, "HTTPX"),
        other => panic!("expected a url, got {:?}", other),
    }
    assert!(Target::from_key("htt", "htt").is_none());
}
