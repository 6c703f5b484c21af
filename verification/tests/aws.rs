use isdown::check::aws::{decode_utf16, map_status, parse_incidents, sniff_encoding, AwsCheck, TextEncoding};
use isdown::check::{CheckError, CheckStatus};
use isdown::json::Json;

fn text(s: &str) -> Json {
    Json::Str(s.to_string())
}

fn object(members: Vec<(&str, Json)>) -> Json {
    Json::Object(members.into_iter().map(|(k, v)| (k.to_string(), v)).collect())
}

fn service(name: &str) -> Json {
    object(vec![("service_name", text(name))])
}

#[test]
fn map_status_degraded() {
    assert_eq!(map_status("2"), CheckStatus::Degraded);
}

#[test]
fn map_status_down() {
    assert_eq!(map_status("3"), CheckStatus::Down);
}

#[test]
fn map_status_up_for_unknown_codes() {
    assert_eq!(map_status("0"), CheckStatus::Up);
    assert_eq!(map_status("1"), CheckStatus::Up);
    assert_eq!(map_status(""), CheckStatus::Up);
    assert_eq!(map_status("999"), CheckStatus::Up);
}

#[test]
fn decode_utf16_plain_utf8() {
    assert_eq!(decode_utf16(b"[]").unwrap(), "[]");
}

#[test]
fn decode_utf16_utf16le_bom() {
    let mut bytes = vec![0xFF, 0xFE];
    bytes.extend_from_slice(b"h\x00i\x00");
    assert_eq!(decode_utf16(&bytes).unwrap(), "hi");
}

#[test]
fn decode_utf16_utf16be_bom() {
    let mut bytes = vec![0xFE, 0xFF];
    bytes.extend_from_slice(b"\x00h\x00i");
    assert_eq!(decode_utf16(&bytes).unwrap(), "hi");
}

#[test]
fn decode_utf16_malformed_is_parse_error() {
    assert_eq!(decode_utf16(&[0x5B, 0xFF, 0x5D]), Err(CheckError::ParseError));
    let mut bytes = vec![0xFF, 0xFE];
    bytes.extend_from_slice(&[0x00, 0xD8]);
    assert_eq!(decode_utf16(&bytes), Err(CheckError::ParseError));
}

#[test]
fn decode_utf16_utf8_bom_is_dropped() {
    assert_eq!(decode_utf16(&[0xEF, 0xBB, 0xBF, b'[', b']']).unwrap(), "[]");
}

#[test]
fn sniff_encoding_reads_the_bom() {
    assert_eq!(sniff_encoding(&[0xFF, 0xFE, 0x00]), TextEncoding::Utf16Le);
    assert_eq!(sniff_encoding(&[0xFE, 0xFF]), TextEncoding::Utf16Be);
    assert_eq!(sniff_encoding(&[0xFF]), TextEncoding::Utf8);
    assert_eq!(sniff_encoding(b"[]"), TextEncoding::Utf8);
}

#[test]
fn parse_incidents_empty_is_up() {
    let outcomes = parse_incidents(&[]);
    assert_eq!(outcomes.len(), 1);
    assert_eq!(outcomes[0].status, CheckStatus::Up);
    assert_eq!(outcomes[0].provider, "AWS");
}

#[test]
fn parse_incidents_single_incident() {
    let incidents = vec![object(vec![
        ("summary", text("S3 errors")),
        ("region_name", text("us-east-1")),
        ("status", text("3")),
        ("impacted_services", object(vec![("s3", service("Amazon S3"))])),
    ])];
    let outcomes = parse_incidents(&incidents);
    assert_eq!(outcomes.len(), 1);
    assert_eq!(outcomes[0].provider, "Amazon S3");
    assert_eq!(outcomes[0].status, CheckStatus::Down);
    assert_eq!(outcomes[0].causes, vec!["S3 errors (us-east-1)"]);
}

#[test]
fn parse_incidents_multiple_impacted_services() {
    let incidents = vec![object(vec![
        ("summary", text("Networking issue")),
        ("region_name", text("eu-west-1")),
        ("status", text("2")),
        (
            "impacted_services",
            object(vec![("ec2", service("Amazon EC2")), ("elb", service("Elastic Load Balancing"))]),
        ),
    ])];
    let outcomes = parse_incidents(&incidents);
    assert_eq!(outcomes.len(), 2);
    assert!(outcomes.iter().all(|o| o.status == CheckStatus::Degraded));
    let names: Vec<&str> = outcomes.iter().map(|o| o.provider.as_str()).collect();
    assert!(names.contains(&"Amazon EC2"));
    assert!(names.contains(&"Elastic Load Balancing"));
}

#[test]
fn parse_incidents_skips_incident_without_impacted_services() {
    let incidents = vec![
        object(vec![("summary", text("No services listed")), ("status", text("3"))]),
        object(vec![
            ("summary", text("Real issue")),
            ("region_name", text("us-west-2")),
            ("status", text("3")),
            ("impacted_services", object(vec![("lambda", service("AWS Lambda"))])),
        ]),
    ];
    let outcomes = parse_incidents(&incidents);
    assert_eq!(outcomes.len(), 1);
    assert_eq!(outcomes[0].provider, "AWS Lambda");
}

#[test]
fn parse_incidents_all_skipped_falls_back_to_up() {
    let incidents = vec![object(vec![("summary", text("No services listed")), ("status", text("3"))])];
    let outcomes = parse_incidents(&incidents);
    assert_eq!(outcomes.len(), 1);
    assert_eq!(outcomes[0].status, CheckStatus::Up);
    assert_eq!(outcomes[0].provider, "AWS");
}

#[test]
fn parse_incidents_fills_in_missing_fields() {
    let incidents = vec![object(vec![
        ("status", Json::Number("3".to_string())),
        ("impacted_services", object(vec![("x", object(vec![])), ("y", service("Amazon SQS"))])),
    ])];
    let outcomes = parse_incidents(&incidents);
    assert_eq!(outcomes.len(), 2);
    assert_eq!(outcomes[0].provider, "Unknown service");
    assert_eq!(outcomes[1].provider, "Amazon SQS");
    for o in &outcomes {
        assert_eq!(o.status, CheckStatus::Up);
        assert_eq!(o.causes, vec!["Unknown issue (Unknown region)"]);
    }
}

#[test]
fn parse_incidents_keeps_event_order() {
    let incidents = vec![
        object(vec![
            ("summary", text("A")),
            ("region_name", text("r1")),
            ("status", text("2")),
            ("impacted_services", object(vec![("a", service("One"))])),
        ]),
        object(vec![("impacted_services", text("not an object"))]),
        object(vec![
            ("summary", text("B")),
            ("region_name", text("r2")),
            ("status", text("3")),
            ("impacted_services", object(vec![("b", service("Two")), ("c", service("Three"))])),
        ]),
    ];
    let outcomes = parse_incidents(&incidents);
    let names: Vec<&str> = outcomes.iter().map(|o| o.provider.as_str()).collect();
    assert_eq!(names, vec!["One", "Two", "Three"]);
    assert_eq!(outcomes[0].status, CheckStatus::Degraded);
    assert_eq!(outcomes[0].causes, vec!["A (r1)"]);
    assert_eq!(outcomes[2].status, CheckStatus::Down);
    assert_eq!(outcomes[2].causes, vec!["B (r2)"]);
}

#[test]
fn aws_check_needs_an_array() {
    assert_eq!(AwsCheck.outcomes(&object(vec![])), Err(CheckError::JsonError));
    let ok = AwsCheck.outcomes(&Json::Array(vec![])).unwrap();
    assert_eq!(ok.len(), 1);
    assert_eq!(ok[0].provider, "AWS");
    assert_eq!(AwsCheck.url(), "https://health.aws.amazon.com/public/currentevents");
}

#[test]
fn check_parses_http_response() {
    let check = isdown::registry::ProviderKind::Aws.check();
    let next = check.on_reply(&isdown::check::Reply::Received { status: 200, body: b"[]".to_vec() });
    let json_str = match next {
        isdown::check::Next::ParseText(t) => t,
        _ => panic!("expected text to parse"),
    };
    assert_eq!(json_str, "[]");
    let outcomes = check.on_json(Some(Json::Array(vec![]))).unwrap();

    assert_eq!(outcomes.len(), 1);
    assert_eq!(outcomes[0].status, CheckStatus::Up);
}

#[test]
fn decode_utf16_round_trips() {
    for s in ["", "[]", "héllo wörld", "𝄞 clef and 😀", "\u{FEFF}starts with a mark"] {
        let mut le = vec![0xFF, 0xFE];
        let mut be = vec![0xFE, 0xFF];
        for u in s.encode_utf16() {
            le.extend_from_slice(&u.to_le_bytes());
            be.extend_from_slice(&u.to_be_bytes());
        }
        assert_eq!(decode_utf16(&le).unwrap(), s);
        assert_eq!(decode_utf16(&be).unwrap(), s);
        if !s.starts_with('\u{FEFF}') {
            assert_eq!(decode_utf16(s.as_bytes()).unwrap(), s);
        }
    }
}
