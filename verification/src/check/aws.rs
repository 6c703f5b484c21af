//! AWS, whose health dashboard publishes the current events as a JSON array
//! (sent in UTF-16 with a byte-order mark). Each event names the services it
//! impacts; each impacted service becomes one outcome.

use vstd::prelude::*;
use vstd::string::StringExecFns;
use crate::check::{CheckError, CheckOutcome, CheckStatus, OutcomeView, outcomes_view};
use crate::json::{Json, str_field, object_field};
use crate::text::{str_eq, cause, cause_text};
use vstd::utf8::{valid_utf8, decode_utf8, encode_utf8};

verus! {

/// The address of the AWS current-events feed.
pub open spec fn aws_feed_url() -> Seq<char> {
    "https://health.aws.amazon.com/public/currentevents"@
}

/// How an AWS event status code rates: `2` is degraded, `3` is down,
/// anything else is up.
pub open spec fn aws_level(code: Seq<char>) -> CheckStatus {
    if code == "2"@ {
        CheckStatus::Degraded
    } else if code == "3"@ {
        CheckStatus::Down
    } else {
        CheckStatus::Up
    }
}

/// A text if there is one, else a default.
pub open spec fn or_default(o: Option<Seq<char>>, default: Seq<char>) -> Seq<char> {
    match o {
        Some(t) => t,
        None => default,
    }
}

/// The outcome of one impacted service of an event.
pub open spec fn service_outcome(service: Json, status: CheckStatus, why: Seq<char>) -> OutcomeView {
    OutcomeView {
        provider: or_default(str_field(service, "service_name"@), "Unknown service"@),
        status: status,
        causes: seq![why],
    }
}

/// The outcomes of an event's impacted services, in their order.
pub open spec fn services_outcomes(services: Seq<(String, Json)>, status: CheckStatus, why: Seq<char>) -> Seq<OutcomeView> {
    services.map_values(|e: (String, Json)| service_outcome(e.1, status, why))
}

/// The status an event states (code `0` when it states none), rated.
pub open spec fn incident_level(incident: Json) -> CheckStatus {
    aws_level(or_default(str_field(incident, "status"@), "0"@))
}

/// The cause text of an event: its summary and its region.
pub open spec fn incident_why(incident: Json) -> Seq<char> {
    cause_text(
        or_default(str_field(incident, "summary"@), "Unknown issue"@),
        or_default(str_field(incident, "region_name"@), "Unknown region"@),
    )
}

/// The outcomes of one event: one per impacted service; none when the event
/// has no object of impacted services.
pub open spec fn incident_outcomes(incident: Json) -> Seq<OutcomeView> {
    match object_field(incident, "impacted_services"@) {
        Some(services) => services_outcomes(services, incident_level(incident), incident_why(incident)),
        None => seq![],
    }
}

/// The outcomes of all events, in order.
pub open spec fn events_outcomes(incidents: Seq<Json>) -> Seq<OutcomeView>
    decreases incidents.len(),
{
    if incidents.len() == 0 {
        seq![]
    } else {
        events_outcomes(incidents.drop_last()) + incident_outcomes(incidents.last())
    }
}

/// The single outcome that says AWS is up.
pub open spec fn aws_all_clear() -> OutcomeView {
    OutcomeView { provider: "AWS"@, status: CheckStatus::Up, causes: seq![] }
}

/// What the AWS check reports on a list of events: the outcomes of the
/// impacted services, or that AWS is up when no event impacts a service.
pub open spec fn aws_outcomes(incidents: Seq<Json>) -> Seq<OutcomeView> {
    let all = events_outcomes(incidents);
    if all.len() == 0 {
        seq![aws_all_clear()]
    } else {
        all
    }
}

/// The number of services an event impacts (none without an object of them).
pub open spec fn impacted_count(incident: Json) -> nat {
    match object_field(incident, "impacted_services"@) {
        Some(services) => services.len(),
        None => 0,
    }
}

/// The number of services the events impact, all told.
pub open spec fn total_impacted(incidents: Seq<Json>) -> nat
    decreases incidents.len(),
{
    if incidents.len() == 0 {
        0
    } else {
        total_impacted(incidents.drop_last()) + impacted_count(incidents.last())
    }
}

/// The AWS check reports one outcome per impacted service, each with its
/// event's rated status and a single cause; and when no service is
/// impacted, exactly the one outcome that AWS is up. It never reports
/// nothing.
pub proof fn lemma_aws_outcomes_shape(incidents: Seq<Json>)
    ensures
        events_outcomes(incidents).len() == total_impacted(incidents),
        aws_outcomes(incidents).len() >= 1,
        total_impacted(incidents) == 0 ==> aws_outcomes(incidents) == seq![aws_all_clear()],
        total_impacted(incidents) > 0 ==> aws_outcomes(incidents).len() == total_impacted(incidents),
        forall|k: int| 0 <= k < events_outcomes(incidents).len() ==> (#[trigger] events_outcomes(incidents)[k]).causes.len() == 1,
    decreases incidents.len(),
{
    if incidents.len() > 0 {
        lemma_aws_outcomes_shape(incidents.drop_last());
        let prev = events_outcomes(incidents.drop_last());
        let last = incident_outcomes(incidents.last());
        assert forall|k: int| 0 <= k < events_outcomes(incidents).len() implies (#[trigger] events_outcomes(incidents)[k]).causes.len() == 1 by {
            if k < prev.len() {
                assert(events_outcomes(incidents)[k] == prev[k]);
            } else {
                assert(events_outcomes(incidents)[k] == last[k - prev.len()]);
            }
        }
    }
}

/// AWS event codes rate as the dashboard uses them: `2` exactly is
/// degraded, `3` exactly is down, and every other code is up; an event that
/// states no code (or no string code) is up. Every outcome of an event
/// carries that rating and the event's one cause.
pub proof fn lemma_aws_rating(code: Seq<char>, incident: Json)
    ensures
        aws_level(code) == CheckStatus::Degraded <==> code == "2"@,
        aws_level(code) == CheckStatus::Down <==> code == "3"@,
        aws_level(code) == CheckStatus::Up <==> (code != "2"@ && code != "3"@),
        incident_level(incident) == CheckStatus::Degraded <==> str_field(incident, "status"@) == Some("2"@),
        incident_level(incident) == CheckStatus::Down <==> str_field(incident, "status"@) == Some("3"@),
        incident_level(incident) == CheckStatus::Up <==> (str_field(incident, "status"@) != Some("2"@)
            && str_field(incident, "status"@) != Some("3"@)),
        incident_outcomes(incident).len() == impacted_count(incident),
        forall|k: int| 0 <= k < incident_outcomes(incident).len() ==> (#[trigger] incident_outcomes(incident)[k]).status
            == incident_level(incident) && incident_outcomes(incident)[k].causes == seq![incident_why(incident)],
{
    reveal_strlit("0");
    reveal_strlit("2");
    reveal_strlit("3");
    assert("2"@[0] != "3"@[0]);
    assert("0"@[0] != "2"@[0]);
    assert("0"@[0] != "3"@[0]);
}

/// What each AWS outcome says: the impacted service's `service_name` (or
/// `Unknown service`), and as its cause the event's `summary` (or `Unknown
/// issue`) with its `region_name` (or `Unknown region`); with nothing
/// impacted, the one outcome is `AWS`, up, with no causes.
pub proof fn lemma_aws_outcome_fields(incident: Json, k: int)
    ensures
        aws_all_clear().provider == "AWS"@,
        aws_all_clear().status == CheckStatus::Up,
        aws_all_clear().causes.len() == 0,
        object_field(incident, "impacted_services"@) matches Some(services) ==> (0 <= k < services.len() ==> (
            (str_field(services[k].1, "service_name"@) matches Some(n) ==> incident_outcomes(incident)[k].provider == n)
            && (str_field(services[k].1, "service_name"@) is None ==> incident_outcomes(incident)[k].provider == "Unknown service"@))),
        str_field(incident, "summary"@) matches Some(sm) ==> (str_field(incident, "region_name"@) matches Some(rg)
            ==> incident_why(incident) == cause_text(sm, rg)),
        str_field(incident, "summary"@) is None ==> (str_field(incident, "region_name"@) matches Some(rg)
            ==> incident_why(incident) == cause_text("Unknown issue"@, rg)),
        str_field(incident, "summary"@) matches Some(sm) ==> (str_field(incident, "region_name"@) is None
            ==> incident_why(incident) == cause_text(sm, "Unknown region"@)),
        str_field(incident, "summary"@) is None && str_field(incident, "region_name"@) is None
            ==> incident_why(incident) == cause_text("Unknown issue"@, "Unknown region"@),
{
}

/// Rates an AWS event status code.
pub fn map_status(code: &str) -> (r: CheckStatus)
    ensures
        r == aws_level(code@),
{
    if str_eq(code, "2") {
        CheckStatus::Degraded
    } else if str_eq(code, "3") {
        CheckStatus::Down
    } else {
        CheckStatus::Up
    }
}

/// The text of the member `key` when it is a string, else `default`.
fn str_or(value: &Json, key: &str, default: &str) -> (r: String)
    ensures
        r@ == or_default(str_field(*value, key@), default@),
{
    match value.get(key) {
        Some(v) => match v.as_str() {
            Some(t) => String::from_str(t),
            None => String::from_str(default),
        },
        None => String::from_str(default),
    }
}

/// The outcome that says AWS is up.
fn all_clear() -> (r: CheckOutcome)
    ensures
        r@ == aws_all_clear(),
{
    let r = CheckOutcome { provider: String::from_str("AWS"), status: CheckStatus::Up, causes: Vec::new() };
    assert(r.causes.deep_view() =~= Seq::<Seq<char>>::empty());
    r
}

/// Appends the outcomes of one event's impacted services.
fn push_services(out: &mut Vec<CheckOutcome>, services: &Vec<(String, Json)>, status: CheckStatus, why: &String)
    ensures
        outcomes_view(final(out)@) == outcomes_view(old(out)@) + services_outcomes(services@, status, why@),
{
    let ghost start = outcomes_view(out@);
    let n = services.len();
    let mut j: usize = 0;
    assert(services@.take(0) =~= Seq::<(String, Json)>::empty());
    assert(services_outcomes(services@.take(0), status, why@) =~= Seq::<OutcomeView>::empty());
    assert(start + Seq::<OutcomeView>::empty() =~= start);
    while j < n
        invariant
            n == services@.len(),
            j <= n,
            outcomes_view(out@) == start + services_outcomes(services@.take(j as int), status, why@),
        decreases n - j,
    {
        let service = &services[j].1;
        let provider = str_or(service, "service_name", "Unknown service");
        let mut causes: Vec<String> = Vec::new();
        causes.push(why.clone());
        assert(causes.deep_view() =~= seq![why@]);
        let o = CheckOutcome { provider, status, causes };
        assert(o@ == service_outcome(services@[j as int].1, status, why@));
        let ghost before = out@;
        out.push(o);
        assert(outcomes_view(out@) =~= outcomes_view(before) + seq![o@]);
        assert(services@.take(j + 1) =~= services@.take(j as int).push(services@[j as int]));
        assert(services_outcomes(services@.take(j + 1), status, why@) =~= services_outcomes(
            services@.take(j as int),
            status,
            why@,
        ).push(o@));
        j = j + 1;
    }
    assert(services@.take(n as int) =~= services@);
}

/// The outcomes of a list of AWS events: one per impacted service of each
/// event, in order, each with the event's rated status and the cause
/// `summary (region)`; events without an object of impacted services are
/// skipped; when no outcome results, the single outcome that AWS is up.
pub fn parse_incidents(incidents: &[Json]) -> (r: Vec<CheckOutcome>)
    ensures
        outcomes_view(r@) == aws_outcomes(incidents@),
{
    if incidents.len() == 0 {
        let mut r: Vec<CheckOutcome> = Vec::new();
        r.push(all_clear());
        assert(outcomes_view(r@) =~= seq![aws_all_clear()]);
        return r;
    }
    let mut outcomes: Vec<CheckOutcome> = Vec::new();
    let n = incidents.len();
    let mut i: usize = 0;
    assert(incidents@.take(0) =~= Seq::<Json>::empty());
    assert(outcomes_view(outcomes@) =~= Seq::<OutcomeView>::empty());
    while i < n
        invariant
            n == incidents@.len(),
            i <= n,
            outcomes_view(outcomes@) == events_outcomes(incidents@.take(i as int)),
        decreases n - i,
    {
        let incident = &incidents[i];
        assert(incidents@.take(i + 1).drop_last() =~= incidents@.take(i as int));
        assert(incidents@.take(i + 1).last() == *incident);
        match incident.get("impacted_services") {
            Some(v) => match v.as_object() {
                Some(services) => {
                    let summary = str_or(incident, "summary", "Unknown issue");
                    let region = str_or(incident, "region_name", "Unknown region");
                    let code = str_or(incident, "status", "0");
                    let status = map_status(code.as_str());
                    let why = cause(summary.as_str(), region.as_str());
                    push_services(&mut outcomes, services, status, &why);
                },
                None => {
                    assert(incident_outcomes(*incident) =~= Seq::<OutcomeView>::empty());
                },
            },
            None => {
                assert(incident_outcomes(*incident) =~= Seq::<OutcomeView>::empty());
            },
        }
        i = i + 1;
    }
    assert(incidents@.take(n as int) =~= incidents@);
    if outcomes.len() == 0 {
        outcomes.push(all_clear());
        assert(outcomes_view(outcomes@) =~= seq![aws_all_clear()]);
    }
    outcomes
}


/// A text encoding the AWS feed may come in.
#[derive(PartialEq, Eq, Structural, Debug, Clone, Copy)]
pub enum TextEncoding {
    Utf8,
    Utf16Le,
    Utf16Be,
}

/// The encoding a body's byte-order mark announces: `FF FE` is UTF-16LE,
/// `FE FF` is UTF-16BE, anything else is read as UTF-8.
pub open spec fn bom_encoding(bytes: Seq<u8>) -> TextEncoding {
    if bytes.len() >= 2 && bytes[0] == 0xFFu8 && bytes[1] == 0xFEu8 {
        TextEncoding::Utf16Le
    } else if bytes.len() >= 2 && bytes[0] == 0xFEu8 && bytes[1] == 0xFFu8 {
        TextEncoding::Utf16Be
    } else {
        TextEncoding::Utf8
    }
}

/// Whether a body begins with the UTF-8 byte-order mark `EF BB BF`.
pub open spec fn utf8_bom(bytes: Seq<u8>) -> bool {
    bytes.len() >= 3 && bytes[0] == 0xEFu8 && bytes[1] == 0xBBu8 && bytes[2] == 0xBFu8
}

/// The UTF-16 code units of a character: itself below U+10000, else a
/// surrogate pair.
pub open spec fn char_units(c: char) -> Seq<int> {
    let u = c as int;
    if u < 0x10000 {
        seq![u]
    } else {
        seq![0xD800 + (u - 0x10000) / 1024, 0xDC00 + (u - 0x10000) % 1024]
    }
}

/// A code unit as two bytes, low byte first.
pub open spec fn unit_le(u: int) -> Seq<u8> {
    seq![(u % 256) as u8, (u / 256) as u8]
}

/// A code unit as two bytes, high byte first.
pub open spec fn unit_be(u: int) -> Seq<u8> {
    seq![(u / 256) as u8, (u % 256) as u8]
}

/// The UTF-16LE encoding of a text.
pub open spec fn utf16le(t: Seq<char>) -> Seq<u8>
    decreases t.len(),
{
    if t.len() == 0 {
        seq![]
    } else {
        let us = char_units(t[0]);
        (if us.len() == 1 { unit_le(us[0]) } else { unit_le(us[0]) + unit_le(us[1]) }) + utf16le(t.drop_first())
    }
}

/// The UTF-16BE encoding of a text.
pub open spec fn utf16be(t: Seq<char>) -> Seq<u8>
    decreases t.len(),
{
    if t.len() == 0 {
        seq![]
    } else {
        let us = char_units(t[0]);
        (if us.len() == 1 { unit_be(us[0]) } else { unit_be(us[0]) + unit_be(us[1]) }) + utf16be(t.drop_first())
    }
}

/// The byte-order mark of UTF-16LE.
pub open spec fn bom_le() -> Seq<u8> {
    seq![0xFFu8, 0xFEu8]
}

/// The byte-order mark of UTF-16BE.
pub open spec fn bom_be() -> Seq<u8> {
    seq![0xFEu8, 0xFFu8]
}

/// What `encoding_rs::Encoding::decode` gives for an encoding and a body:
/// the decoded text, and whether malformed sequences were met.
pub uninterp spec fn decoded(encoding: TextEncoding, bytes: Seq<u8>) -> (Seq<char>, bool);

/// `encoding_rs::Encoding::decode` on the given encoding (with byte-order
/// mark sniffing, as that function does): the decoded text and whether
/// malformed sequences were replaced. The contract names the result, which
/// depends on the two arguments alone, and states the cases of well-formed
/// input: valid UTF-8 read as UTF-8, without the UTF-8 byte-order mark, is
/// its own text with no errors (no mark is sniffed, and the input is taken
/// as it is); and a UTF-16LE (UTF-16BE) byte-order mark followed by the
/// UTF-16LE (UTF-16BE) encoding of a text gives that text with no errors,
/// whatever the encoding asked for (the mark is sniffed and removed, and the
/// rest is decoded in the encoding it announces).
/// `decode` panics only when the size of its output buffer overflows
/// `usize`, which the bound on the input length rules out.
#[verifier::external_body]
fn decode_with(encoding: TextEncoding, bytes: &[u8]) -> (r: (String, bool))
    requires
        bytes@.len() <= usize::MAX / 16,
    ensures
        (r.0@, r.1) == decoded(encoding, bytes@),
        encoding == TextEncoding::Utf8 && valid_utf8(bytes@) && !utf8_bom(bytes@)
            ==> r.0@ == decode_utf8(bytes@) && !r.1,
        forall|t: Seq<char>| bytes@ == bom_le() + #[trigger] utf16le(t) ==> r.0@ == t && !r.1,
        forall|t: Seq<char>| bytes@ == bom_be() + #[trigger] utf16be(t) ==> r.0@ == t && !r.1,
{
    let enc = match encoding {
        TextEncoding::Utf8 => encoding_rs::UTF_8,
        TextEncoding::Utf16Le => encoding_rs::UTF_16LE,
        TextEncoding::Utf16Be => encoding_rs::UTF_16BE,
    };
    let (text, _, had_errors) = enc.decode(bytes);
    (text.into_owned(), had_errors)
}

/// The encoding a body's byte-order mark announces.
pub fn sniff_encoding(bytes: &[u8]) -> (r: TextEncoding)
    ensures
        r == bom_encoding(bytes@),
{
    if bytes.len() >= 2 && bytes[0] == 0xFFu8 && bytes[1] == 0xFEu8 {
        TextEncoding::Utf16Le
    } else if bytes.len() >= 2 && bytes[0] == 0xFEu8 && bytes[1] == 0xFFu8 {
        TextEncoding::Utf16Be
    } else {
        TextEncoding::Utf8
    }
}

/// The UTF-8 encoding of a text that does not begin with U+FEFF is valid
/// UTF-8, does not begin with the UTF-8 byte-order mark, and decodes to the
/// text.
pub proof fn lemma_utf8_round_trip(t: Seq<char>)
    requires
        t.len() == 0 || t[0] != '\u{FEFF}',
    ensures
        valid_utf8(encode_utf8(t)),
        !utf8_bom(encode_utf8(t)),
        decode_utf8(encode_utf8(t)) == t,
{
    vstd::utf8::encode_utf8_valid_utf8(t);
    vstd::utf8::encode_utf8_decode_utf8(t);
    let b = encode_utf8(t);
    if utf8_bom(b) {
        vstd::utf8::encode_utf8_first_scalar(t);
        assert(vstd::utf8::codepoint_width_3(0xEFu8, 0xBBu8, 0xBFu8) == 0xFEFFu32) by (bit_vector);
        vstd::utf8::char_u32_cast(t[0], 0xFEFFu32);
        assert(false);
    }
}

/// What decoding the AWS feed's body gives: its text, or a parse error when
/// the body holds malformed sequences.
pub open spec fn decode_result(bytes: Seq<u8>) -> Result<Seq<char>, CheckError> {
    let (text, had_errors) = decoded(bom_encoding(bytes), bytes);
    if had_errors {
        Err(CheckError::ParseError)
    } else {
        Ok(text)
    }
}

/// What becomes of a decoded body: its text, unless malformed sequences
/// were met, which is a parse error.
pub fn accept_decoded(text: String, had_errors: bool) -> (r: Result<String, CheckError>)
    ensures
        had_errors ==> r == Err::<String, CheckError>(CheckError::ParseError),
        !had_errors ==> (r matches Ok(s) && s@ == text@),
{
    if had_errors {
        return Err(CheckError::ParseError);
    }
    Ok(text)
}

/// Decodes the AWS feed's body in the encoding its byte-order mark
/// announces (UTF-8 when it has none).
pub fn decode_utf16(bytes: &[u8]) -> (r: Result<String, CheckError>)
    requires
        bytes@.len() <= usize::MAX / 16,
    ensures
        match decode_result(bytes@) {
            Ok(text) => (r matches Ok(s) && s@ == text),
            Err(e) => r == Err::<String, CheckError>(e),
        },
        valid_utf8(bytes@) && !utf8_bom(bytes@) ==> (r matches Ok(s) && s@ == decode_utf8(bytes@)),
        forall|t: Seq<char>| bytes@ == #[trigger] encode_utf8(t) && (t.len() == 0 || t[0] != '\u{FEFF}')
            ==> (r matches Ok(s) && s@ == t),
        forall|t: Seq<char>| bytes@ == bom_le() + #[trigger] utf16le(t) ==> (r matches Ok(s) && s@ == t),
        forall|t: Seq<char>| bytes@ == bom_be() + #[trigger] utf16be(t) ==> (r matches Ok(s) && s@ == t),
{
    proof {
        assert forall|t: Seq<char>| bytes@ == #[trigger] encode_utf8(t) && (t.len() == 0 || t[0] != '\u{FEFF}')
            implies valid_utf8(bytes@) && !utf8_bom(bytes@) && decode_utf8(bytes@) == t by {
            lemma_utf8_round_trip(t);
        }
    }
    let encoding = sniff_encoding(bytes);
    let (text, had_errors) = decode_with(encoding, bytes);
    accept_decoded(text, had_errors)
}

/// What the AWS check reports on the feed's parsed body: the outcomes of
/// its events when it is an array, else a JSON error.
pub open spec fn aws_result(value: Json) -> Result<Seq<OutcomeView>, CheckError> {
    match value {
        Json::Array(items) => Ok(aws_outcomes(items@)),
        _ => Err(CheckError::JsonError),
    }
}

/// The check of the services on AWS's health dashboard.
pub struct AwsCheck;

impl AwsCheck {
    /// The address of the feed.
    pub fn url(&self) -> (r: String)
        ensures
            r@ == aws_feed_url(),
    {
        String::from_str("https://health.aws.amazon.com/public/currentevents")
    }

    /// The outcomes of the feed's parsed body, which must be an array of events.
    pub fn outcomes(&self, value: &Json) -> (r: Result<Vec<CheckOutcome>, CheckError>)
        ensures
            crate::check::result_view(r) == aws_result(*value),
    {
        match value {
            Json::Array(items) => Ok(parse_incidents(items.as_slice())),
            _ => Err(CheckError::JsonError),
        }
    }
}

} // verus!
