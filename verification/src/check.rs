//! What a check reports, the errors it can meet, and the shape shared by the
//! checks that read one status feed.

pub mod statuspageio;
pub mod github;
pub mod slack;
pub mod aws;
pub mod url;

use vstd::prelude::*;
use vstd::string::StringExecFns;
use crate::json::Json;
use crate::registry::{ProviderKind, display_name, registry_key};
use crate::check::github::GitHubCheck;
use crate::check::slack::SlackCheck;
use crate::check::statuspageio::{StatusPageCheck, statuspage_url};
use crate::check::aws::{AwsCheck, aws_feed_url, aws_result, decode_result, decode_utf16};
use crate::check::url::{UrlCheck, url_outcomes};

verus! {

/// How a service is doing.
#[derive(PartialEq, Eq, Structural, Debug, Clone, Copy)]
pub enum CheckStatus {
    Up,
    Degraded,
    Down,
}

/// What one check found for one service: its name, its status and the
/// incidents that explain it.
#[derive(PartialEq, Debug, Clone)]
pub struct CheckOutcome {
    pub provider: String,
    pub status: CheckStatus,
    pub causes: Vec<String>,
}

/// A check outcome as plain values.
pub struct OutcomeView {
    pub provider: Seq<char>,
    pub status: CheckStatus,
    pub causes: Seq<Seq<char>>,
}

impl View for CheckOutcome {
    type V = OutcomeView;

    open spec fn view(&self) -> OutcomeView {
        OutcomeView { provider: self.provider@, status: self.status, causes: self.causes.deep_view() }
    }
}

/// The outcomes of a list, as plain values.
pub open spec fn outcomes_view(v: Seq<CheckOutcome>) -> Seq<OutcomeView> {
    v.map_values(|o: CheckOutcome| o@)
}

/// What a check gives back, as plain values.
pub open spec fn result_view(r: Result<Vec<CheckOutcome>, CheckError>) -> Result<Seq<OutcomeView>, CheckError> {
    match r {
        Ok(v) => Ok(outcomes_view(v@)),
        Err(e) => Err(e),
    }
}

/// Why a check could not report.
#[derive(PartialEq, Eq, Structural, Debug, Clone, Copy)]
pub enum CheckError {
    /// The feed could not be fetched, or answered with an error status.
    HttpError,
    /// The feed's body is not the JSON it should be.
    JsonError,
    /// The feed does not say what the check reads from it.
    ParseError,
}

impl CheckError {
    /// The message that describes this error.
    pub fn message(&self) -> (r: &'static str)
        ensures
            r@ == error_message(*self),
    {
        match self {
            CheckError::HttpError => "Connection error",
            CheckError::JsonError => "Invalid json",
            CheckError::ParseError => "Parse error",
        }
    }
}

/// The message of each error.
pub open spec fn error_message(e: CheckError) -> Seq<char> {
    match e {
        CheckError::HttpError => "Connection error"@,
        CheckError::JsonError => "Invalid json"@,
        CheckError::ParseError => "Parse error"@,
    }
}

/// A check that reads one service's status feed: where the feed is, how to
/// read its status, how to rate that status and which incidents it lists.
pub trait ProviderCheck {
    /// The name its outcome carries.
    spec fn provider_name(&self) -> Seq<char>;

    /// The address of its feed.
    spec fn feed_url(&self) -> Seq<char>;

    /// The status a feed's body states, if it states one.
    spec fn indicator(&self, value: Json) -> Option<Seq<char>>;

    /// How a stated status rates.
    spec fn level(&self, status: Seq<char>) -> CheckStatus;

    /// The incidents a feed's body lists, as cause texts.
    spec fn cause_list(&self, value: Json) -> Seq<Seq<char>>;

    fn provider(&self) -> (r: &'static str)
        ensures
            r@ == self.provider_name(),
    ;

    fn url(&self) -> (r: String)
        ensures
            r@ == self.feed_url(),
    ;

    fn parse_status(&self, value: &Json) -> (r: Result<String, CheckError>)
        ensures
            match self.indicator(*value) {
                Some(s) => (r matches Ok(t) && t@ == s),
                None => r == Err::<String, CheckError>(CheckError::ParseError),
            },
    ;

    fn map_status(&self, status: String) -> (r: CheckStatus)
        ensures
            r == self.level(status@),
    ;

    fn causes(&self, value: &Json) -> (r: Vec<String>)
        ensures
            r.deep_view() == self.cause_list(*value),
    ;
}

/// What a feed check reports on a body it has read: one outcome carrying
/// the provider's name, the rated status and the listed incidents; or a
/// parse error when the body states no status.
pub open spec fn feed_result<T: ProviderCheck>(check: T, value: Json) -> Result<Seq<OutcomeView>, CheckError> {
    match check.indicator(value) {
        Some(s) => Ok(seq![OutcomeView {
            provider: check.provider_name(),
            status: check.level(s),
            causes: check.cause_list(value),
        }]),
        None => Err(CheckError::ParseError),
    }
}

/// The outcome of a feed check, given the body the feed sent.
pub fn feed_outcomes<T: ProviderCheck>(check: &T, value: &Json) -> (r: Result<Vec<CheckOutcome>, CheckError>)
    ensures
        result_view(r) == feed_result(*check, *value),
{
    let status_string = match check.parse_status(value) {
        Ok(s) => s,
        Err(e) => {
            return Err(e);
        },
    };
    let provider = String::from_str(check.provider());
    let status = check.map_status(status_string);
    let causes = check.causes(value);
    let outcome = CheckOutcome { provider, status, causes };
    let mut outcomes: Vec<CheckOutcome> = Vec::new();
    outcomes.push(outcome);
    assert(outcomes_view(outcomes@) =~= seq![outcome@]);
    Ok(outcomes)
}


/// A check to run: the feed it reads and how it reads it.
pub enum Check {
    GitHub(GitHubCheck),
    Slack(SlackCheck),
    StatusPage(StatusPageCheck),
    Aws(AwsCheck),
    Url(UrlCheck),
}

/// A check as plain values.
pub enum CheckView {
    GitHub,
    Slack,
    StatusPage { provider: Seq<char>, host: Seq<char> },
    Aws,
    Url(Seq<char>),
}

impl View for Check {
    type V = CheckView;

    open spec fn view(&self) -> CheckView {
        match self {
            Check::GitHub(_) => CheckView::GitHub,
            Check::Slack(_) => CheckView::Slack,
            Check::StatusPage(s) => CheckView::StatusPage { provider: s.provider_spec(), host: s.host_spec() },
            Check::Aws(_) => CheckView::Aws,
            Check::Url(u) => CheckView::Url(u.address()),
        }
    }
}

/// The name and the Statuspage host of each service on Statuspage other
/// than GitHub.
pub open spec fn statuspage_site(kind: ProviderKind) -> (Seq<char>, Seq<char>) {
    match kind {
        ProviderKind::Atlassian => ("Atlassian"@, "status.atlassian.com"@),
        ProviderKind::CircleCI => ("CircleCI"@, "status.circleci.com"@),
        ProviderKind::Cloudflare => ("Cloudflare"@, "www.cloudflarestatus.com"@),
        ProviderKind::Datadog => ("Datadog"@, "status.datadoghq.com"@),
        ProviderKind::Discord => ("Discord"@, "discordstatus.com"@),
        ProviderKind::Linear => ("Linear"@, "linearstatus.com"@),
        ProviderKind::Netlify => ("Netlify"@, "www.netlifystatus.com"@),
        ProviderKind::Npm => ("npm"@, "status.npmjs.org"@),
        ProviderKind::OpenAI => ("OpenAI"@, "status.openai.com"@),
        ProviderKind::Vercel => ("Vercel"@, "www.vercel-status.com"@),
        _ => (Seq::empty(), Seq::empty()),
    }
}

/// The check that watches a known service.
pub open spec fn kind_check(kind: ProviderKind) -> CheckView {
    match kind {
        ProviderKind::GitHub => CheckView::GitHub,
        ProviderKind::Slack => CheckView::Slack,
        ProviderKind::Aws => CheckView::Aws,
        _ => CheckView::StatusPage { provider: statuspage_site(kind).0, host: statuspage_site(kind).1 },
    }
}

/// The address a check fetches.
pub open spec fn check_url(c: CheckView) -> Seq<char> {
    match c {
        CheckView::GitHub => statuspage_url("www.githubstatus.com"@),
        CheckView::Slack => "https://slack-status.com/api/v2.0.0/current"@,
        CheckView::StatusPage { host, .. } => statuspage_url(host),
        CheckView::Aws => aws_feed_url(),
        CheckView::Url(u) => u,
    }
}

/// The name a feed check gives its outcome; none for the checks whose
/// outcomes are named otherwise (AWS names each service, a web address
/// names itself).
pub open spec fn feed_provider(c: CheckView) -> Option<Seq<char>> {
    match c {
        CheckView::GitHub => Some("GitHub"@),
        CheckView::Slack => Some("Slack"@),
        CheckView::StatusPage { provider, .. } => Some(provider),
        _ => None,
    }
}

/// The name a feed check gives its outcome is the name the registry shows
/// for the service.
pub proof fn lemma_check_names_match_registry(kind: ProviderKind)
    ensures
        kind != ProviderKind::Aws ==> feed_provider(kind_check(kind)) == Some(display_name(kind)),
        kind == ProviderKind::Aws ==> kind_check(kind) == CheckView::Aws,
{
}

/// Whether `needle` occurs in `hay`.
pub open spec fn occurs_in(needle: Seq<char>, hay: Seq<char>) -> bool {
    exists|i: int| 0 <= i && i + needle.len() <= hay.len() && #[trigger] hay.subrange(i, i + needle.len()) == needle
}

/// A needle found at a position occurs in the hay.
proof fn lemma_occurs_at(needle: Seq<char>, hay: Seq<char>, i: int)
    requires
        0 <= i,
        i + needle.len() <= hay.len(),
        hay.subrange(i, i + needle.len()) == needle,
    ensures
        occurs_in(needle, hay),
{
}

/// Each service is checked on its own site, over HTTPS: the address its
/// check fetches begins with `https://` and holds the service's key.
pub proof fn lemma_feed_addresses(kind: ProviderKind)
    ensures
        "https://"@.is_prefix_of(check_url(kind_check(kind))),
        occurs_in(registry_key(kind), check_url(kind_check(kind))),
{
    match kind {
        ProviderKind::GitHub => {
            reveal_strlit("github");
            reveal_strlit("https://");
            reveal_strlit("www.githubstatus.com");
            reveal_strlit("/api/v2/summary.json");
            let u = check_url(kind_check(kind));
            assert(u.subrange(12, 18) =~= registry_key(kind));
            lemma_occurs_at(registry_key(kind), u, 12);
            assert(u.subrange(0, 8) =~= "https://"@);
        },
        ProviderKind::Slack => {
            reveal_strlit("slack");
            reveal_strlit("https://");
            reveal_strlit("https://slack-status.com/api/v2.0.0/current");
            let u = check_url(kind_check(kind));
            assert(u.subrange(8, 13) =~= registry_key(kind));
            lemma_occurs_at(registry_key(kind), u, 8);
            assert(u.subrange(0, 8) =~= "https://"@);
        },
        ProviderKind::Atlassian => {
            reveal_strlit("atlassian");
            reveal_strlit("https://");
            reveal_strlit("status.atlassian.com");
            reveal_strlit("/api/v2/summary.json");
            let u = check_url(kind_check(kind));
            assert(u.subrange(15, 24) =~= registry_key(kind));
            lemma_occurs_at(registry_key(kind), u, 15);
            assert(u.subrange(0, 8) =~= "https://"@);
        },
        ProviderKind::CircleCI => {
            reveal_strlit("circleci");
            reveal_strlit("https://");
            reveal_strlit("status.circleci.com");
            reveal_strlit("/api/v2/summary.json");
            let u = check_url(kind_check(kind));
            assert(u.subrange(15, 23) =~= registry_key(kind));
            lemma_occurs_at(registry_key(kind), u, 15);
            assert(u.subrange(0, 8) =~= "https://"@);
        },
        ProviderKind::Cloudflare => {
            reveal_strlit("cloudflare");
            reveal_strlit("https://");
            reveal_strlit("www.cloudflarestatus.com");
            reveal_strlit("/api/v2/summary.json");
            let u = check_url(kind_check(kind));
            assert(u.subrange(12, 22) =~= registry_key(kind));
            lemma_occurs_at(registry_key(kind), u, 12);
            assert(u.subrange(0, 8) =~= "https://"@);
        },
        ProviderKind::Datadog => {
            reveal_strlit("datadog");
            reveal_strlit("https://");
            reveal_strlit("status.datadoghq.com");
            reveal_strlit("/api/v2/summary.json");
            let u = check_url(kind_check(kind));
            assert(u.subrange(15, 22) =~= registry_key(kind));
            lemma_occurs_at(registry_key(kind), u, 15);
            assert(u.subrange(0, 8) =~= "https://"@);
        },
        ProviderKind::Discord => {
            reveal_strlit("discord");
            reveal_strlit("https://");
            reveal_strlit("discordstatus.com");
            reveal_strlit("/api/v2/summary.json");
            let u = check_url(kind_check(kind));
            assert(u.subrange(8, 15) =~= registry_key(kind));
            lemma_occurs_at(registry_key(kind), u, 8);
            assert(u.subrange(0, 8) =~= "https://"@);
        },
        ProviderKind::Linear => {
            reveal_strlit("linear");
            reveal_strlit("https://");
            reveal_strlit("linearstatus.com");
            reveal_strlit("/api/v2/summary.json");
            let u = check_url(kind_check(kind));
            assert(u.subrange(8, 14) =~= registry_key(kind));
            lemma_occurs_at(registry_key(kind), u, 8);
            assert(u.subrange(0, 8) =~= "https://"@);
        },
        ProviderKind::Netlify => {
            reveal_strlit("netlify");
            reveal_strlit("https://");
            reveal_strlit("www.netlifystatus.com");
            reveal_strlit("/api/v2/summary.json");
            let u = check_url(kind_check(kind));
            assert(u.subrange(12, 19) =~= registry_key(kind));
            lemma_occurs_at(registry_key(kind), u, 12);
            assert(u.subrange(0, 8) =~= "https://"@);
        },
        ProviderKind::Npm => {
            reveal_strlit("npm");
            reveal_strlit("https://");
            reveal_strlit("status.npmjs.org");
            reveal_strlit("/api/v2/summary.json");
            let u = check_url(kind_check(kind));
            assert(u.subrange(15, 18) =~= registry_key(kind));
            lemma_occurs_at(registry_key(kind), u, 15);
            assert(u.subrange(0, 8) =~= "https://"@);
        },
        ProviderKind::OpenAI => {
            reveal_strlit("openai");
            reveal_strlit("https://");
            reveal_strlit("status.openai.com");
            reveal_strlit("/api/v2/summary.json");
            let u = check_url(kind_check(kind));
            assert(u.subrange(15, 21) =~= registry_key(kind));
            lemma_occurs_at(registry_key(kind), u, 15);
            assert(u.subrange(0, 8) =~= "https://"@);
        },
        ProviderKind::Vercel => {
            reveal_strlit("vercel");
            reveal_strlit("https://");
            reveal_strlit("www.vercel-status.com");
            reveal_strlit("/api/v2/summary.json");
            let u = check_url(kind_check(kind));
            assert(u.subrange(12, 18) =~= registry_key(kind));
            lemma_occurs_at(registry_key(kind), u, 12);
            assert(u.subrange(0, 8) =~= "https://"@);
        },
        ProviderKind::Aws => {
            reveal_strlit("aws");
            reveal_strlit("https://");
            reveal_strlit("https://health.aws.amazon.com/public/currentevents");
            let u = check_url(kind_check(kind));
            assert(u.subrange(15, 18) =~= registry_key(kind));
            lemma_occurs_at(registry_key(kind), u, 15);
            assert(u.subrange(0, 8) =~= "https://"@);
        },
    }
}

/// A Statuspage feed is the service's `/api/v2/summary.json` over HTTPS:
/// its address is `https://`, the host, and that path, in this order.
pub proof fn lemma_statuspage_address(host: Seq<char>)
    ensures
        "https://"@.is_prefix_of(statuspage_url(host)),
        "/api/v2/summary.json"@.is_suffix_of(statuspage_url(host)),
        statuspage_url(host).subrange(8, 8 + host.len() as int) == host,
        statuspage_url(host).len() == host.len() + 28,
{
    reveal_strlit("https://");
    reveal_strlit("/api/v2/summary.json");
    let u = statuspage_url(host);
    assert(u.subrange(0, 8) =~= "https://"@);
    assert(u.subrange(8, 8 + host.len() as int) =~= host);
    assert(u.subrange(u.len() - 20, u.len() as int) =~= "/api/v2/summary.json"@);
}

impl ProviderKind {
    /// The check that watches this service.
    pub fn check(&self) -> (r: Check)
        ensures
            r@ == kind_check(*self),
    {
        match self {
            ProviderKind::GitHub => Check::GitHub(GitHubCheck),
            ProviderKind::Slack => Check::Slack(SlackCheck),
            ProviderKind::Atlassian => Check::StatusPage(StatusPageCheck::new("Atlassian", "status.atlassian.com")),
            ProviderKind::CircleCI => Check::StatusPage(StatusPageCheck::new("CircleCI", "status.circleci.com")),
            ProviderKind::Cloudflare => Check::StatusPage(StatusPageCheck::new("Cloudflare", "www.cloudflarestatus.com")),
            ProviderKind::Datadog => Check::StatusPage(StatusPageCheck::new("Datadog", "status.datadoghq.com")),
            ProviderKind::Discord => Check::StatusPage(StatusPageCheck::new("Discord", "discordstatus.com")),
            ProviderKind::Linear => Check::StatusPage(StatusPageCheck::new("Linear", "linearstatus.com")),
            ProviderKind::Netlify => Check::StatusPage(StatusPageCheck::new("Netlify", "www.netlifystatus.com")),
            ProviderKind::Npm => Check::StatusPage(StatusPageCheck::new("npm", "status.npmjs.org")),
            ProviderKind::OpenAI => Check::StatusPage(StatusPageCheck::new("OpenAI", "status.openai.com")),
            ProviderKind::Vercel => Check::StatusPage(StatusPageCheck::new("Vercel", "www.vercel-status.com")),
            ProviderKind::Aws => Check::Aws(AwsCheck),
        }
    }
}

/// What a fetch of a check's address brought back.
pub enum Reply {
    /// The request failed, or its body could not be read.
    Unreachable,
    /// The server answered with this status code and body.
    Received { status: u16, body: Vec<u8> },
}

/// What to do after a fetch.
pub enum Next {
    /// The check is over, with this result.
    Finished(Result<Vec<CheckOutcome>, CheckError>),
    /// Parse the received body as JSON and hand the value to `on_json`.
    ParseBody,
    /// Parse this decoded text as JSON and hand the value to `on_json`.
    ParseText(String),
}

/// What to do after a fetch, as plain values.
pub enum NextView {
    Finished(Result<Seq<OutcomeView>, CheckError>),
    ParseBody,
    ParseText(Seq<char>),
}

impl View for Next {
    type V = NextView;

    open spec fn view(&self) -> NextView {
        match self {
            Next::Finished(r) => NextView::Finished(result_view(*r)),
            Next::ParseBody => NextView::ParseBody,
            Next::ParseText(t) => NextView::ParseText(t@),
        }
    }
}

/// Whether a status code is a client or server error (400 to 599), which a
/// feed check takes as a failed fetch.
pub open spec fn error_status(status: u16) -> bool {
    400 <= status < 600
}

/// What a check does with a reply: a failed fetch is a connection error; a
/// web address is rated by the status code alone; a feed answered with an
/// error status is a connection error; a feed's body is parsed next (the
/// AWS feed's after it is decoded, a decoding failure being a parse error).
pub open spec fn reply_next(c: CheckView, reply: Reply) -> NextView {
    match reply {
        Reply::Unreachable => NextView::Finished(Err(CheckError::HttpError)),
        Reply::Received { status, body } => match c {
            CheckView::Url(u) => NextView::Finished(Ok(url_outcomes(u, status))),
            CheckView::Aws => if error_status(status) {
                NextView::Finished(Err(CheckError::HttpError))
            } else {
                match decode_result(body@) {
                    Ok(text) => NextView::ParseText(text),
                    Err(e) => NextView::Finished(Err(e)),
                }
            },
            _ => if error_status(status) {
                NextView::Finished(Err(CheckError::HttpError))
            } else {
                NextView::ParseBody
            },
        },
    }
}

/// What a check reports on its parsed body (`None` when the body is not
/// JSON): a feed whose body is not JSON failed to be read, which is a
/// connection error, and the AWS feed's a JSON error. A web-address check
/// parses no body; it is never asked.
pub open spec fn json_result(c: Check, parsed: Option<Json>) -> Result<Seq<OutcomeView>, CheckError> {
    match c {
        Check::GitHub(g) => match parsed {
            Some(v) => feed_result(g, v),
            None => Err(CheckError::HttpError),
        },
        Check::Slack(s) => match parsed {
            Some(v) => feed_result(s, v),
            None => Err(CheckError::HttpError),
        },
        Check::StatusPage(s) => match parsed {
            Some(v) => feed_result(s, v),
            None => Err(CheckError::HttpError),
        },
        Check::Aws(_) => match parsed {
            Some(v) => aws_result(v),
            None => Err(CheckError::JsonError),
        },
        Check::Url(_) => Err(CheckError::ParseError),
    }
}

/// A check that succeeds reports at least one outcome, whichever way it
/// ends: a web address and a feed exactly one, AWS one per impacted service
/// or the one that says it is up.
pub proof fn lemma_success_reports_something(check: Check, reply: Reply, parsed: Option<Json>)
    ensures
        reply_next(check@, reply) matches NextView::Finished(Ok(outcomes)) ==> outcomes.len() == 1,
        json_result(check, parsed) matches Ok(outcomes) ==> outcomes.len() >= 1,
        !(check is Aws) ==> (json_result(check, parsed) matches Ok(outcomes) ==> outcomes.len() == 1),
{
    match parsed {
        Some(Json::Array(items)) => {
            crate::check::aws::lemma_aws_outcomes_shape(items@);
        },
        _ => {},
    }
}

/// The AWS check fetches the AWS feed's address and nothing else; when the
/// feed answers with a status below 400 (or 600 and above) and a body that
/// decodes to text, that text is parsed next; and when the parsed text is an
/// array of events, the check reports the outcomes of those events.
pub proof fn lemma_aws_check_flow(check: Check, status: u16, body: Vec<u8>, events: Vec<Json>)
    requires
        check@ is Aws,
        !error_status(status),
        decode_result(body@) is Ok,
    ensures
        check_url(check@) == aws_feed_url(),
        reply_next(check@, Reply::Received { status, body }) == NextView::ParseText(decode_result(body@)->Ok_0),
        json_result(check, Some(Json::Array(events))) == Ok::<Seq<OutcomeView>, CheckError>(
            crate::check::aws::aws_outcomes(events@),
        ),
{
}

/// A Statuspage check fetches `https://<host>/api/v2/summary.json`; when
/// the feed answers with a status that is not an error, the body is parsed
/// next; and the parsed body yields the feed's single outcome, named after
/// the service.
pub proof fn lemma_statuspage_check_flow(check: StatusPageCheck, status: u16, body: Vec<u8>, value: Json)
    requires
        !error_status(status),
    ensures
        check_url(Check::StatusPage(check)@) == statuspage_url(check.host_spec()),
        reply_next(Check::StatusPage(check)@, Reply::Received { status, body }) == NextView::ParseBody,
        json_result(Check::StatusPage(check), Some(value)) == feed_result(check, value),
        feed_result(check, value) matches Ok(os) ==> os.len() == 1 && os[0].provider == check.provider_spec(),
{
}

/// A web-address check is over once the server answers: it reports one
/// outcome named by the address, with no causes, up exactly when the code is
/// `200` and down for every other code; an unanswered fetch is a connection
/// error.
pub proof fn lemma_url_check_reply(url: Seq<char>, status: u16, body: Vec<u8>)
    ensures
        reply_next(CheckView::Url(url), Reply::Unreachable) == NextView::Finished(
            Err::<Seq<OutcomeView>, CheckError>(CheckError::HttpError),
        ),
        reply_next(CheckView::Url(url), Reply::Received { status, body }) matches NextView::Finished(Ok(os))
            && os.len() == 1 && os[0].provider == url && os[0].causes.len() == 0
            && (os[0].status == CheckStatus::Up <==> status == 200)
            && (os[0].status == CheckStatus::Down <==> status != 200),
        check_url(CheckView::Url(url)) == url,
{
    crate::check::url::lemma_url_rating(url, status);
}

/// A fetch that fails is a connection error for every check; a feed (of a
/// service or of AWS) answered with a client or server error status, 400 to
/// 599, is a connection error too, and answered with any other status has
/// its body read next.
pub proof fn lemma_reply_status(check: CheckView, status: u16, body: Vec<u8>)
    ensures
        reply_next(check, Reply::Unreachable) == NextView::Finished(Err::<Seq<OutcomeView>, CheckError>(CheckError::HttpError)),
        !(check is Url) && 400 <= status && status < 600 ==> reply_next(check, Reply::Received { status, body })
            == NextView::Finished(Err::<Seq<OutcomeView>, CheckError>(CheckError::HttpError)),
        !(check is Url) && !(check is Aws) && (status < 400 || status >= 600) ==> reply_next(
            check,
            Reply::Received { status, body },
        ) == NextView::ParseBody,
        check is Aws && (status < 400 || status >= 600) ==> (reply_next(check, Reply::Received { status, body })
            is ParseText || reply_next(check, Reply::Received { status, body }) == NextView::Finished(
            Err::<Seq<OutcomeView>, CheckError>(CheckError::ParseError),
        )),
{
}

/// A feed check, given a body whose status it reads as `s`, reports
/// exactly one outcome: the provider's name, the rating of `s`, and the
/// incidents the body lists; a body without a status is a parse error.
pub proof fn lemma_feed_result<T: ProviderCheck>(check: T, value: Json)
    ensures
        check.indicator(value) matches Some(s) ==> feed_result(check, value) == Ok::<Seq<OutcomeView>, CheckError>(
            seq![OutcomeView {
                provider: check.provider_name(),
                status: check.level(s),
                causes: check.cause_list(value),
            }],
        ),
        check.indicator(value) is None ==> feed_result(check, value) == Err::<Seq<OutcomeView>, CheckError>(
            CheckError::ParseError,
        ),
{
}

/// GitHub's and Slack's checks each fetch their own feed; a reply that is
/// not an error has its body parsed next; and the parsed body gives that
/// feed's result.
pub proof fn lemma_github_slack_check_flow(status: u16, body: Vec<u8>, value: Json)
    requires
        !error_status(status),
    ensures
        check_url(Check::GitHub(GitHubCheck)@) == GitHubCheck.feed_url(),
        check_url(Check::Slack(SlackCheck)@) == SlackCheck.feed_url(),
        reply_next(Check::GitHub(GitHubCheck)@, Reply::Received { status, body: body }) == NextView::ParseBody,
        reply_next(Check::Slack(SlackCheck)@, Reply::Received { status, body: body }) == NextView::ParseBody,
        json_result(Check::GitHub(GitHubCheck), Some(value)) == feed_result(GitHubCheck, value),
        json_result(Check::Slack(SlackCheck), Some(value)) == feed_result(SlackCheck, value),
{
}

impl Check {
    /// The address to fetch.
    pub fn url(&self) -> (r: String)
        ensures
            r@ == check_url(self@),
    {
        match self {
            Check::GitHub(g) => g.url(),
            Check::Slack(s) => s.url(),
            Check::StatusPage(s) => s.url(),
            Check::Aws(a) => a.url(),
            Check::Url(u) => u.url(),
        }
    }

    /// Whether the check reads the body of the reply (a web address is rated
    /// by its status code alone).
    pub fn reads_body(&self) -> (r: bool)
        ensures
            r == !(self@ is Url),
    {
        match self {
            Check::Url(_) => false,
            _ => true,
        }
    }

    /// Whether the check decodes the body it receives (only the AWS feed's
    /// body is decoded before it is parsed).
    pub fn decodes_body(&self) -> (r: bool)
        ensures
            r == (self@ is Aws),
    {
        match self {
            Check::Aws(_) => true,
            _ => false,
        }
    }

    /// What to do with the reply to a fetch of `self.url()`.
    pub fn on_reply(&self, reply: &Reply) -> (r: Next)
        requires
            self@ is Aws ==> (reply matches Reply::Received { status, body } ==> (!error_status(*status)
                ==> body@.len() <= usize::MAX / 16)),
        ensures
            r@ == reply_next(self@, *reply),
    {
        match reply {
            Reply::Unreachable => Next::Finished(Err(CheckError::HttpError)),
            Reply::Received { status, body } => match self {
                Check::Url(u) => Next::Finished(Ok(u.outcomes(*status))),
                Check::Aws(_) => {
                    if 400 <= *status && *status < 600 {
                        Next::Finished(Err(CheckError::HttpError))
                    } else {
                        match decode_utf16(body.as_slice()) {
                            Ok(text) => Next::ParseText(text),
                            Err(e) => Next::Finished(Err(e)),
                        }
                    }
                },
                _ => {
                    if 400 <= *status && *status < 600 {
                        Next::Finished(Err(CheckError::HttpError))
                    } else {
                        Next::ParseBody
                    }
                },
            },
        }
    }

    /// The result of a feed check once its body was parsed (`None` when it
    /// was not JSON).
    pub fn on_json(&self, parsed: Option<Json>) -> (r: Result<Vec<CheckOutcome>, CheckError>)
        requires
            !(self@ is Url),
        ensures
            result_view(r) == json_result(*self, parsed),
    {
        match self {
            Check::GitHub(g) => match parsed {
                Some(v) => feed_outcomes(g, &v),
                None => Err(CheckError::HttpError),
            },
            Check::Slack(s) => match parsed {
                Some(v) => feed_outcomes(s, &v),
                None => Err(CheckError::HttpError),
            },
            Check::StatusPage(s) => match parsed {
                Some(v) => feed_outcomes(s, &v),
                None => Err(CheckError::HttpError),
            },
            Check::Aws(a) => match parsed {
                Some(v) => a.outcomes(&v),
                None => Err(CheckError::JsonError),
            },
            Check::Url(_) => Err(CheckError::ParseError),
        }
    }
}

} // verus!
