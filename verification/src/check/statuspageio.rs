//! Services whose status page is hosted on Atlassian Statuspage: their feed
//! is `https://<host>/api/v2/summary.json`, its `status.indicator` rates the
//! service and its `incidents` list the causes.

use vstd::prelude::*;
use vstd::string::StringExecFns;
use crate::check::{CheckError, CheckStatus, ProviderCheck};
use crate::json::{Json, field, str_field, array_field};
use crate::text::{str_eq, cause, cause_text};

verus! {

/// The feed address of a Statuspage host.
pub open spec fn statuspage_url(host: Seq<char>) -> Seq<char> {
    "https://"@ + host + "/api/v2/summary.json"@
}

/// The indicator a Statuspage summary states under `status.indicator`.
pub open spec fn statuspage_indicator(value: Json) -> Option<Seq<char>> {
    match field(value, "status"@) {
        Some(s) => str_field(s, "indicator"@),
        None => None,
    }
}

/// How a Statuspage indicator rates: `none` is up, `minor` is degraded,
/// anything else is down.
pub open spec fn statuspage_level(indicator: Seq<char>) -> CheckStatus {
    if indicator == "none"@ {
        CheckStatus::Up
    } else if indicator == "minor"@ {
        CheckStatus::Degraded
    } else {
        CheckStatus::Down
    }
}

/// The cause text of one listed incident, when it has a string under
/// `name_key` and a string `status`.
pub open spec fn incident_cause(incident: Json, name_key: Seq<char>) -> Option<Seq<char>> {
    match (str_field(incident, name_key), str_field(incident, "status"@)) {
        (Some(name), Some(status)) => Some(cause_text(name, status)),
        _ => None,
    }
}

/// The cause texts of the listed incidents, in order, skipping the ones that
/// lack a name or a status.
pub open spec fn causes_of(items: Seq<Json>, name_key: Seq<char>) -> Seq<Seq<char>>
    decreases items.len(),
{
    if items.len() == 0 {
        seq![]
    } else {
        let prev = causes_of(items.drop_last(), name_key);
        match incident_cause(items.last(), name_key) {
            Some(c) => prev.push(c),
            None => prev,
        }
    }
}

/// The causes listed in the array `list_key` of a feed body; none when that
/// member is missing or not an array.
pub open spec fn listed_causes(value: Json, list_key: Seq<char>, name_key: Seq<char>) -> Seq<Seq<char>> {
    match array_field(value, list_key) {
        Some(items) => causes_of(items, name_key),
        None => seq![],
    }
}

/// Reads `status.indicator` from a Statuspage summary.
pub fn statuspage_parse_status(value: &Json) -> (r: Result<String, CheckError>)
    ensures
        match statuspage_indicator(*value) {
            Some(s) => (r matches Ok(t) && t@ == s),
            None => r == Err::<String, CheckError>(CheckError::ParseError),
        },
{
    match value.get("status") {
        Some(s) => match s.get("indicator") {
            Some(i) => match i.as_str() {
                Some(t) => Ok(String::from_str(t)),
                None => Err(CheckError::ParseError),
            },
            None => Err(CheckError::ParseError),
        },
        None => Err(CheckError::ParseError),
    }
}

/// Rates a Statuspage indicator.
pub fn statuspage_map_status(indicator: &str) -> (r: CheckStatus)
    ensures
        r == statuspage_level(indicator@),
{
    if str_eq(indicator, "none") {
        CheckStatus::Up
    } else if str_eq(indicator, "minor") {
        CheckStatus::Degraded
    } else {
        CheckStatus::Down
    }
}

/// The cause of one incident, if it has the fields that make one.
pub fn incident_cause_of(incident: &Json, name_key: &str) -> (r: Option<String>)
    ensures
        r is Some == incident_cause(*incident, name_key@) is Some,
        r is Some ==> r->0@ == incident_cause(*incident, name_key@)->0,
{
    let name = match incident.get(name_key) {
        Some(n) => match n.as_str() {
            Some(t) => t,
            None => {
                return None;
            },
        },
        None => {
            return None;
        },
    };
    let status = match incident.get("status") {
        Some(s) => match s.as_str() {
            Some(t) => t,
            None => {
                return None;
            },
        },
        None => {
            return None;
        },
    };
    Some(cause(name, status))
}

/// The causes listed under `list_key`, each named by its `name_key`.
pub fn incident_causes(value: &Json, list_key: &str, name_key: &str) -> (r: Vec<String>)
    ensures
        r.deep_view() == listed_causes(*value, list_key@, name_key@),
{
    let mut out: Vec<String> = Vec::new();
    let items = match value.get(list_key) {
        Some(l) => match l.as_array() {
            Some(items) => items,
            None => {
                assert(out.deep_view() =~= Seq::<Seq<char>>::empty());
                return out;
            },
        },
        None => {
            assert(out.deep_view() =~= Seq::<Seq<char>>::empty());
            return out;
        },
    };
    let n = items.len();
    let mut i: usize = 0;
    assert(items@.take(0) =~= Seq::<Json>::empty());
    assert(out.deep_view() =~= Seq::<Seq<char>>::empty());
    while i < n
        invariant
            n == items@.len(),
            i <= n,
            out.deep_view() == causes_of(items@.take(i as int), name_key@),
        decreases n - i,
    {
        assert(items@.take(i + 1).drop_last() =~= items@.take(i as int));
        assert(items@.take(i + 1).last() == items@[i as int]);
        match incident_cause_of(&items[i], name_key) {
            Some(c) => {
                let ghost before = out.deep_view();
                out.push(c);
                assert(out.deep_view() =~= before.push(c@));
            },
            None => {},
        }
        i = i + 1;
    }
    assert(items@.take(n as int) =~= items@);
    out
}

/// What the feed checks read: a Statuspage service's status is the string
/// `indicator` inside the `status` object, and its causes come from the
/// `incidents` array by `name`; Slack's status is the top-level string
/// `status`, and its causes come from `active_incidents` by `title`.
pub proof fn lemma_feed_fields(check: StatusPageCheck, value: Json)
    ensures
        field(value, "status"@) matches Some(o) ==> check.indicator(value) == str_field(o, "indicator"@),
        field(value, "status"@) is None ==> check.indicator(value) is None,
        check.cause_list(value) == listed_causes(value, "incidents"@, "name"@),
        crate::check::github::GitHubCheck.indicator(value) == check.indicator(value),
        crate::check::github::GitHubCheck.cause_list(value) == check.cause_list(value),
        crate::check::slack::SlackCheck.indicator(value) == str_field(value, "status"@),
        crate::check::slack::SlackCheck.cause_list(value) == listed_causes(value, "active_incidents"@, "title"@),
{
}

/// When every listed incident has a string name and a string status, the
/// causes are exactly their `name (status)` texts, one per incident, in
/// order; in any case there are no more causes than incidents.
pub proof fn lemma_causes_of(items: Seq<Json>, name_key: Seq<char>)
    ensures
        causes_of(items, name_key).len() <= items.len(),
        (forall|i: int| 0 <= i < items.len() ==> #[trigger] incident_cause(items[i], name_key) is Some) ==> (
            causes_of(items, name_key).len() == items.len()
            && forall|i: int| 0 <= i < items.len() ==> causes_of(items, name_key)[i] == cause_text(
                str_field(#[trigger] items[i], name_key)->0,
                str_field(items[i], "status"@)->0,
            )),
    decreases items.len(),
{
    if items.len() > 0 {
        let prev = items.drop_last();
        lemma_causes_of(prev, name_key);
        if forall|i: int| 0 <= i < items.len() ==> #[trigger] incident_cause(items[i], name_key) is Some {
            assert forall|i: int| 0 <= i < prev.len() implies #[trigger] incident_cause(prev[i], name_key) is Some by {
                assert(prev[i] == items[i]);
                assert(incident_cause(items[i], name_key) is Some);
            }
            assert(incident_cause(items[items.len() - 1], name_key) is Some);
            assert forall|i: int| 0 <= i < items.len() implies causes_of(items, name_key)[i] == cause_text(
                str_field(#[trigger] items[i], name_key)->0,
                str_field(items[i], "status"@)->0,
            ) by {
                if i < prev.len() {
                    assert(prev[i] == items[i]);
                }
            }
        }
    }
}

/// Statuspage indicators rate alike for every service on Statuspage: `none`
/// exactly is up, `minor` exactly is degraded, and every other indicator
/// (`major`, `critical`, or one the service invents) is down.
pub proof fn lemma_statuspage_rating(check: StatusPageCheck, s: Seq<char>)
    ensures
        check.level(s) == CheckStatus::Up <==> s == "none"@,
        check.level(s) == CheckStatus::Degraded <==> s == "minor"@,
        check.level(s) == CheckStatus::Down <==> (s != "none"@ && s != "minor"@),
        crate::check::github::GitHubCheck.level(s) == CheckStatus::Up <==> s == "none"@,
        crate::check::github::GitHubCheck.level(s) == CheckStatus::Degraded <==> s == "minor"@,
        crate::check::github::GitHubCheck.level(s) == CheckStatus::Down <==> (s != "none"@ && s != "minor"@),
{
    reveal_strlit("none");
    reveal_strlit("minor");
    assert("none"@.len() != "minor"@.len());
}

/// A service on Statuspage, known by the name its outcome carries and the
/// host that serves its status page.
pub struct StatusPageCheck {
    provider: &'static str,
    host: &'static str,
}

impl StatusPageCheck {
    /// The check of the service `provider`, whose status page `host` serves.
    pub fn new(provider: &'static str, host: &'static str) -> (r: StatusPageCheck)
        ensures
            r.provider_spec() == provider@,
            r.host_spec() == host@,
    {
        StatusPageCheck { provider, host }
    }

    /// The name its outcome carries.
    pub closed spec fn provider_spec(&self) -> Seq<char> {
        self.provider@
    }

    /// The host of its status page.
    pub closed spec fn host_spec(&self) -> Seq<char> {
        self.host@
    }

    /// The host of its status page.
    pub fn host(&self) -> (r: &'static str)
        ensures
            r@ == self.host_spec(),
    {
        self.host
    }
}

impl ProviderCheck for StatusPageCheck {
    open spec fn provider_name(&self) -> Seq<char> {
        self.provider_spec()
    }

    open spec fn feed_url(&self) -> Seq<char> {
        statuspage_url(self.host_spec())
    }

    open spec fn indicator(&self, value: Json) -> Option<Seq<char>> {
        statuspage_indicator(value)
    }

    open spec fn level(&self, status: Seq<char>) -> CheckStatus {
        statuspage_level(status)
    }

    open spec fn cause_list(&self, value: Json) -> Seq<Seq<char>> {
        listed_causes(value, "incidents"@, "name"@)
    }

    fn provider(&self) -> (r: &'static str) {
        self.provider
    }

    fn url(&self) -> (r: String) {
        String::from_str("https://").concat(self.host).concat("/api/v2/summary.json")
    }

    fn parse_status(&self, value: &Json) -> (r: Result<String, CheckError>) {
        statuspage_parse_status(value)
    }

    fn map_status(&self, status: String) -> (r: CheckStatus) {
        statuspage_map_status(status.as_str())
    }

    fn causes(&self, value: &Json) -> (r: Vec<String>) {
        incident_causes(value, "incidents", "name")
    }
}

} // verus!
