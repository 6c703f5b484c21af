//! Slack, whose own status feed states a `status` (`ok` when all is well,
//! `active` while incidents are open) and lists `active_incidents`, each
//! with a `title` and a `status`.

use vstd::prelude::*;
use vstd::string::StringExecFns;
use crate::check::{CheckError, CheckStatus, ProviderCheck};
use crate::check::statuspageio::{listed_causes, incident_causes};
use crate::json::{Json, str_field};
use crate::text::str_eq;

verus! {

/// How a Slack status rates: `ok` is up; `active` (incidents are open) is
/// degraded; any other status is down.
pub open spec fn slack_level(status: Seq<char>) -> CheckStatus {
    if status == "ok"@ {
        CheckStatus::Up
    } else if status == "active"@ {
        CheckStatus::Degraded
    } else {
        CheckStatus::Down
    }
}

/// Slack's statuses rate as its feed documents them: `ok` exactly is up,
/// `active` exactly is degraded, and every other status is down.
pub proof fn lemma_slack_rating(s: Seq<char>)
    ensures
        SlackCheck.level(s) == CheckStatus::Up <==> s == "ok"@,
        SlackCheck.level(s) == CheckStatus::Degraded <==> s == "active"@,
        SlackCheck.level(s) == CheckStatus::Down <==> (s != "ok"@ && s != "active"@),
        SlackCheck.indicator(Json::Null) is None,
{
    reveal_strlit("ok");
    reveal_strlit("active");
    assert("ok"@.len() != "active"@.len());
}

/// The check of Slack's status.
pub struct SlackCheck;

impl ProviderCheck for SlackCheck {
    open spec fn provider_name(&self) -> Seq<char> {
        "Slack"@
    }

    open spec fn feed_url(&self) -> Seq<char> {
        "https://slack-status.com/api/v2.0.0/current"@
    }

    open spec fn indicator(&self, value: Json) -> Option<Seq<char>> {
        str_field(value, "status"@)
    }

    open spec fn level(&self, status: Seq<char>) -> CheckStatus {
        slack_level(status)
    }

    open spec fn cause_list(&self, value: Json) -> Seq<Seq<char>> {
        listed_causes(value, "active_incidents"@, "title"@)
    }

    fn provider(&self) -> (r: &'static str) {
        "Slack"
    }

    fn url(&self) -> (r: String) {
        String::from_str("https://slack-status.com/api/v2.0.0/current")
    }

    fn parse_status(&self, value: &Json) -> (r: Result<String, CheckError>) {
        match value.get("status") {
            Some(s) => match s.as_str() {
                Some(t) => Ok(String::from_str(t)),
                None => Err(CheckError::ParseError),
            },
            None => Err(CheckError::ParseError),
        }
    }

    fn map_status(&self, status: String) -> (r: CheckStatus) {
        if str_eq(status.as_str(), "ok") {
            CheckStatus::Up
        } else if str_eq(status.as_str(), "active") {
            CheckStatus::Degraded
        } else {
            CheckStatus::Down
        }
    }

    fn causes(&self, value: &Json) -> (r: Vec<String>) {
        incident_causes(value, "active_incidents", "title")
    }
}

} // verus!
