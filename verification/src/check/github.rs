//! GitHub, whose status page is on Statuspage at `www.githubstatus.com`.

use vstd::prelude::*;
use vstd::string::StringExecFns;
use crate::check::{CheckError, CheckStatus, ProviderCheck};
use crate::check::statuspageio::{
    statuspage_url, statuspage_indicator, statuspage_level, listed_causes,
    statuspage_parse_status, statuspage_map_status, incident_causes,
};
use crate::json::Json;

verus! {

/// The check of GitHub's status.
pub struct GitHubCheck;

impl ProviderCheck for GitHubCheck {
    open spec fn provider_name(&self) -> Seq<char> {
        "GitHub"@
    }

    open spec fn feed_url(&self) -> Seq<char> {
        statuspage_url("www.githubstatus.com"@)
    }

    open spec fn indicator(&self, value: Json) -> Option<Seq<char>> {
        statuspage_indicator(value)
    }

    open spec fn level(&self, status: Seq<char>) -> CheckStatus {
        statuspage_level(status)
    }

    open spec fn cause_list(&self, value: Json) -> Seq<Seq<char>> {
        listed_causes(value, "incidents"@, "name"@)
    }

    fn provider(&self) -> (r: &'static str) {
        "GitHub"
    }

    fn url(&self) -> (r: String) {
        String::from_str("https://").concat("www.githubstatus.com").concat("/api/v2/summary.json")
    }

    fn parse_status(&self, value: &Json) -> (r: Result<String, CheckError>) {
        statuspage_parse_status(value)
    }

    fn map_status(&self, status: String) -> (r: CheckStatus) {
        statuspage_map_status(status.as_str())
    }

    fn causes(&self, value: &Json) -> (r: Vec<String>) {
        incident_causes(value, "incidents", "name")
    }
}

} // verus!
