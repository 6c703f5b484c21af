//! Any web address: up when a GET answers `200 OK`, down otherwise.

use vstd::prelude::*;
use crate::check::{CheckOutcome, CheckStatus, OutcomeView, outcomes_view};

verus! {

/// What a check of `url` reports when the server answered with `status_code`.
pub open spec fn url_outcomes(url: Seq<char>, status_code: u16) -> Seq<OutcomeView> {
    seq![OutcomeView {
        provider: url,
        status: if status_code == 200 { CheckStatus::Up } else { CheckStatus::Down },
        causes: seq![],
    }]
}

/// A web address is rated by the status code alone: the check reports one
/// outcome, named by the address, with no causes, which is up exactly when
/// the server answered `200` and down for every other code.
pub proof fn lemma_url_rating(url: Seq<char>, status_code: u16)
    ensures
        url_outcomes(url, status_code).len() == 1,
        url_outcomes(url, status_code)[0].provider == url,
        url_outcomes(url, status_code)[0].causes.len() == 0,
        url_outcomes(url, status_code)[0].status == CheckStatus::Up <==> status_code == 200,
        url_outcomes(url, status_code)[0].status == CheckStatus::Down <==> status_code != 200,
{
}

/// The check of one web address.
pub struct UrlCheck {
    url: String,
}

impl UrlCheck {
    /// The check of `url`.
    pub fn new(url: String) -> (r: UrlCheck)
        ensures
            r.address() == url@,
    {
        UrlCheck { url }
    }

    /// The address it checks.
    pub closed spec fn address(&self) -> Seq<char> {
        self.url@
    }

    /// The address it checks.
    pub fn url(&self) -> (r: String)
        ensures
            r@ == self.address(),
    {
        self.url.clone()
    }

    /// The outcome of the check when the server answered with `status_code`:
    /// the address, up for `200` and down for any other code, no causes.
    pub fn outcomes(&self, status_code: u16) -> (r: Vec<CheckOutcome>)
        ensures
            outcomes_view(r@) == url_outcomes(self.address(), status_code),
    {
        let status = if status_code == 200 { CheckStatus::Up } else { CheckStatus::Down };
        let o = CheckOutcome { provider: self.url.clone(), status, causes: Vec::new() };
        assert(o.causes.deep_view() =~= Seq::<Seq<char>>::empty());
        let mut r: Vec<CheckOutcome> = Vec::new();
        r.push(o);
        assert(outcomes_view(r@) =~= url_outcomes(self.address(), status_code));
        r
    }
}

} // verus!
