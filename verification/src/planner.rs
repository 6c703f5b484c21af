//! Turns targets into checks, and gathers what the checks found.

use vstd::prelude::*;
use crate::check::{Check, CheckView, CheckError, CheckOutcome, OutcomeView, kind_check, outcomes_view, result_view};
use crate::check::url::UrlCheck;
use crate::target::{Target, TargetView};

verus! {

/// reqwest's HTTP client, which the planner carries for the fetches that
/// run its checks. Nothing in the library looks inside it.
#[verifier::external_type_specification]
#[verifier::external_body]
pub struct ExClient(reqwest::Client);

/// Plans checks for targets; its HTTP client runs them.
pub struct Planner {
    pub http_client: reqwest::Client,
}

/// The check planned for a target.
pub open spec fn planned(t: TargetView) -> CheckView {
    match t {
        TargetView::Provider { kind, .. } => kind_check(kind),
        TargetView::Url(u) => CheckView::Url(u),
    }
}

/// The check planned for a target watches what the target names: a
/// service other than AWS is checked through a feed that reports under the
/// service's own name, AWS through the AWS feed, and a web address through a
/// check of that very address.
pub proof fn lemma_plan_follows_target(t: TargetView)
    ensures
        t matches TargetView::Provider { name, kind } ==> (kind != crate::registry::ProviderKind::Aws
            && name == crate::registry::display_name(kind) ==> crate::check::feed_provider(planned(t)) == Some(name)),
        t matches TargetView::Provider { kind, .. } ==> (kind == crate::registry::ProviderKind::Aws
            ==> planned(t) == CheckView::Aws),
        t matches TargetView::Url(u) ==> (planned(t) == CheckView::Url(u) && crate::check::check_url(planned(t)) == u),
{
    match t {
        TargetView::Provider { kind, .. } => {
            crate::check::lemma_check_names_match_registry(kind);
        },
        _ => {},
    }
}

/// The results of the checks, one per outcome: each check's outcomes in
/// order, a failed check standing as its error.
pub open spec fn flattened(results: Seq<Result<Seq<OutcomeView>, CheckError>>) -> Seq<Result<OutcomeView, CheckError>>
    decreases results.len(),
{
    if results.len() == 0 {
        seq![]
    } else {
        let prev = flattened(results.drop_last());
        match results.last() {
            Ok(outcomes) => prev + outcomes.map_values(|o: OutcomeView| Ok::<OutcomeView, CheckError>(o)),
            Err(e) => prev.push(Err(e)),
        }
    }
}

/// A list of single results, as plain values.
pub open spec fn single_results_view(v: Seq<Result<CheckOutcome, CheckError>>) -> Seq<Result<OutcomeView, CheckError>> {
    v.map_values(|r: Result<CheckOutcome, CheckError>| match r {
        Ok(o) => Ok(o@),
        Err(e) => Err(e),
    })
}

/// The number of results a list of check results gives.
pub open spec fn result_count(results: Seq<Result<Seq<OutcomeView>, CheckError>>) -> nat
    decreases results.len(),
{
    if results.len() == 0 {
        0
    } else {
        result_count(results.drop_last()) + match results.last() {
            Ok(outcomes) => outcomes.len(),
            Err(_) => 1,
        }
    }
}

/// Each check gives as many results as it has outcomes, a failed one a
/// single error: the count adds up over the list.
pub proof fn lemma_flattened_count(results: Seq<Result<Seq<OutcomeView>, CheckError>>)
    ensures
        flattened(results).len() == result_count(results),
    decreases results.len(),
{
    if results.len() > 0 {
        lemma_flattened_count(results.drop_last());
    }
}

/// When every check gives at least one result, the list of results is at
/// least as long as the list of checks: no target goes unreported.
pub proof fn lemma_every_check_reported(results: Seq<Result<Seq<OutcomeView>, CheckError>>)
    requires
        forall|i: int| 0 <= i < results.len() ==> (#[trigger] results[i] matches Ok(os) ==> os.len() >= 1),
    ensures
        flattened(results).len() >= results.len(),
    decreases results.len(),
{
    lemma_flattened_count(results);
    if results.len() > 0 {
        let prev = results.drop_last();
        assert forall|i: int| 0 <= i < prev.len() implies (#[trigger] prev[i] matches Ok(os) ==> os.len() >= 1) by {
            assert(prev[i] == results[i]);
        }
        lemma_every_check_reported(prev);
        lemma_flattened_count(prev);
        assert(results.last() == results[results.len() - 1]);
    }
}

/// When each check gives one outcome or an error (as every feed check and
/// web-address check does), the results stand one per check, in the order
/// of the checks, each outcome or error in its check's place.
pub proof fn lemma_single_results_in_order(results: Seq<Result<Seq<OutcomeView>, CheckError>>)
    requires
        forall|i: int| 0 <= i < results.len() ==> (#[trigger] results[i] matches Ok(os) ==> os.len() == 1),
    ensures
        flattened(results).len() == results.len(),
        forall|i: int| 0 <= i < results.len() ==> (match #[trigger] results[i] {
            Ok(os) => flattened(results)[i] == Ok::<OutcomeView, CheckError>(os[0]),
            Err(e) => flattened(results)[i] == Err::<OutcomeView, CheckError>(e),
        }),
    decreases results.len(),
{
    if results.len() > 0 {
        let prev = results.drop_last();
        assert forall|i: int| 0 <= i < prev.len() implies (#[trigger] prev[i] matches Ok(os) ==> os.len() == 1) by {
            assert(prev[i] == results[i]);
        }
        lemma_single_results_in_order(prev);
        assert(results.last() == results[results.len() - 1]);
        assert forall|i: int| 0 <= i < results.len() implies (match #[trigger] results[i] {
            Ok(os) => flattened(results)[i] == Ok::<OutcomeView, CheckError>(os[0]),
            Err(e) => flattened(results)[i] == Err::<OutcomeView, CheckError>(e),
        }) by {
            if i < prev.len() {
                assert(prev[i] == results[i]);
            }
        }
    }
}

impl Planner {
    /// One check per target, in the order of the targets.
    pub fn plan(&self, targets: &[Target]) -> (r: Vec<Check>)
        ensures
            r@.len() == targets@.len(),
            forall|i: int| 0 <= i < targets@.len() ==> #[trigger] r@[i]@ == planned(targets@[i]@),
    {
        let mut checks: Vec<Check> = Vec::new();
        let n = targets.len();
        let mut i: usize = 0;
        while i < n
            invariant
                n == targets@.len(),
                i <= n,
                checks@.len() == i,
                forall|j: int| 0 <= j < i ==> #[trigger] checks@[j]@ == planned(targets@[j]@),
            decreases n - i,
        {
            let c = match &targets[i] {
                Target::Provider(details) => details.kind.check(),
                Target::Url(url) => Check::Url(UrlCheck::new(url.clone())),
            };
            checks.push(c);
            i = i + 1;
        }
        checks
    }
}

/// The results of the checks, one per outcome, in order: each check's
/// outcomes, or its error in its place.
pub fn gather(results: Vec<Result<Vec<CheckOutcome>, CheckError>>) -> (r: Vec<Result<CheckOutcome, CheckError>>)
    ensures
        single_results_view(r@) == flattened(results@.map_values(|x: Result<Vec<CheckOutcome>, CheckError>| result_view(x))),
{
    let ghost all = results@.map_values(|x: Result<Vec<CheckOutcome>, CheckError>| result_view(x));
    let mut out: Vec<Result<CheckOutcome, CheckError>> = Vec::new();
    let mut i: usize = 0;
    assert(all.take(0) =~= Seq::<Result<Seq<OutcomeView>, CheckError>>::empty());
    assert(single_results_view(out@) =~= Seq::<Result<OutcomeView, CheckError>>::empty());
    for item in it: results
        invariant
            all == it.seq().map_values(|x: Result<Vec<CheckOutcome>, CheckError>| result_view(x)),
            single_results_view(out@) == flattened(all.take(it.index() as int)),
    {
        let ghost k = it.index() as int;
        let ghost before = single_results_view(out@);
        assert(all.take(k + 1).drop_last() =~= all.take(k));
        assert(all.take(k + 1).last() == result_view(item));
        match item {
            Ok(outcomes) => {
                let ghost os = outcomes@;
                for o in jt: outcomes
                    invariant
                        os == jt.seq(),
                        single_results_view(out@) == before + outcomes_view(os.take(jt.index() as int)).map_values(
                            |v: OutcomeView| Ok::<OutcomeView, CheckError>(v),
                        ),
                {
                    let ghost m = jt.index() as int;
                    let ghost prev = out@;
                    out.push(Ok(o));
                    assert(single_results_view(out@) =~= single_results_view(prev).push(Ok(o@)));
                    assert(outcomes_view(os.take(m + 1)) =~= outcomes_view(os.take(m)).push(o@));
                    assert(outcomes_view(os.take(m + 1)).map_values(|v: OutcomeView| Ok::<OutcomeView, CheckError>(v))
                        =~= outcomes_view(os.take(m)).map_values(|v: OutcomeView| Ok::<OutcomeView, CheckError>(v)).push(Ok(o@)));
                }
                assert(os.take(os.len() as int) =~= os);
            },
            Err(e) => {
                let ghost prev = out@;
                out.push(Err(e));
                assert(single_results_view(out@) =~= single_results_view(prev).push(Err(e)));
            },
        }
    }
    assert(all.take(all.len() as int) =~= all);
    out
}

} // verus!
