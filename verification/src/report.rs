//! How the results are laid out for reading: the width of the name column.

use vstd::prelude::*;
use vstd::utf8::encode_utf8;
use crate::check::{CheckError, CheckOutcome, OutcomeView};
use crate::planner::single_results_view;

verus! {

/// The widest name column there is.
pub open spec fn max_label_width() -> nat {
    40
}

/// The length of a text in UTF-8 bytes.
pub open spec fn byte_len(s: Seq<char>) -> nat {
    encode_utf8(s).len()
}

/// The longest provider name (in bytes) among the outcomes; 0 when there is none.
pub open spec fn widest_name(results: Seq<Result<OutcomeView, CheckError>>) -> nat
    decreases results.len(),
{
    if results.len() == 0 {
        0
    } else {
        let prev = widest_name(results.drop_last());
        let here = match results.last() {
            Ok(o) => byte_len(o.provider),
            Err(_) => 0,
        };
        if here > prev { here } else { prev }
    }
}

/// The widest name is as wide as every name among the outcomes, and is the
/// width of one of them (or 0 when there is none).
pub proof fn lemma_widest_name(results: Seq<Result<OutcomeView, CheckError>>)
    ensures
        forall|k: int| 0 <= k < results.len() ==> (#[trigger] results[k] matches Ok(o) ==> byte_len(o.provider) <= widest_name(results)),
        widest_name(results) == 0 || exists|k: int| 0 <= k < results.len() && (#[trigger] results[k] matches Ok(o)
            && byte_len(o.provider) == widest_name(results)),
    decreases results.len(),
{
    if results.len() > 0 {
        let prev = results.drop_last();
        lemma_widest_name(prev);
        assert forall|k: int| 0 <= k < results.len() implies (#[trigger] results[k] matches Ok(o) ==> byte_len(o.provider) <= widest_name(results)) by {
            if k < prev.len() {
                assert(prev[k] == results[k]);
            }
        }
        if widest_name(results) != 0 {
            let last = results[results.len() - 1];
            if last matches Ok(o) && byte_len(o.provider) == widest_name(results) {
                assert(results[results.len() - 1] matches Ok(o) && byte_len(o.provider) == widest_name(results));
            } else {
                let k = choose|k: int| 0 <= k < prev.len() && (#[trigger] prev[k] matches Ok(o)
                    && byte_len(o.provider) == widest_name(prev));
                assert(prev[k] == results[k]);
            }
        }
    }
}

/// The width of the name column: the longest provider name among the
/// outcomes, at most 40.
pub fn label_width(results: &[Result<CheckOutcome, CheckError>]) -> (r: usize)
    ensures
        r == (if widest_name(single_results_view(results@)) > max_label_width() {
            max_label_width()
        } else {
            widest_name(single_results_view(results@))
        }),
{
    let ghost all = single_results_view(results@);
    let n = results.len();
    let mut widest: usize = 0;
    let mut i: usize = 0;
    assert(all.take(0) =~= Seq::<Result<OutcomeView, CheckError>>::empty());
    while i < n
        invariant
            n == results@.len(),
            all == single_results_view(results@),
            i <= n,
            widest == widest_name(all.take(i as int)),
        decreases n - i,
    {
        assert(all.take(i + 1).drop_last() =~= all.take(i as int));
        assert(all.take(i + 1).last() == all[i as int]);
        let here: usize = match &results[i] {
            Ok(o) => {
                let name = o.provider.as_str();
                name.as_bytes().len()
            },
            Err(_) => 0,
        };
        if here > widest {
            widest = here;
        }
        i = i + 1;
    }
    assert(all.take(n as int) =~= all);
    if widest > 40 { 40 } else { widest }
}

} // verus!
