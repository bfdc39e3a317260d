//! Decoding a buffer of records: every record has to decode, and the first
//! one that does not decides the error.

use crate::error::Error;
use vstd::prelude::*;

verus! {

/// The outcomes of decoding the records of a buffer one by one, gathered:
/// all the decoded values in order, or the error of the first record that
/// failed.
pub open spec fn collect<T>(outcomes: Seq<Result<T, Error>>) -> Result<Seq<T>, Error>
    decreases outcomes.len(),
{
    if outcomes.len() == 0 {
        Ok(Seq::<T>::empty())
    } else {
        match collect(outcomes.drop_last()) {
            Err(e) => Err(e),
            Ok(values) => match outcomes.last() {
                Ok(value) => Ok(values.push(value)),
                Err(e) => Err(e),
            },
        }
    }
}

/// Where gathering succeeds, every record decoded, and the values stand in
/// the order of the records.
pub proof fn lemma_collect_ok<T>(outcomes: Seq<Result<T, Error>>)
    requires
        collect(outcomes) is Ok,
    ensures
        collect(outcomes).unwrap().len() == outcomes.len(),
        forall|i: int|
            0 <= i < outcomes.len() ==> outcomes[i] == Ok::<T, Error>(
                #[trigger] collect(outcomes).unwrap()[i],
            ),
    decreases outcomes.len(),
{
    if outcomes.len() > 0 {
        lemma_collect_ok(outcomes.drop_last());
    }
}

/// Where gathering fails, its error is that of the first record that failed.
pub proof fn lemma_collect_err<T>(outcomes: Seq<Result<T, Error>>) -> (at: int)
    requires
        collect(outcomes) is Err,
    ensures
        0 <= at < outcomes.len(),
        outcomes[at] is Err,
        outcomes[at]->Err_0 == collect(outcomes)->Err_0,
        forall|j: int| 0 <= j < at ==> (#[trigger] outcomes[j]) is Ok,
    decreases outcomes.len(),
{
    let front = outcomes.drop_last();
    if collect(front) is Err {
        let at = lemma_collect_err(front);
        assert forall|j: int| 0 <= j < at implies (#[trigger] outcomes[j]) is Ok by {
            assert(front[j] is Ok);
        }
        at
    } else {
        lemma_collect_ok(front);
        assert forall|j: int| 0 <= j < outcomes.len() - 1 implies (#[trigger] outcomes[j]) is Ok by {
            assert(front[j] == Ok::<T, Error>(collect(front).unwrap()[j]));
        }
        outcomes.len() - 1
    }
}

/// Gathering succeeds exactly where every record decodes.
pub proof fn lemma_collect_all_ok<T>(outcomes: Seq<Result<T, Error>>)
    requires
        forall|i: int| 0 <= i < outcomes.len() ==> (#[trigger] outcomes[i]) is Ok,
    ensures
        collect(outcomes) is Ok,
    decreases outcomes.len(),
{
    if outcomes.len() > 0 {
        lemma_collect_all_ok(outcomes.drop_last());
    }
}

/// A failure among the first `n` records is the failure of the whole buffer.
pub proof fn lemma_collect_prefix_err<T>(outcomes: Seq<Result<T, Error>>, n: int)
    requires
        0 <= n <= outcomes.len(),
        collect(outcomes.take(n)) is Err,
    ensures
        collect(outcomes) == collect(outcomes.take(n)),
    decreases outcomes.len() - n,
{
    if n < outcomes.len() {
        assert(outcomes.take(n + 1).drop_last() =~= outcomes.take(n));
        lemma_collect_prefix_err(outcomes, n + 1);
    } else {
        assert(outcomes.take(n) =~= outcomes);
    }
}

/// Gathering one record more: the step that a decoding loop takes.
pub proof fn lemma_collect_step<T>(outcomes: Seq<Result<T, Error>>, n: int)
    requires
        0 <= n < outcomes.len(),
        collect(outcomes.take(n)) is Ok,
    ensures
        collect(outcomes.take(n + 1)) == match outcomes[n] {
            Ok(value) => Ok::<Seq<T>, Error>(collect(outcomes.take(n)).unwrap().push(value)),
            Err(e) => Err::<Seq<T>, Error>(e),
        },
{
    assert(outcomes.take(n + 1).drop_last() =~= outcomes.take(n));
}

} // verus!
