//! What holds of the dispatch of responses, whatever the requests and
//! whatever the order in which their responses arrive.

use vstd::prelude::*;
use crate::client::{after_response, after_take, client_execute_result, entry_of, PendingRequest};
use crate::error::RclReturnCode;
use crate::request_id::RequestId;

verus! {

/// The pending requests once responses with the numbers `numbers` have been
/// dispatched one after the other, `numbers[0]` first.
pub open spec fn after_responses<R, C>(
    pending: Map<i64, PendingRequest<R, C>>,
    numbers: Seq<i64>,
) -> Map<i64, PendingRequest<R, C>>
    decreases numbers.len(),
{
    if numbers.len() == 0 {
        pending
    } else {
        after_response(after_responses(pending, numbers.drop_last()), numbers.last())
    }
}

/// The entry that the response at position `i` of `numbers` is dispatched to,
/// when the responses before it have been dispatched already.
pub open spec fn entry_resolved_at<R, C>(
    pending: Map<i64, PendingRequest<R, C>>,
    numbers: Seq<i64>,
    i: int,
) -> Option<PendingRequest<R, C>> {
    entry_of(after_responses(pending, numbers.take(i)), numbers[i])
}

/// An entry is resolved at most once: when the response for a sequence number
/// has been dispatched, nothing waits under that number, so a second response
/// with the same number finds no entry and changes nothing.
pub proof fn lemma_resolved_at_most_once<R, C>(
    pending: Map<i64, PendingRequest<R, C>>,
    sequence_number: i64,
)
    ensures
        entry_of(after_response(pending, sequence_number), sequence_number) is None,
        after_response(after_response(pending, sequence_number), sequence_number)
            == after_response(pending, sequence_number),
{
    assert(after_response(after_response(pending, sequence_number), sequence_number)
        =~= after_response(pending, sequence_number));
}

/// A response that no entry waits for is dropped: the pending requests are
/// what they were.
pub proof fn lemma_unmatched_response_is_dropped<R, C>(
    pending: Map<i64, PendingRequest<R, C>>,
    sequence_number: i64,
)
    requires
        !pending.contains_key(sequence_number),
    ensures
        entry_of(pending, sequence_number) is None,
        after_response(pending, sequence_number) == pending,
{
    assert(after_response(pending, sequence_number) =~= pending);
}

/// The dispatch of a response leaves every entry under another sequence
/// number as it was.
pub proof fn lemma_other_entries_stay<R, C>(
    pending: Map<i64, PendingRequest<R, C>>,
    sequence_number: i64,
    other: i64,
)
    requires
        other != sequence_number,
    ensures
        entry_of(after_response(pending, sequence_number), other) == entry_of(pending, other),
{
}

/// A take that found nothing is no error and leaves the pending requests
/// alone. So does, for the pending requests, every other failure of a take.
pub proof fn lemma_failed_take_changes_nothing<R, C>(
    pending: Map<i64, PendingRequest<R, C>>,
    error: RclReturnCode,
)
    ensures
        after_take(pending, Err::<(R, RequestId), RclReturnCode>(error)) == pending,
        error.is_client_take_failed() ==> client_execute_result(
            Err::<(R, RequestId), RclReturnCode>(error),
        ) == Ok::<(), RclReturnCode>(()),
        !error.is_client_take_failed() ==> client_execute_result(
            Err::<(R, RequestId), RclReturnCode>(error),
        ) == Err::<(), RclReturnCode>(error),
{
}

/// After the responses `numbers`, exactly the entries under those numbers are
/// gone.
pub proof fn lemma_after_responses<R, C>(
    pending: Map<i64, PendingRequest<R, C>>,
    numbers: Seq<i64>,
)
    ensures
        after_responses(pending, numbers) == pending.remove_keys(numbers.to_set()),
    decreases numbers.len(),
{
    if numbers.len() == 0 {
        assert(numbers.to_set() =~= Set::<i64>::empty());
        assert(pending.remove_keys(numbers.to_set()) =~= pending);
    } else {
        let front = numbers.drop_last();
        lemma_after_responses(pending, front);
        assert forall|n: i64| numbers.to_set().contains(n) <==> (front.to_set().contains(n) || n
            == numbers.last()) by {
            if numbers.contains(n) {
                let i = choose|i: int| 0 <= i < numbers.len() && numbers[i] == n;
                if i < numbers.len() - 1 {
                    assert(front[i] == n);
                }
            }
            if front.contains(n) {
                let i = choose|i: int| 0 <= i < front.len() && front[i] == n;
                assert(numbers[i] == n);
            }
            if n == numbers.last() {
                assert(numbers[numbers.len() - 1] == n);
            }
        }
        assert(after_responses(pending, numbers) =~= pending.remove_keys(numbers.to_set()));
    }
}

/// The sequence numbers of `responses`, in their order.
pub open spec fn numbers_of<R>(responses: Seq<(R, RequestId)>) -> Seq<i64> {
    Seq::new(responses.len(), |i: int| responses[i].1.sequence_number)
}

/// What the response at position `i` of `responses` is handed to, when the
/// responses before it have been dispatched already: the entry, with the
/// response itself.
pub open spec fn delivery_at<R, C>(
    pending: Map<i64, PendingRequest<R, C>>,
    responses: Seq<(R, RequestId)>,
    i: int,
) -> Option<(PendingRequest<R, C>, R)> {
    match entry_resolved_at(pending, numbers_of(responses), i) {
        Some(entry) => Some((entry, responses[i].0)),
        None => None,
    }
}

/// Let a request wait under each of the numbers `numbers`, and let one
/// response for each number arrive, in whatever order `numbers` lists them.
/// Then every response is dispatched to the entry that was recorded under its
/// own number; from then on nothing waits under that number, so that no
/// later response reaches the entry again; and entries under other numbers
/// are left as they were.
pub proof fn lemma_each_response_meets_its_request<R, C>(
    pending: Map<i64, PendingRequest<R, C>>,
    numbers: Seq<i64>,
)
    requires
        numbers.no_duplicates(),
        forall|i: int| 0 <= i < numbers.len() ==> pending.contains_key(#[trigger] numbers[i]),
    ensures
        forall|i: int|
            0 <= i < numbers.len() ==> #[trigger] entry_resolved_at(pending, numbers, i) == Some(
                pending[numbers[i]],
            ),
        forall|i: int, j: int|
            0 <= i < j <= numbers.len() ==> !(#[trigger] after_responses(
                pending,
                numbers.take(j),
            )).contains_key(#[trigger] numbers[i]),
        forall|n: i64|
            !numbers.contains(n) ==> #[trigger] entry_of(after_responses(pending, numbers), n)
                == entry_of(pending, n),
{
    lemma_after_responses(pending, numbers);
    assert forall|i: int| 0 <= i < numbers.len() implies #[trigger] entry_resolved_at(
        pending,
        numbers,
        i,
    ) == Some(pending[numbers[i]]) by {
        let before = numbers.take(i);
        lemma_after_responses(pending, before);
        if before.contains(numbers[i]) {
            let j = choose|j: int| 0 <= j < before.len() && before[j] == numbers[i];
            assert(numbers[j] == numbers[i]);
        }
    }
    assert forall|i: int, j: int| 0 <= i < j <= numbers.len() implies !(#[trigger] after_responses(
        pending,
        numbers.take(j),
    )).contains_key(#[trigger] numbers[i]) by {
        let upto = numbers.take(j);
        lemma_after_responses(pending, upto);
        assert(upto[i] == numbers[i]);
        assert(upto.contains(numbers[i]));
    }
}

/// No cross-wiring: when requests wait under distinct numbers and one
/// response arrives for each, in any order, then every response is handed to
/// the entry of its own request, and to no other.
pub proof fn lemma_no_cross_wiring<R, C>(
    pending: Map<i64, PendingRequest<R, C>>,
    responses: Seq<(R, RequestId)>,
)
    requires
        numbers_of(responses).no_duplicates(),
        forall|i: int|
            0 <= i < responses.len() ==> pending.contains_key(
                (#[trigger] responses[i]).1.sequence_number,
            ),
    ensures
        forall|i: int|
            0 <= i < responses.len() ==> #[trigger] delivery_at(pending, responses, i) == Some(
                (pending[responses[i].1.sequence_number], responses[i].0),
            ),
{
    let numbers = numbers_of(responses);
    assert forall|i: int| 0 <= i < numbers.len() implies pending.contains_key(
        #[trigger] numbers[i],
    ) by {
        assert(numbers[i] == responses[i].1.sequence_number);
    }
    lemma_each_response_meets_its_request(pending, numbers);
    assert forall|i: int| 0 <= i < responses.len() implies #[trigger] delivery_at(
        pending,
        responses,
        i,
    ) == Some((pending[responses[i].1.sequence_number], responses[i].0)) by {
        assert(entry_resolved_at(pending, numbers, i) == Some(pending[numbers[i]]));
    }
}

} // verus!
