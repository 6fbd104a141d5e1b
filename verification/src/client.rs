//! The client half: requests that wait for their response, and the dispatch
//! of a response to the request it answers.

use vstd::prelude::*;
use vstd::string::StringSliceAdditionalSpecFns;
use std::collections::HashMap;
use crate::error::{result_of, to_result, ClientErrorCode, RclReturnCode};
use crate::request_id::{taken_of, RequestId};
use crate::sync::{new_shared_future, resolve_shared_future, SharedFuture};
use crate::topic::{c_string_of, topic_c_string};

verus! {

/// How a request that waits for its response wants to be told of it.
#[verifier::reject_recursive_types(R)]
pub enum PendingRequest<R, C> {
    /// Call this once with the response.
    Callback(C),
    /// Store the response in this future, which the sender of the request
    /// holds too.
    Future(SharedFuture<R>),
}

/// Whether `callback` may be called with every response.
pub open spec fn accepts_every_response<R, C: FnMut(&R)>(callback: C) -> bool {
    forall|response: R| call_requires(callback, (&response,))
}

/// The entry that a response with the number `sequence_number` answers, if
/// there is one.
pub open spec fn entry_of<R, C>(
    pending: Map<i64, PendingRequest<R, C>>,
    sequence_number: i64,
) -> Option<PendingRequest<R, C>> {
    if pending.contains_key(sequence_number) {
        Some(pending[sequence_number])
    } else {
        None
    }
}

/// The pending requests once a response with the number `sequence_number` has
/// been dispatched: the entry it answers is gone, all others stay.
pub open spec fn after_response<R, C>(
    pending: Map<i64, PendingRequest<R, C>>,
    sequence_number: i64,
) -> Map<i64, PendingRequest<R, C>> {
    pending.remove(sequence_number)
}

/// The pending requests once the outcome `taken` of a take has been handled.
/// Only a response that was taken changes them.
pub open spec fn after_take<R, C>(
    pending: Map<i64, PendingRequest<R, C>>,
    taken: Result<(R, RequestId), RclReturnCode>,
) -> Map<i64, PendingRequest<R, C>> {
    match taken {
        Ok((_, request_id)) => after_response(pending, request_id.sequence_number),
        Err(_) => pending,
    }
}

/// What handling the outcome `taken` of a take on a client endpoint results
/// in. That the endpoint held no response is no failure; every other error of
/// the transport is handed on.
pub open spec fn client_execute_result<R>(taken: Result<(R, RequestId), RclReturnCode>) -> Result<
    (),
    RclReturnCode,
> {
    match taken {
        Ok(_) => Ok(()),
        Err(error) => if error.is_client_take_failed() {
            Ok(())
        } else {
            Err(error)
        },
    }
}

/// The client side of one endpoint: the requests that were sent and wait for
/// their response, each under the sequence number that the transport gave it.
///
/// `R` is the type of a response, `C` that of a callback.
#[verifier::reject_recursive_types(R)]
#[verifier::reject_recursive_types(C)]
pub struct Client<R, C: FnMut(&R)> {
    topic: Vec<u8>,
    pending: HashMap<i64, PendingRequest<R, C>>,
}

impl<R, C: FnMut(&R)> Client<R, C> {
    /// The requests that wait for their response, by sequence number.
    pub closed spec fn pending(&self) -> Map<i64, PendingRequest<R, C>> {
        self.pending@
    }

    /// The name of the topic, as the C string that the transport takes.
    pub closed spec fn topic_name(&self) -> Seq<u8> {
        self.topic@
    }

    /// Every callback that waits can be called with whatever response comes.
    pub open spec fn wf(&self) -> bool {
        forall|sequence_number: i64| #[trigger]
            self.pending().contains_key(sequence_number) ==> (
            self.pending()[sequence_number] matches PendingRequest::Callback(callback)
                ==> accepts_every_response::<R, C>(callback))
    }

    /// A client for the topic `topic`, with no request pending.
    pub fn new(topic: &str) -> (client: Self)
        requires
            !topic.spec_bytes().contains(0u8),
        ensures
            client.wf(),
            client.topic_name() == c_string_of(topic.spec_bytes()),
            client.pending() == Map::<i64, PendingRequest<R, C>>::empty(),
    {
        Client { topic: topic_c_string(topic), pending: HashMap::new() }
    }

    /// The name of the topic, as the C string that the transport takes.
    pub fn topic_c_string(&self) -> (name: &Vec<u8>)
        ensures
            name@ == self.topic_name(),
    {
        &self.topic
    }

    /// Whether a request with this sequence number waits for its response.
    pub fn is_pending(&self, sequence_number: i64) -> (pending: bool)
        ensures
            pending == self.pending().contains_key(sequence_number),
    {
        broadcast use vstd::std_specs::hash::group_hash_axioms;

        self.pending.contains_key(&sequence_number)
    }

    /// How many requests wait for their response.
    pub fn pending_count(&self) -> (count: usize)
        ensures
            count == self.pending().len(),
    {
        broadcast use vstd::std_specs::hash::group_hash_axioms;

        self.pending.len()
    }

    /// Records a request that was handed to the transport, to be answered
    /// through `callback`.
    ///
    /// `ret` is what the transport's send returned and `sequence_number` the
    /// number it gave the request. If the send failed, its error is returned
    /// and nothing is recorded. Otherwise `callback` waits under
    /// `sequence_number`, in place of whatever waited there before.
    pub fn async_send_request_with_callback(
        &mut self,
        ret: i32,
        sequence_number: i64,
        callback: C,
    ) -> (res: Result<(), RclReturnCode>)
        requires
            old(self).wf(),
            accepts_every_response::<R, C>(callback),
        ensures
            final(self).wf(),
            final(self).topic_name() == old(self).topic_name(),
            res == result_of(ret),
            res is Ok ==> final(self).pending() == old(self).pending().insert(
                sequence_number,
                PendingRequest::Callback(callback),
            ),
            res is Err ==> final(self).pending() == old(self).pending(),
    {
        broadcast use vstd::std_specs::hash::group_hash_axioms;

        match to_result(ret) {
            Ok(()) => {
                self.pending.insert(sequence_number, PendingRequest::Callback(callback));
                Ok(())
            },
            Err(error) => Err(error),
        }
    }

    /// Records a request that was handed to the transport, to be answered
    /// through a future, and returns the future.
    ///
    /// `ret` is what the transport's send returned and `sequence_number` the
    /// number it gave the request. If the send failed, its error is returned
    /// and nothing is recorded. Otherwise a new future waits under
    /// `sequence_number`, in place of whatever waited there before, and the
    /// caller gets a handle to the same future.
    pub fn call_async(&mut self, ret: i32, sequence_number: i64) -> (res: Result<
        SharedFuture<R>,
        RclReturnCode,
    >)
        requires
            old(self).wf(),
        ensures
            final(self).wf(),
            final(self).topic_name() == old(self).topic_name(),
            res is Ok <==> result_of(ret) is Ok,
            res matches Err(error) ==> result_of(ret) == Err::<(), RclReturnCode>(error),
            res matches Ok(future) ==> final(self).pending() == old(self).pending().insert(
                sequence_number,
                PendingRequest::Future(future),
            ),
            res is Err ==> final(self).pending() == old(self).pending(),
    {
        broadcast use vstd::std_specs::hash::group_hash_axioms;

        match to_result(ret) {
            Ok(()) => {
                let future = new_shared_future();
                self.pending.insert(sequence_number, PendingRequest::Future(future.clone()));
                Ok(future)
            },
            Err(error) => Err(error),
        }
    }

    /// Makes the outcome of a take from what the transport returned: the
    /// response with its request id if `ret` reports success, the error
    /// otherwise.
    pub fn take_response(ret: i32, response: R, request_id: RequestId) -> (res: Result<
        (R, RequestId),
        RclReturnCode,
    >)
        ensures
            res == taken_of(ret, response, request_id),
    {
        match to_result(ret) {
            Ok(()) => Ok((response, request_id)),
            Err(error) => Err(error),
        }
    }

    /// Removes and returns the entry that waits under `sequence_number`, in
    /// one step.
    pub fn take_pending(&mut self, sequence_number: i64) -> (entry: Option<PendingRequest<R, C>>)
        requires
            old(self).wf(),
        ensures
            final(self).wf(),
            final(self).topic_name() == old(self).topic_name(),
            entry == entry_of(old(self).pending(), sequence_number),
            final(self).pending() == after_response(old(self).pending(), sequence_number),
            entry matches Some(PendingRequest::Callback(callback)) ==> accepts_every_response::<
                R,
                C,
            >(callback),
    {
        broadcast use vstd::std_specs::hash::group_hash_axioms;

        proof {
            assert(old(self).pending().contains_key(sequence_number) ==> (old(
                self,
            ).pending()[sequence_number] matches PendingRequest::Callback(callback)
                ==> accepts_every_response::<R, C>(callback)));
        }
        self.pending.remove(&sequence_number)
    }

    /// Handles the outcome `taken` of one take on the endpoint.
    ///
    /// A response that was taken is dispatched to the entry that waits under
    /// its sequence number: the entry is removed, and its callback is called
    /// with the response, or its future is resolved to the response. A
    /// response that no entry waits for is dropped. That the endpoint held no
    /// response is no failure and changes nothing; any other error is
    /// returned, and changes nothing either.
    ///
    /// The future of an entry is locked while the response is stored in it.
    /// A caller that holds the lock of a future that still waits has to let
    /// go of it first, or this call waits for it.
    pub fn execute(&mut self, taken: Result<(R, RequestId), RclReturnCode>) -> (res: Result<
        (),
        RclReturnCode,
    >)
        requires
            old(self).wf(),
        ensures
            final(self).wf(),
            final(self).topic_name() == old(self).topic_name(),
            res == client_execute_result(taken),
            final(self).pending() == after_take(old(self).pending(), taken),
            taken matches Ok((response, request_id)) ==> (entry_of(
                old(self).pending(),
                request_id.sequence_number,
            ) matches Some(PendingRequest::Callback(callback)) ==> call_ensures(
                callback,
                (&response,),
                (),
            )),
    {
        match taken {
            Ok((response, request_id)) => {
                match self.take_pending(request_id.sequence_number) {
                    Some(PendingRequest::Callback(callback)) => {
                        let mut callback = callback;
                        callback(&response);
                    },
                    Some(PendingRequest::Future(future)) => {
                        resolve_shared_future(&future, response);
                    },
                    None => {},
                }
                Ok(())
            },
            Err(RclReturnCode::ClientError(ClientErrorCode::ClientTakeFailed)) => Ok(()),
            Err(error) => Err(error),
        }
    }
}

} // verus!
