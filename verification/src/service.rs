//! The service half: one request in, one call of the handler, one response
//! out, tagged with the request's own id.

use vstd::prelude::*;
use vstd::string::StringSliceAdditionalSpecFns;
use std::marker::PhantomData;
use crate::error::{to_result, RclReturnCode, ServiceErrorCode};
use crate::request_id::{taken_of, RequestId};
use crate::topic::{c_string_of, topic_c_string};

verus! {

/// Whether `handler` may be called with every request, from every sender, on
/// every response to fill in.
pub open spec fn handles_every_request<Req, Resp, F: FnMut(&RequestId, &Req, &mut Resp)>(
    handler: F,
) -> bool {
    forall|request_id: RequestId, request: Req, response: &mut Resp|
        call_requires(handler, (&request_id, &request, response))
}

/// The service side of one endpoint: the handler that answers its requests.
///
/// `Req` is the type of a request, `Resp` that of a response, `F` that of the
/// handler.
#[verifier::reject_recursive_types(Req)]
#[verifier::reject_recursive_types(Resp)]
pub struct Service<Req, Resp, F: FnMut(&RequestId, &Req, &mut Resp)> {
    topic: Vec<u8>,
    callback: F,
    messages: PhantomData<(Req, Resp)>,
}

impl<Req, Resp: Default, F: FnMut(&RequestId, &Req, &mut Resp)> Service<Req, Resp, F> {
    /// The name of the topic, as the C string that the transport takes.
    pub closed spec fn topic_name(&self) -> Seq<u8> {
        self.topic@
    }

    /// The handler. It gets the id of a request, the request, and the
    /// response to fill in.
    pub closed spec fn handler(&self) -> F {
        self.callback
    }

    /// The handler can be called with whatever request comes.
    pub open spec fn wf(&self) -> bool {
        handles_every_request::<Req, Resp, F>(self.handler())
    }

    /// A service for the topic `topic`, whose requests `callback` answers.
    pub fn new(topic: &str, callback: F) -> (service: Self)
        requires
            !topic.spec_bytes().contains(0u8),
            handles_every_request::<Req, Resp, F>(callback),
        ensures
            service.wf(),
            service.topic_name() == c_string_of(topic.spec_bytes()),
            service.handler() == callback,
    {
        Service { topic: topic_c_string(topic), callback, messages: PhantomData }
    }

    /// The name of the topic, as the C string that the transport takes.
    pub fn topic_c_string(&self) -> (name: &Vec<u8>)
        ensures
            name@ == self.topic_name(),
    {
        &self.topic
    }

    /// Makes the outcome of a take from what the transport returned: the
    /// request with its request id if `ret` reports success, the error
    /// otherwise.
    pub fn take_request(ret: i32, request: Req, request_id: RequestId) -> (res: Result<
        (Req, RequestId),
        RclReturnCode,
    >)
        ensures
            res == taken_of(ret, request, request_id),
    {
        match to_result(ret) {
            Ok(()) => Ok((request, request_id)),
            Err(error) => Err(error),
        }
    }

    /// Handles the outcome `taken` of one take on the endpoint.
    ///
    /// For a request that was taken, the handler is called once, with the
    /// request's id, the request and a response that starts out as
    /// `Resp::default()`. What is returned is to be sent: the response as the
    /// handler left it, and the id of the request, unchanged. That the
    /// endpoint held no request is no failure: nothing is called and nothing
    /// is to be sent. Any other error is returned.
    pub fn execute(&mut self, taken: Result<(Req, RequestId), RclReturnCode>) -> (res: Result<
        Option<(Resp, RequestId)>,
        RclReturnCode,
    >)
        requires
            old(self).wf(),
        ensures
            final(self).wf(),
            final(self).topic_name() == old(self).topic_name(),
            final(self).handler() == old(self).handler(),
            match taken {
                Ok((request, request_id)) => res matches Ok(Some((response, reply_id)))
                    && reply_id == request_id && exists|filled: &mut Resp|
                    call_ensures(Resp::default, (), *filled) && *final(filled) == response
                        && #[trigger] call_ensures(
                        old(self).handler(),
                        (&request_id, &request, filled),
                        (),
                    ),
                Err(error) => if error.is_service_take_failed() {
                    res == Ok::<Option<(Resp, RequestId)>, RclReturnCode>(None)
                } else {
                    res == Err::<Option<(Resp, RequestId)>, RclReturnCode>(error)
                },
            },
    {
        match taken {
            Ok((request, request_id)) => {
                let mut response = Resp::default();
                (self.callback)(&request_id, &request, &mut response);
                Ok(Some((response, request_id)))
            },
            Err(RclReturnCode::ServiceError(ServiceErrorCode::ServiceTakeFailed)) => Ok(None),
            Err(error) => Err(error),
        }
    }
}

} // verus!
