use std::cell::RefCell;
use std::rc::Rc;

use rclrs::client::Client;
use rclrs::error::{ClientErrorCode, RclReturnCode, ServiceErrorCode};
use rclrs::request_id::RequestId;
use rclrs::service::Service;

#[derive(Clone, Debug, Default, PartialEq)]
struct AddTwoIntsRequest {
    a: i64,
    b: i64,
}

#[derive(Clone, Debug, Default, PartialEq)]
struct AddTwoIntsResponse {
    sum: i64,
}

type Callback = Box<dyn FnMut(&AddTwoIntsResponse)>;

type Handler = Box<dyn FnMut(&RequestId, &AddTwoIntsRequest, &mut AddTwoIntsResponse)>;

fn adder() -> Handler {
    Box::new(|_id: &RequestId, request: &AddTwoIntsRequest, response: &mut AddTwoIntsResponse| {
        response.sum = request.a + request.b;
    })
}

fn some_id() -> RequestId {
    RequestId {
        writer_guid: [1, -2, 3, -4, 5, -6, 7, -8, 9, -10, 11, -12, 13, -14, 15, -16],
        sequence_number: 77,
    }
}

#[test]
fn handler_response_goes_back_under_the_same_request_id() {
    let mut service = Service::<AddTwoIntsRequest, AddTwoIntsResponse, Handler>::new("add_two_ints", adder());
    let taken = Ok((AddTwoIntsRequest { a: 41, b: 1 }, some_id()));
    let reply = service.execute(taken);
    assert_eq!(reply, Ok(Some((AddTwoIntsResponse { sum: 42 }, some_id()))));
    let (_, reply_id) = reply.unwrap().unwrap();
    assert_eq!(reply_id.writer_guid, some_id().writer_guid);
    assert_eq!(reply_id.sequence_number, 77);
}

#[test]
fn handler_is_called_once_per_request_with_a_default_response() {
    let seen: Rc<RefCell<Vec<(RequestId, AddTwoIntsRequest, AddTwoIntsResponse)>>> =
        Rc::new(RefCell::new(Vec::new()));
    let log = seen.clone();
    let handler: Handler = Box::new(move |id, request, response| {
        log.borrow_mut().push((*id, request.clone(), response.clone()));
        response.sum = request.a - request.b;
    });
    let mut service = Service::<AddTwoIntsRequest, AddTwoIntsResponse, Handler>::new("subtract", handler);
    let reply = service.execute(Ok((AddTwoIntsRequest { a: 10, b: 4 }, some_id())));
    assert_eq!(reply, Ok(Some((AddTwoIntsResponse { sum: 6 }, some_id()))));
    assert_eq!(
        *seen.borrow(),
        vec![(some_id(), AddTwoIntsRequest { a: 10, b: 4 }, AddTwoIntsResponse::default())]
    );
    let mut second_id = some_id();
    second_id.sequence_number = 78;
    let reply = service.execute(Ok((AddTwoIntsRequest { a: 1, b: 1 }, second_id)));
    assert_eq!(reply, Ok(Some((AddTwoIntsResponse { sum: 0 }, second_id))));
    assert_eq!(seen.borrow().len(), 2);
}

#[test]
fn service_take_failure_calls_nothing_and_sends_nothing() {
    let count = Rc::new(RefCell::new(0));
    let counter = count.clone();
    let handler: Handler = Box::new(move |_, _, _| {
        *counter.borrow_mut() += 1;
    });
    let mut service = Service::<AddTwoIntsRequest, AddTwoIntsResponse, Handler>::new("add_two_ints", handler);
    let taken = Err(RclReturnCode::ServiceError(ServiceErrorCode::ServiceTakeFailed));
    assert_eq!(service.execute(taken), Ok(None));
    assert_eq!(*count.borrow(), 0);
}

#[test]
fn service_returns_other_take_errors() {
    let count = Rc::new(RefCell::new(0));
    let counter = count.clone();
    let handler: Handler = Box::new(move |_, _, _| {
        *counter.borrow_mut() += 1;
    });
    let mut service = Service::<AddTwoIntsRequest, AddTwoIntsResponse, Handler>::new("add_two_ints", handler);
    let errors = [
        RclReturnCode::Error,
        RclReturnCode::Timeout,
        RclReturnCode::Unsupported,
        RclReturnCode::BadAlloc,
        RclReturnCode::InvalidArgument,
        RclReturnCode::ServiceError(ServiceErrorCode::ServiceInvalid),
        RclReturnCode::ClientError(ClientErrorCode::ClientInvalid),
        RclReturnCode::ClientError(ClientErrorCode::ClientTakeFailed),
        RclReturnCode::Unknown(-3),
    ];
    for error in errors {
        assert_eq!(service.execute(Err(error)), Err(error));
    }
    assert_eq!(*count.borrow(), 0);
}

#[test]
fn take_request_tells_success_from_failure() {
    let taken = Service::<AddTwoIntsRequest, AddTwoIntsResponse, Handler>::take_request(
        0,
        AddTwoIntsRequest { a: 41, b: 1 },
        some_id(),
    );
    assert_eq!(taken, Ok((AddTwoIntsRequest { a: 41, b: 1 }, some_id())));
    let taken = Service::<AddTwoIntsRequest, AddTwoIntsResponse, Handler>::take_request(
        601,
        AddTwoIntsRequest::default(),
        some_id(),
    );
    assert_eq!(taken, Err(RclReturnCode::ServiceError(ServiceErrorCode::ServiceTakeFailed)));
    let taken = Service::<AddTwoIntsRequest, AddTwoIntsResponse, Handler>::take_request(
        600,
        AddTwoIntsRequest::default(),
        some_id(),
    );
    assert_eq!(taken, Err(RclReturnCode::ServiceError(ServiceErrorCode::ServiceInvalid)));
}

#[test]
fn service_keeps_its_topic_as_a_c_string() {
    let service = Service::<AddTwoIntsRequest, AddTwoIntsResponse, Handler>::new("add_two_ints", adder());
    assert_eq!(service.topic_c_string(), &b"add_two_ints\0".to_vec());
}

#[test]
fn request_travels_from_client_to_service_and_back() {
    let mut client = Client::<AddTwoIntsResponse, Callback>::new("add_two_ints");
    let mut service = Service::<AddTwoIntsRequest, AddTwoIntsResponse, Handler>::new("add_two_ints", adder());
    let future = client.call_async(0, 1).unwrap();
    let request_id = RequestId { writer_guid: [9; 16], sequence_number: 1 };
    let reply = service.execute(Ok((AddTwoIntsRequest { a: 41, b: 1 }, request_id)));
    let (response, reply_id) = reply.unwrap().unwrap();
    assert_eq!(reply_id, request_id);
    assert!(!future.lock().is_set());
    assert_eq!(client.execute(Ok((response, reply_id))), Ok(()));
    assert_eq!(future.lock().value(), Some(&AddTwoIntsResponse { sum: 42 }));
}
