//! The topic of percentage events, and the replies to those who publish.

use crate::binary64::{is_within_percent, within_percent};
use crate::broadcast::{attach, offer};
use crate::decimal::{decimal, lemma_decimal_injective, to_decimal};
use crate::status::StatusCode;
use crate::subscription::{Phase, Subscription};
use tokio::sync::broadcast::error::SendError;
use tokio::sync::broadcast::Sender;
use vstd::prelude::*;
use vstd::string::StringExecFns;

verus! {

/// The number of events that a topic is asked to retain. The channel may
/// retain more: it rounds the number up to a power of two.
pub const TOPIC_CAPACITY: usize = 800;

/// A value that a topic can carry.
pub trait Payload: Sized {
    /// Whether the value may be handed to a topic.
    spec fn admissible(&self) -> bool;
}

/// A message is carried as it is.
impl Payload for String {
    open spec fn admissible(&self) -> bool {
        true
    }
}

/// A percentage event: the 64-bit pattern of the percentage, a double, and
/// the text that shows that number to a reader.
#[derive(Debug)]
pub struct AppEvent {
    bits: u64,
    text: String,
}

/// What an `AppEvent` holds.
pub struct AppEventView {
    pub bits: u64,
    pub text: Seq<char>,
}

impl View for AppEvent {
    type V = AppEventView;

    closed spec fn view(&self) -> AppEventView {
        AppEventView { bits: self.bits, text: self.text@ }
    }
}

impl AppEvent {
    /// An event of the percentage with the pattern `bits`, shown as `text`.
    pub fn new(bits: u64, text: String) -> (event: Self)
        ensures
            event@ == (AppEventView { bits, text: text@ }),
    {
        AppEvent { bits, text }
    }

    /// The pattern of the percentage.
    pub fn bits(&self) -> (bits: u64)
        ensures
            bits == self@.bits,
    {
        self.bits
    }

    /// The text that shows the percentage.
    pub fn text(&self) -> (text: &str)
        ensures
            text@ == self@.text,
    {
        self.text.as_str()
    }

    /// Whether the percentage is a number from 0 to 100.
    pub open spec fn in_range(&self) -> bool {
        within_percent(self@.bits)
    }

    /// Whether the percentage is a number from 0 to 100.
    pub fn is_in_range(&self) -> (within: bool)
        ensures
            within == self.in_range(),
    {
        is_within_percent(self.bits)
    }
}

impl Clone for AppEvent {
    fn clone(&self) -> (copy: Self)
        ensures
            copy@ == self@,
    {
        AppEvent { bits: self.bits, text: self.text.clone() }
    }
}

/// A percentage event is carried only with a percentage from 0 to 100.
impl Payload for AppEvent {
    open spec fn admissible(&self) -> bool {
        self.in_range()
    }
}

/// The number of subscriptions that a publication reached, as the result of
/// the channel's `send` tells it: the number that the channel gives, or zero
/// where it hands the value back for want of a receiver.
pub open spec fn reach<T>(outcome: Result<usize, SendError<T>>) -> usize {
    match outcome {
        Ok(receivers) => receivers,
        Err(_) => 0,
    }
}

/// Computes `reach`.
pub fn reached<T>(outcome: Result<usize, SendError<T>>) -> (delivered_to: usize)
    ensures
        delivered_to == reach(outcome),
{
    match outcome {
        Ok(receivers) => receivers,
        Err(_) => 0,
    }
}

/// The topic: the sending end of the channel that every publisher writes to
/// and every subscription reads from.
#[verifier::reject_recursive_types(T)]
pub struct AppState<T> {
    tx: Sender<T>,
    capacity: usize,
}

impl<T: Payload + Clone> AppState<T> {
    /// A topic of `TOPIC_CAPACITY` slots, with no subscription yet.
    pub fn new() -> (state: Self)
        ensures
            state.capacity_spec() == TOPIC_CAPACITY,
    {
        let (tx, _rx) = tokio::sync::broadcast::channel(TOPIC_CAPACITY);
        AppState { tx, capacity: TOPIC_CAPACITY }
    }

    /// The capacity that the topic was made with.
    pub closed spec fn capacity_spec(&self) -> usize {
        self.capacity
    }

    /// The capacity that the topic was made with.
    #[verifier::when_used_as_spec(capacity_spec)]
    pub fn capacity(&self) -> (capacity: usize)
        ensures
            capacity == self.capacity_spec(),
    {
        self.capacity
    }

    /// Hands `event` to every subscription that exists at this moment and
    /// returns their number. With none, the event is dropped and the number
    /// is zero.
    ///
    /// This is the one way into the topic, and it is open to admissible
    /// values only.
    pub fn publish(&self, event: T) -> (delivered_to: usize)
        requires
            event.admissible(),
    {
        reached(offer(&self.tx, event))
    }

    /// A new subscription, which reads what is published from now on.
    pub fn subscribe(&self) -> (subscription: Subscription<T>)
        ensures
            subscription@ == Phase::Connected,
    {
        Subscription::connected(attach(&self.tx))
    }
}

/// The body of a reply that reports success.
#[derive(Debug)]
pub struct EventData {
    message: String,
}

/// What an `EventData` holds.
pub struct EventDataView {
    pub message: Seq<char>,
}

impl View for EventData {
    type V = EventDataView;

    closed spec fn view(&self) -> EventDataView {
        EventDataView { message: self.message@ }
    }
}

impl EventData {
    /// Data that holds `message`.
    pub fn new(message: String) -> (data: Self)
        ensures
            data@.message == message@,
    {
        EventData { message }
    }

    /// The message to the publisher.
    pub fn message(&self) -> (message: &str)
        ensures
            message@ == self@.message,
    {
        self.message.as_str()
    }
}

/// The body of a reply that reports an error: a code for programs and a
/// message for people.
#[derive(Debug)]
pub struct ErrorDetail {
    code: String,
    message: String,
}

/// What an `ErrorDetail` holds.
pub struct ErrorDetailView {
    pub code: Seq<char>,
    pub message: Seq<char>,
}

impl View for ErrorDetail {
    type V = ErrorDetailView;

    closed spec fn view(&self) -> ErrorDetailView {
        ErrorDetailView { code: self.code@, message: self.message@ }
    }
}

impl ErrorDetail {
    /// An error with `code` and `message`.
    pub fn new(code: String, message: String) -> (error: Self)
        ensures
            error@.code == code@,
            error@.message == message@,
    {
        ErrorDetail { code, message }
    }

    /// The code of the error.
    pub fn code(&self) -> (code: &str)
        ensures
            code@ == self@.code,
    {
        self.code.as_str()
    }

    /// The message to the publisher.
    pub fn message(&self) -> (message: &str)
        ensures
            message@ == self@.message,
    {
        self.message.as_str()
    }
}

/// The body of a reply: either data or an error.
#[derive(Debug)]
pub struct EventResponse {
    data: Option<EventData>,
    error: Option<ErrorDetail>,
}

/// What an `EventResponse` holds.
pub struct EventResponseView {
    pub data: Option<EventDataView>,
    pub error: Option<ErrorDetailView>,
}

impl View for EventResponse {
    type V = EventResponseView;

    closed spec fn view(&self) -> EventResponseView {
        EventResponseView {
            data: match self.data {
                Some(data) => Some(data@),
                None => None,
            },
            error: match self.error {
                Some(error) => Some(error@),
                None => None,
            },
        }
    }
}

/// The body that reports success with `message`.
pub open spec fn data_body(message: Seq<char>) -> EventResponseView {
    EventResponseView { data: Some(EventDataView { message }), error: None }
}

/// The body that reports the error `code` with `message`.
pub open spec fn error_body(code: Seq<char>, message: Seq<char>) -> EventResponseView {
    EventResponseView { data: None, error: Some(ErrorDetailView { code, message }) }
}

impl EventResponse {
    /// A body that holds `data` and `error`.
    pub fn new(data: Option<EventData>, error: Option<ErrorDetail>) -> (body: Self)
        ensures
            body@.data is Some <==> data is Some,
            data matches Some(d) ==> body@.data == Some(d@),
            body@.error is Some <==> error is Some,
            error matches Some(e) ==> body@.error == Some(e@),
    {
        EventResponse { data, error }
    }

    /// The data, in a reply that reports success.
    pub fn data(&self) -> (data: Option<&EventData>)
        ensures
            data is Some <==> self@.data is Some,
            data matches Some(d) ==> self@.data == Some(d@),
    {
        self.data.as_ref()
    }

    /// The error, in a reply that reports one.
    pub fn error(&self) -> (error: Option<&ErrorDetail>)
        ensures
            error is Some <==> self@.error is Some,
            error matches Some(e) ==> self@.error == Some(e@),
    {
        self.error.as_ref()
    }

    /// A body that reports success with `message`.
    fn of_data(message: String) -> (body: Self)
        ensures
            body@ == data_body(message@),
    {
        EventResponse { data: Some(EventData { message }), error: None }
    }

    /// A body that reports `error`.
    fn of_error(error: ErrorDetail) -> (body: Self)
        ensures
            body@ == error_body(error@.code, error@.message),
    {
        EventResponse { data: None, error: Some(error) }
    }
}

/// The status of the reply to a publication that reached `delivered_to`
/// subscriptions.
pub open spec fn published_status(delivered_to: nat) -> StatusCode {
    if delivered_to == 0 {
        StatusCode::ACCEPTED
    } else {
        StatusCode::OK
    }
}

/// The message of the reply to a publication that reached `delivered_to`
/// subscriptions.
pub open spec fn published_message(delivered_to: nat) -> Seq<char> {
    if delivered_to == 0 {
        "Event accepted, but no listeners"@
    } else {
        "Event sent to "@ + decimal(delivered_to) + " listeners!"@
    }
}

/// The code of the error for a percentage that is no number from 0 to 100.
pub open spec fn range_code() -> Seq<char> {
    "RANGE_EXCEEDED_ERROR"@
}

/// The message of that error, for a percentage shown as `text`.
pub open spec fn range_message(text: Seq<char>) -> Seq<char> {
    "Percentage range is exceeded. It should be within 0-100, but got "@ + text
}

/// The reply to a publication that reached `delivered_to` subscriptions.
pub fn announce(delivered_to: usize) -> (reply: (StatusCode, String))
    ensures
        reply.0 == published_status(delivered_to as nat),
        reply.1@ == published_message(delivered_to as nat),
{
    if delivered_to == 0 {
        (StatusCode::ACCEPTED, String::from_str("Event accepted, but no listeners"))
    } else {
        let count = to_decimal(delivered_to);
        let message = String::from_str("Event sent to ").concat(count.as_str()).concat(
            " listeners!",
        );
        (StatusCode::OK, message)
    }
}

/// The error for a percentage, shown as `text`, that is no number from 0 to
/// 100.
pub fn range_exceeded(text: &str) -> (error: ErrorDetail)
    ensures
        error@.code == range_code(),
        error@.message == range_message(text@),
{
    ErrorDetail {
        code: String::from_str("RANGE_EXCEEDED_ERROR"),
        message: String::from_str(
            "Percentage range is exceeded. It should be within 0-100, but got ",
        ).concat(text),
    }
}

/// Publishes a percentage event and replies to the publisher.
///
/// A percentage that is no number from 0 to 100 is refused with status 400
/// and the range error; it is not published. Any other is published, and the
/// reply tells how many subscriptions it reached: status 200 with their
/// number when there is one at least, status 202 when there is none.
pub fn send(state: &AppState<AppEvent>, payload: AppEvent) -> (reply: (StatusCode, EventResponse))
    ensures
        payload.in_range() <==> reply.0.success(),
        payload.in_range() <==> reply.1@.error is None,
        !payload.in_range() ==> reply.0 == StatusCode::BAD_REQUEST && reply.1@ == error_body(
            range_code(),
            range_message(payload@.text),
        ),
        payload.in_range() ==> exists|delivered_to: nat|
            reply.0 == published_status(delivered_to) && reply.1@ == data_body(
                #[trigger] published_message(delivered_to),
            ),
{
    if !payload.is_in_range() {
        let error = range_exceeded(payload.text());
        return (StatusCode::BAD_REQUEST, EventResponse::of_error(error));
    }
    let delivered_to = state.publish(payload);
    let (status, message) = announce(delivered_to);
    (status, EventResponse::of_data(message))
}

/// Why a request body was not taken as the JSON of an event. Where there is
/// a text, it is the one in which the rejection describes itself.
#[derive(Debug)]
pub enum JsonRejection {
    /// The request does not declare a JSON content type.
    MissingJsonContentType(String),
    /// The body is JSON, and no event: a field is missing or of another type.
    JsonDataError(String),
    /// The body is not JSON.
    JsonSyntaxError(String),
    /// The body could not be read to its end.
    BytesRejection(String),
    /// Any other reason.
    Other,
}

impl JsonRejection {
    /// The code under which the rejection is reported.
    pub open spec fn code(&self) -> Seq<char> {
        match self {
            JsonRejection::MissingJsonContentType(_) => "MISSING_JSON_CONTENT_TYPE"@,
            JsonRejection::JsonDataError(_) => "JSON_DESERIALIZATION_ERROR"@,
            JsonRejection::JsonSyntaxError(_) => "JSON_VALIDITY_ERROR"@,
            JsonRejection::BytesRejection(_) => "BUFFER_ERROR"@,
            JsonRejection::Other => "UNKNOWN_ERROR"@,
        }
    }

    /// The message with which the rejection is reported: its own text, where
    /// it has one.
    pub open spec fn message(&self) -> Seq<char> {
        match self {
            JsonRejection::MissingJsonContentType(text) => text@,
            JsonRejection::JsonDataError(text) => text@,
            JsonRejection::JsonSyntaxError(text) => text@,
            JsonRejection::BytesRejection(text) => text@,
            JsonRejection::Other => "An unexpected error occured"@,
        }
    }

    /// The status with which the rejection is reported: the request is at
    /// fault wherever the reason is known.
    pub open spec fn status(&self) -> StatusCode {
        match self {
            JsonRejection::Other => StatusCode::INTERNAL_SERVER_ERROR,
            _ => StatusCode::BAD_REQUEST,
        }
    }

    /// Whether two rejections have the same reason, whatever their texts.
    pub open spec fn same_reason(&self, other: &JsonRejection) -> bool {
        match self {
            JsonRejection::MissingJsonContentType(_) => other is MissingJsonContentType,
            JsonRejection::JsonDataError(_) => other is JsonDataError,
            JsonRejection::JsonSyntaxError(_) => other is JsonSyntaxError,
            JsonRejection::BytesRejection(_) => other is BytesRejection,
            JsonRejection::Other => other is Other,
        }
    }
}

/// An error reply: the error and the status to send it with.
#[derive(Debug)]
pub struct AppError {
    error: ErrorDetail,
    status_code: StatusCode,
}

/// What an `AppError` holds.
pub struct AppErrorView {
    pub error: ErrorDetailView,
    pub status_code: StatusCode,
}

impl View for AppError {
    type V = AppErrorView;

    closed spec fn view(&self) -> AppErrorView {
        AppErrorView { error: self.error@, status_code: self.status_code }
    }
}

impl AppError {
    /// The error reply to a request whose body was rejected.
    pub fn from(value: JsonRejection) -> (app_error: AppError)
        ensures
            app_error@.error.code == value.code(),
            app_error@.error.message == value.message(),
            app_error@.status_code == value.status(),
    {
        match value {
            JsonRejection::MissingJsonContentType(text) => AppError {
                error: ErrorDetail {
                    code: String::from_str("MISSING_JSON_CONTENT_TYPE"),
                    message: text,
                },
                status_code: StatusCode::BAD_REQUEST,
            },
            JsonRejection::JsonDataError(text) => AppError {
                error: ErrorDetail {
                    code: String::from_str("JSON_DESERIALIZATION_ERROR"),
                    message: text,
                },
                status_code: StatusCode::BAD_REQUEST,
            },
            JsonRejection::JsonSyntaxError(text) => AppError {
                error: ErrorDetail { code: String::from_str("JSON_VALIDITY_ERROR"), message: text },
                status_code: StatusCode::BAD_REQUEST,
            },
            JsonRejection::BytesRejection(text) => AppError {
                error: ErrorDetail { code: String::from_str("BUFFER_ERROR"), message: text },
                status_code: StatusCode::BAD_REQUEST,
            },
            JsonRejection::Other => AppError {
                error: ErrorDetail {
                    code: String::from_str("UNKNOWN_ERROR"),
                    message: String::from_str("An unexpected error occured"),
                },
                status_code: StatusCode::INTERNAL_SERVER_ERROR,
            },
        }
    }

    /// The error.
    pub fn error(&self) -> (error: &ErrorDetail)
        ensures
            error@ == self@.error,
    {
        &self.error
    }

    /// The status to send the error with.
    pub fn status_code(&self) -> (status_code: StatusCode)
        ensures
            status_code == self@.status_code,
    {
        self.status_code
    }

    /// The reply that carries the error: its status, and a body that holds
    /// the error and no data.
    pub fn into_response(self) -> (reply: (StatusCode, EventResponse))
        ensures
            reply.0 == self@.status_code,
            reply.1@ == error_body(self@.error.code, self@.error.message),
    {
        let response = EventResponse::of_error(self.error);
        (self.status_code, response)
    }
}

/// Subscribes a client to the topic of percentage events.
pub fn subscribe(state: &AppState<AppEvent>) -> (subscription: Subscription<AppEvent>)
    ensures
        subscription@ == Phase::Connected,
{
    state.subscribe()
}

/// A publication is answered with success and with data, whatever the
/// number of subscriptions that it reached: with status 202 when it reached
/// none, with status 200 otherwise.
pub proof fn lemma_publication_succeeds(delivered_to: nat)
    ensures
        published_status(delivered_to).success(),
        delivered_to == 0 <==> published_status(delivered_to) == StatusCode::ACCEPTED,
        delivered_to >= 1 <==> published_status(delivered_to) == StatusCode::OK,
        data_body(published_message(delivered_to)).error is None,
        data_body(published_message(delivered_to)).data is Some,
{
}

/// The message of a reply tells the number of subscriptions that the
/// publication reached: different numbers give different messages.
pub proof fn lemma_message_tells_count(a: nat, b: nat)
    requires
        published_message(a) == published_message(b),
    ensures
        a == b,
{
    reveal_strlit("Event accepted, but no listeners");
    reveal_strlit("Event sent to ");
    reveal_strlit(" listeners!");
    let unheard = "Event accepted, but no listeners"@;
    let head = "Event sent to "@;
    let tail = " listeners!"@;
    if a == 0 && b != 0 {
        assert(unheard[6] == 'a');
        assert((head + decimal(b) + tail)[6] == 's');
    } else if a != 0 && b == 0 {
        assert(unheard[6] == 'a');
        assert((head + decimal(a) + tail)[6] == 's');
    } else if a != 0 {
        let whole_a = head + decimal(a) + tail;
        let whole_b = head + decimal(b) + tail;
        assert(whole_a.len() == whole_b.len());
        assert(decimal(a) =~= whole_a.subrange(14, 14 + decimal(a).len() as int));
        assert(decimal(b) =~= whole_b.subrange(14, 14 + decimal(b).len() as int));
        lemma_decimal_injective(a, b);
    }
}

/// Each reason for rejecting a body has a code of its own, the range error
/// has yet another, and every rejection with a known reason is answered
/// with status 400. So a missing content type, a body that is not JSON and
/// a body that is JSON of the wrong shape are told apart by their codes.
pub proof fn lemma_rejections_told_apart(a: JsonRejection, b: JsonRejection)
    ensures
        a.same_reason(&b) <==> a.code() == b.code(),
        a.code() != range_code(),
        !(a is Other) <==> a.status() == StatusCode::BAD_REQUEST,
{
    reveal_strlit("MISSING_JSON_CONTENT_TYPE");
    reveal_strlit("JSON_DESERIALIZATION_ERROR");
    reveal_strlit("JSON_VALIDITY_ERROR");
    reveal_strlit("BUFFER_ERROR");
    reveal_strlit("UNKNOWN_ERROR");
    reveal_strlit("RANGE_EXCEEDED_ERROR");
    assert("MISSING_JSON_CONTENT_TYPE"@.len() == 25);
    assert("JSON_DESERIALIZATION_ERROR"@.len() == 26);
    assert("JSON_VALIDITY_ERROR"@.len() == 19);
    assert("BUFFER_ERROR"@.len() == 12);
    assert("UNKNOWN_ERROR"@.len() == 13);
    assert("RANGE_EXCEEDED_ERROR"@.len() == 20);
}

} // verus!
