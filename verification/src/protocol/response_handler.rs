//! Reading the response to a request.

use crate::protocol::error::{ProtocolError, ProtocolErrorView};
use crate::protocol::id::{id_reads_back, uuid_parse, uuid_text, MessageId};
use crate::protocol::json::{
    json_of, value_as_bool, value_as_str, value_get, value_object, Json,
};
use crate::protocol::message::{response_payload, Message, MessageType, MessageView};
use vstd::prelude::*;
use vstd::string::*;

verus! {

/// The request that a response payload says it answers, if it names one
/// readably.
pub open spec fn answered_request(payload: Json) -> Option<u128> {
    match payload.field("request_id"@) {
        Some(Json::Text(text)) => uuid_parse(text),
        _ => None,
    }
}

/// Whether a response payload reports failure: its `success` is the boolean
/// `false`. A missing `success`, or one that is no boolean, reports none.
pub open spec fn reports_failure(payload: Json) -> bool {
    payload.field("success"@) == Some(Json::Bool(false))
}

/// The server's description of a failure: the string `message` of the
/// payload, or a stock text where there is none.
pub open spec fn failure_text(payload: Json) -> Seq<char> {
    match payload.field("message"@) {
        Some(Json::Text(text)) => text,
        _ => "Unknown error"@,
    }
}

/// What a message means as the response to the request `request_id`.
///
/// In this order: a message of another kind is rejected; so is a response
/// that names another request; a reported failure is the server's error;
/// otherwise the result is the `data` of the payload, or an empty object
/// where it has none.
pub open spec fn response_outcome(response: MessageView, request_id: u128) -> Result<
    Json,
    ProtocolErrorView,
> {
    if response.message_type != MessageType::Response {
        Err(
            ProtocolErrorView::Other(
                "Expected response message, got "@ + response.message_type.token(),
            ),
        )
    } else if answered_request(response.payload) is Some && answered_request(response.payload)
        != Some(request_id) {
        Err(
            ProtocolErrorView::Other(
                "Response for wrong request: expected "@ + uuid_text(request_id) + ", got "@
                    + uuid_text(answered_request(response.payload).unwrap()),
            ),
        )
    } else if reports_failure(response.payload) {
        Err(ProtocolErrorView::ServerError(failure_text(response.payload)))
    } else {
        match response.payload.field("data"@) {
            Some(data) => Ok(data),
            None => Ok(Json::empty_object()),
        }
    }
}

/// A response made for a request is read, against that request, as what it
/// was made with: its data where it reports success, the server's failure
/// where it does not. Against any other request it is rejected.
pub proof fn lemma_response_is_read_back(
    response: MessageView,
    request_id: u128,
    success: bool,
    data: Json,
    asked: u128,
)
    requires
        response.message_type == MessageType::Response,
        response.payload == response_payload(request_id, success, data),
        id_reads_back(request_id),
    ensures
        asked == request_id && success ==> response_outcome(response, asked) == Ok::<
            Json,
            ProtocolErrorView,
        >(data),
        asked == request_id && !success ==> response_outcome(response, asked) == Err::<
            Json,
            ProtocolErrorView,
        >(ProtocolErrorView::ServerError("Unknown error"@)),
        asked != request_id ==> response_outcome(response, asked) is Err,
        asked != request_id ==> response_outcome(response, asked)->Err_0 is Other,
{
    reveal_strlit("request_id");
    reveal_strlit("success");
    reveal_strlit("data");
    reveal_strlit("message");
    assert("request_id"@.len() == 10);
    assert("success"@.len() == 7);
    assert("data"@.len() == 4);
    assert("message"@[0] == 'm');
    assert("success"@[0] == 's');
    assert("request_id"@[0] == 'r');
    assert("data"@[0] == 'd');
    assert(response.payload.field("request_id"@) == Some(Json::Text(uuid_text(request_id))));
    assert(response.payload.field("success"@) == Some(Json::Bool(success)));
    assert(response.payload.field("data"@) == Some(data));
    assert(response.payload.field("message"@) is None);
}

/// Reads a message as the response to the request `request_id`: the data it
/// carries, or the reason it cannot be taken for a successful response.
pub fn handle_response(response: &Message, request_id: &MessageId) -> (r: Result<
    serde_json::Value,
    ProtocolError,
>)
    ensures
        match response_outcome(response@, request_id@) {
            Ok(data) => r matches Ok(value) && json_of(value) == data,
            Err(reason) => r matches Err(error) && error@ == reason,
        },
{
    if response.message_type != MessageType::Response {
        let text = String::from_str("Expected response message, got ").concat(
            response.message_type.as_str(),
        );
        return Err(ProtocolError::Other(text));
    }
    let payload = &response.payload;
    let answered = match value_get(payload, "request_id") {
        Some(member) => match value_as_str(member) {
            Some(text) => MessageId::parse_str(text),
            None => None,
        },
        None => None,
    };
    if let Some(answered_id) = answered {
        if answered_id != *request_id {
            let expected = request_id.to_string();
            let got = answered_id.to_string();
            let text = String::from_str("Response for wrong request: expected ").concat(
                expected.as_str(),
            ).concat(", got ").concat(got.as_str());
            return Err(ProtocolError::Other(text));
        }
    }
    let success = match value_get(payload, "success") {
        Some(member) => value_as_bool(member),
        None => None,
    };
    if let Some(false) = success {
        let text = match value_get(payload, "message") {
            Some(member) => match value_as_str(member) {
                Some(text) => String::from_str(text),
                None => String::from_str("Unknown error"),
            },
            None => String::from_str("Unknown error"),
        };
        return Err(ProtocolError::ServerError(text));
    }
    match value_get(payload, "data") {
        Some(data) => Ok(data.clone()),
        None => Ok(value_object()),
    }
}

} // verus!
