use vstd::prelude::*;

use crate::text::{remove_char, without_char};

verus! {

/// A reply of the API routes: the data, or an error already written as JSON.
pub enum ApiResponse<T> {
    Success(T),
    Error(String),
}

/// The JSON object that carries an error message.
pub open spec fn error_json(message: Seq<char>) -> Seq<char> {
    "{\"Error\":\""@ + message + "\"}"@
}

/// The JSON object that carries serialized data.
pub open spec fn success_json(data: Seq<char>) -> Seq<char> {
    "{\"Success\":"@ + data + "}"@
}

impl<T> ApiResponse<T> {
    /// The reply for the outcome of a route: its data, or its error message
    /// wrapped in `{"Error":"..."}`.
    pub fn from_result(r: Result<T, String>) -> (res: ApiResponse<T>)
        ensures
            match r {
                Ok(t) => res == ApiResponse::<T>::Success(t),
                Err(e) => res matches ApiResponse::Error(body) && body@ == error_json(e@),
            },
    {
        match r {
            Ok(t) => ApiResponse::Success(t),
            Err(e) => ApiResponse::Error(
                String::from_str("{\"Error\":\"").concat(e.as_str()).concat("\"}"),
            ),
        }
    }

    /// The HTTP status of the reply: 200 for data, 500 for an error.
    pub fn status(&self) -> (r: u16)
        ensures
            r == match self {
                ApiResponse::Success(_) => 200u16,
                ApiResponse::Error(_) => 500u16,
            },
    {
        match self {
            ApiResponse::Success(_) => 200,
            ApiResponse::Error(_) => 500,
        }
    }
}

impl ApiResponse<String> {
    /// The reply that carries a text.
    pub fn from_text(s: &str) -> (r: ApiResponse<String>)
        ensures
            r matches ApiResponse::Success(t) && t@ == s@,
    {
        ApiResponse::Success(String::from_str(s))
    }
}

/// The body of a reply that carries data, given the data as JSON.
pub fn success_body(data_json: &str) -> (r: String)
    ensures
        r@ == success_json(data_json@),
{
    String::from_str("{\"Success\":").concat(data_json).concat("}")
}

/// The message of an error reply of the VRChat API as this proxy passes it
/// on: without double quotes.
pub fn api_error_message(message: &str) -> (r: String)
    ensures
        r@ == without_char(message@, '"'),
{
    remove_char(message, '"')
}

} // verus!
