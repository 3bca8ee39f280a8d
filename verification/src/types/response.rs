use vstd::prelude::*;
use crate::encoding::{decimal, push_decimal, push_str};
use crate::types::{primitive::Integer, raw_error::MissingField};

verus! {

/// API Response
#[derive(Clone, Debug)]
pub enum Response<T> {
    /// Success
    Success(T),
    /// Error
    Error(ResponseError),
}

/// Response error
#[derive(Clone, Debug)]
pub struct ResponseError {
    /// Human-readable description
    pub description: String,
    /// Error code
    pub error_code: Option<Integer>,
    /// Parameters
    pub parameters: Option<ResponseParameters>,
}

/// Contains information about why a request was unsuccessful
#[derive(Clone, Copy, Debug)]
pub struct ResponseParameters {
    /// The group has been migrated to a supergroup with the specified identifier
    pub migrate_to_chat_id: Option<Integer>,
    /// In case of exceeding flood control,
    /// the number of seconds left to wait
    /// before the request can be repeated
    pub retry_after: Option<Integer>,
}

/// A response as the Bot API sends it: the `ok` flag and the fields of both outcomes
#[derive(Clone, Debug)]
pub struct RawResponse<T> {
    /// True, if the request was successful
    pub ok: bool,
    /// Human-readable description of the error
    pub description: Option<String>,
    /// Error code
    pub error_code: Option<Integer>,
    /// The result of the request
    pub result: Option<T>,
    /// Why the request was unsuccessful
    pub parameters: Option<ResponseParameters>,
}

/// The field that a raw response requires for its outcome and lacks: the result of a
/// success, the description of an error.
pub open spec fn response_missing_field<T>(raw: RawResponse<T>) -> Option<Seq<char>> {
    if raw.ok {
        if raw.result is None {
            Some("result"@)
        } else {
            None
        }
    } else if raw.description is None {
        Some("description"@)
    } else {
        None
    }
}

/// The response that a raw response holding the field its outcome requires stands for.
pub open spec fn response_of<T>(raw: RawResponse<T>) -> Response<T> {
    if raw.ok {
        Response::Success(raw.result.unwrap())
    } else {
        Response::Error(
            ResponseError {
                description: raw.description.unwrap(),
                error_code: raw.error_code,
                parameters: raw.parameters,
            },
        )
    }
}

impl<T> Response<T> {
    /// Builds a response from the data the Bot API sends
    pub fn from_raw(raw: RawResponse<T>) -> (r: Result<Response<T>, MissingField>)
        ensures
            match r {
                Ok(resp) => response_missing_field(raw) is None && resp == response_of(raw),
                Err(e) => response_missing_field(raw) == Some(e.field@),
            },
    {
        if raw.ok {
            match raw.result {
                Some(result) => Ok(Response::Success(result)),
                None => Err(MissingField { field: "result" }),
            }
        } else {
            match raw.description {
                Some(description) => Ok(
                    Response::Error(
                        ResponseError { description, error_code: raw.error_code, parameters: raw.parameters },
                    ),
                ),
                None => Err(MissingField { field: "description" }),
            }
        }
    }
}

/// The message of a response error: its code as `Some(<code>)` or `None`, and its description.
pub open spec fn response_error_message(e: ResponseError) -> Seq<char> {
    "A telegram error has occurred: code="@ + match e.error_code {
        Some(code) => "Some("@ + decimal(code as int) + ")"@,
        None => "None"@,
    } + " message="@ + e.description@
}

impl ResponseError {
    /// Returns a human-readable description of the error
    pub fn to_string(&self) -> (r: String)
        ensures
            r@ == response_error_message(*self),
    {
        let mut r = String::new();
        push_str(&mut r, "A telegram error has occurred: code=");
        match self.error_code {
            Some(code) => {
                push_str(&mut r, "Some(");
                push_decimal(&mut r, code);
                push_str(&mut r, ")");
            },
            None => {
                push_str(&mut r, "None");
            },
        }
        push_str(&mut r, " message=");
        push_str(&mut r, self.description.as_str());
        assert(r@ =~= response_error_message(*self));
        r
    }
}

} // verus!
