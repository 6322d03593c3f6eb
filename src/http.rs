use vstd::prelude::*;

use crate::connection::RequestHeaders;
use crate::error::EsError;
use crate::json::Json;

verus! {

#[derive(Debug, Clone, Copy, PartialEq, Eq)]
pub enum HttpMethod {
    Get,
    Post,
    Put,
    Delete,
}

/// One request to send to the cluster.
#[derive(Debug)]
pub struct HttpRequest {
    pub method: HttpMethod,
    pub url: String,
    pub headers: RequestHeaders,
    pub body: Option<serde_json::Value>,
}

/// What came of sending a request.
#[derive(Debug)]
pub enum HttpReply {
    /// The transport failed (name resolution, TLS, refused, timed out), with its description.
    Failed(String),
    /// The cluster answered: the status, the body as text, and the body read as
    /// JSON or the reason it could not be.
    Answered { status: u16, text: String, body: Result<Json, String> },
}

pub open spec fn is_success(status: u16) -> bool {
    200 <= status && status <= 299
}

/// The JSON body of a successful answer, or the error that the reply stands for.
pub open spec fn reply_body(reply: HttpReply) -> Result<Json, EsError> {
    match reply {
        HttpReply::Failed(detail) => Err(EsError::Connection(detail)),
        HttpReply::Answered { status, text, body } => if !is_success(status) {
            Err(EsError::Server { status, body: text })
        } else {
            match body {
                Ok(j) => Ok(j),
                Err(m) => Err(EsError::ResponseParse(m)),
            }
        },
    }
}

/// Whether a status is in the 200..=299 range.
pub fn status_is_success(status: u16) -> (r: bool)
    ensures
        r == is_success(status),
{
    200 <= status && status <= 299
}

/// The JSON body of a successful answer, or the error that the reply stands for.
pub fn accept_reply(reply: HttpReply) -> (r: Result<Json, EsError>)
    ensures
        r == reply_body(reply),
{
    match reply {
        HttpReply::Failed(detail) => Err(EsError::Connection(detail)),
        HttpReply::Answered { status, text, body } => {
            if !status_is_success(status) {
                Err(EsError::Server { status, body: text })
            } else {
                match body {
                    Ok(j) => Ok(j),
                    Err(m) => Err(EsError::ResponseParse(m)),
                }
            }
        },
    }
}

} // verus!
