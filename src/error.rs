use vstd::prelude::*;

use crate::text::{decimal, decimal_text};

verus! {

/// Why an operation failed.
#[derive(Debug)]
pub enum EsError {
    /// No connection is active.
    NotConnected,
    /// The cluster could not be reached; the transport's description.
    Connection(String),
    /// The cluster answered with a status outside 200..=299, and this body.
    Server { status: u16, body: String },
    /// The answer did not have the expected shape.
    ResponseParse(String),
    /// The query text is not JSON.
    QuerySyntax(String),
    /// A header value holds a character that no header may carry.
    Encoding(String),
}

/// The text shown to the user for an error. A transport failure names the
/// likely causes.
pub open spec fn message_of(e: EsError) -> Seq<char> {
    match e {
        EsError::NotConnected => "Not connected to Elasticsearch"@,
        EsError::Connection(d) => "Error connecting to Elasticsearch: "@ + d@
            + ". This may be due to an invalid SSL certificate, network issue, or incorrect connection details."@,
        EsError::Server { status, body } => "Elasticsearch server returned an error - Status: "@
            + decimal(status as nat) + ", Response: "@ + body@,
        EsError::ResponseParse(m) => "Invalid response: "@ + m@,
        EsError::QuerySyntax(m) => "Invalid query: "@ + m@,
        EsError::Encoding(m) => "Invalid header: "@ + m@,
    }
}

impl EsError {
    /// The text shown to the user for this error.
    pub fn message(&self) -> (r: String)
        ensures
            r@ == message_of(*self),
    {
        match self {
            EsError::NotConnected => String::from_str("Not connected to Elasticsearch"),
            EsError::Connection(d) => {
                let mut s = String::from_str("Error connecting to Elasticsearch: ");
                s.append(d.as_str());
                s.append(
                    ". This may be due to an invalid SSL certificate, network issue, or incorrect connection details.",
                );
                s
            },
            EsError::Server { status, body } => {
                let mut s = String::from_str("Elasticsearch server returned an error - Status: ");
                let code = decimal_text(*status as u64);
                s.append(code.as_str());
                s.append(", Response: ");
                s.append(body.as_str());
                s
            },
            EsError::ResponseParse(m) => {
                let mut s = String::from_str("Invalid response: ");
                s.append(m.as_str());
                s
            },
            EsError::QuerySyntax(m) => {
                let mut s = String::from_str("Invalid query: ");
                s.append(m.as_str());
                s
            },
            EsError::Encoding(m) => {
                let mut s = String::from_str("Invalid header: ");
                s.append(m.as_str());
                s
            },
        }
    }
}

} // verus!
