use vstd::prelude::*;

use crate::bindings::{
    base64_of_text, base64_standard, header_value_accepted, is_base64_char, valid_header_value,
};
use crate::error::EsError;
use crate::text::{decimal, decimal_text, same_text};

verus! {

/// One cluster endpoint and the credentials to reach it. `auth_type` is
/// `"none"`, `"basic"` or `"apiKey"`.
#[derive(Debug)]
pub struct ElasticsearchConnection {
    pub id: String,
    pub name: String,
    pub host: String,
    pub port: u16,
    pub username: Option<String>,
    pub password: Option<String>,
    pub ssl: Option<bool>,
    pub api_key: Option<String>,
    pub auth_type: String,
}

/// The headers sent with every request to a cluster.
#[derive(Debug)]
pub struct RequestHeaders {
    pub content_type: String,
    pub authorization: Option<String>,
}

pub open spec fn opt_view(o: Option<String>) -> Option<Seq<char>> {
    match o {
        Some(s) => Some(s@),
        None => None,
    }
}

pub open spec fn scheme(c: ElasticsearchConnection) -> Seq<char> {
    if c.ssl == Some(true) {
        "https"@
    } else {
        "http"@
    }
}

/// `<scheme>://<host>:<port>`.
pub open spec fn base_url(c: ElasticsearchConnection) -> Seq<char> {
    scheme(c) + "://"@ + c.host@ + ":"@ + decimal(c.port as nat)
}

/// The `Authorization` value that a descriptor calls for, if any.
pub open spec fn authorization_value(c: ElasticsearchConnection) -> Option<Seq<char>> {
    if c.auth_type@ == "basic"@ {
        match (c.username, c.password) {
            (Some(u), Some(p)) => Some("Basic "@ + base64_of_text(u@ + ":"@ + p@)),
            _ => None,
        }
    } else if c.auth_type@ == "apiKey"@ {
        match c.api_key {
            Some(k) => Some("ApiKey "@ + k@),
            None => None,
        }
    } else {
        None
    }
}

/// Whether the headers for `c` can be written.
pub open spec fn auth_headers_ok(c: ElasticsearchConnection) -> bool {
    match authorization_value(c) {
        Some(v) => valid_header_value(v),
        None => true,
    }
}

/// `h` holds the JSON content type and the authorization that `c` calls for.
pub open spec fn headers_match(h: RequestHeaders, c: ElasticsearchConnection) -> bool {
    h.content_type@ == "application/json"@ && opt_view(h.authorization) == authorization_value(c)
}

fn copy_text(o: &Option<String>) -> (r: Option<String>)
    ensures
        r == *o,
{
    match o {
        Some(s) => Some(s.clone()),
        None => None,
    }
}

impl ElasticsearchConnection {
    /// A copy of the descriptor, equal to it.
    pub fn duplicate(&self) -> (r: ElasticsearchConnection)
        ensures
            r == *self,
    {
        ElasticsearchConnection {
            id: self.id.clone(),
            name: self.name.clone(),
            host: self.host.clone(),
            port: self.port,
            username: copy_text(&self.username),
            password: copy_text(&self.password),
            ssl: self.ssl,
            api_key: copy_text(&self.api_key),
            auth_type: self.auth_type.clone(),
        }
    }
}

/// The address of the cluster: the scheme follows `ssl` (`https` only where it
/// is `Some(true)`), then the host and the port.
pub fn get_base_url(conn: &ElasticsearchConnection) -> (r: String)
    ensures
        r@ == base_url(*conn),
{
    let secure = match conn.ssl {
        Some(b) => b,
        None => false,
    };
    let mut url = if secure {
        String::from_str("https")
    } else {
        String::from_str("http")
    };
    url.append("://");
    url.append(conn.host.as_str());
    url.append(":");
    let port = decimal_text(conn.port as u64);
    url.append(port.as_str());
    url
}

proof fn lemma_basic_value_valid(encoded: Seq<char>)
    requires
        forall|i: int| 0 <= i < encoded.len() ==> is_base64_char(#[trigger] encoded[i]),
    ensures
        valid_header_value("Basic "@ + encoded),
{
    reveal_strlit("Basic ");
    let v = "Basic "@ + encoded;
    assert forall|i: int| 0 <= i < v.len() implies crate::bindings::header_char_ok(
        #[trigger] v[i],
    ) by {
        if i >= 6 {
            assert(v[i] == encoded[i - 6]);
        }
    }
}

/// The headers for a request to the cluster of `conn`: the JSON content type,
/// and the `Authorization` that its `auth_type` calls for. With `"basic"` and
/// both a user name and a password it is `Basic ` and the base64 of
/// `user:password`; with `"apiKey"` and a key it is `ApiKey ` and the key;
/// otherwise there is none. A value that no header may carry is an `Encoding`
/// error.
pub fn create_auth_headers(conn: &ElasticsearchConnection) -> (r: Result<RequestHeaders, EsError>)
    ensures
        r is Ok <==> auth_headers_ok(*conn),
        r matches Ok(h) ==> headers_match(h, *conn),
        r matches Err(e) ==> e is Encoding,
        conn.auth_type@ == "basic"@ && conn.username is Some && conn.password is Some ==> (r matches Ok(
            h,
        ) && h.authorization matches Some(a) && a@ == "Basic "@ + base64_of_text(
            conn.username->Some_0@ + ":"@ + conn.password->Some_0@,
        )),
{
    let content_type = String::from_str("application/json");
    let mut value: Option<String> = None;
    if same_text(conn.auth_type.as_str(), "basic") {
        match (&conn.username, &conn.password) {
            (Some(u), Some(p)) => {
                let mut pair = u.clone();
                pair.append(":");
                pair.append(p.as_str());
                let encoded = base64_standard(pair.as_str());
                let mut v = String::from_str("Basic ");
                v.append(encoded.as_str());
                proof {
                    lemma_basic_value_valid(encoded@);
                }
                value = Some(v);
            },
            _ => {},
        }
    } else if same_text(conn.auth_type.as_str(), "apiKey") {
        match &conn.api_key {
            Some(k) => {
                let mut v = String::from_str("ApiKey ");
                v.append(k.as_str());
                value = Some(v);
            },
            None => {},
        }
    }
    match value {
        Some(v) => {
            if header_value_accepted(v.as_str()) {
                Ok(RequestHeaders { content_type, authorization: Some(v) })
            } else {
                Err(EsError::Encoding(String::from_str("invalid header value")))
            }
        },
        None => Ok(RequestHeaders { content_type, authorization: None }),
    }
}

} // verus!
