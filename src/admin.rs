use vstd::prelude::*;

use crate::bindings::{is_json_text, parse_json_text};
use crate::connection::{
    auth_headers_ok, base_url, create_auth_headers, get_base_url, headers_match,
    ElasticsearchConnection,
};
use crate::error::EsError;
use crate::http::{accept_reply, reply_body, HttpMethod, HttpReply, HttpRequest};
use crate::json::Json;
use crate::session::SessionStore;

verus! {

/// The administrative operations on one index.
#[derive(Debug, Clone, Copy, PartialEq, Eq)]
pub enum AdminOperation {
    /// `DELETE /<index>`.
    DeleteIndex,
    /// `POST /<index>/_delete_by_query`, matching every document.
    DeleteAllDocuments,
    /// `POST /<index>/_delete_by_query` with the caller's query.
    DeleteDocuments,
    /// `PUT /<index>`, with the caller's settings and mappings if any.
    CreateIndex,
    /// `POST /<index>/_doc` with the caller's document.
    CreateDocument,
    /// `GET /<index>/_mapping`.
    GetIndexMappings,
    /// `GET /<index>/_settings`.
    GetIndexSettings,
}

pub open spec fn admin_method(op: AdminOperation) -> HttpMethod {
    match op {
        AdminOperation::DeleteIndex => HttpMethod::Delete,
        AdminOperation::DeleteAllDocuments => HttpMethod::Post,
        AdminOperation::DeleteDocuments => HttpMethod::Post,
        AdminOperation::CreateIndex => HttpMethod::Put,
        AdminOperation::CreateDocument => HttpMethod::Post,
        AdminOperation::GetIndexMappings => HttpMethod::Get,
        AdminOperation::GetIndexSettings => HttpMethod::Get,
    }
}

/// What follows `/<index>` in the address.
pub open spec fn admin_suffix(op: AdminOperation) -> Seq<char> {
    match op {
        AdminOperation::DeleteIndex => ""@,
        AdminOperation::DeleteAllDocuments => "/_delete_by_query"@,
        AdminOperation::DeleteDocuments => "/_delete_by_query"@,
        AdminOperation::CreateIndex => ""@,
        AdminOperation::CreateDocument => "/_doc"@,
        AdminOperation::GetIndexMappings => "/_mapping"@,
        AdminOperation::GetIndexSettings => "/_settings"@,
    }
}

/// The body text sent: the match-everything query for `DeleteAllDocuments`,
/// the caller's text for the operations that take one, none for the others.
pub open spec fn admin_body(op: AdminOperation, body: Option<Seq<char>>) -> Option<Seq<char>> {
    match op {
        AdminOperation::DeleteAllDocuments => Some("{\"query\":{\"match_all\":{}}}"@),
        AdminOperation::DeleteDocuments => body,
        AdminOperation::CreateIndex => body,
        AdminOperation::CreateDocument => body,
        _ => None,
    }
}

pub open spec fn admin_url(c: ElasticsearchConnection, op: AdminOperation, index: Seq<char>) -> Seq<
    char,
> {
    base_url(c) + "/"@ + index + admin_suffix(op)
}

fn method_of(op: AdminOperation) -> (r: HttpMethod)
    ensures
        r == admin_method(op),
{
    match op {
        AdminOperation::DeleteIndex => HttpMethod::Delete,
        AdminOperation::DeleteAllDocuments => HttpMethod::Post,
        AdminOperation::DeleteDocuments => HttpMethod::Post,
        AdminOperation::CreateIndex => HttpMethod::Put,
        AdminOperation::CreateDocument => HttpMethod::Post,
        AdminOperation::GetIndexMappings => HttpMethod::Get,
        AdminOperation::GetIndexSettings => HttpMethod::Get,
    }
}

fn suffix_of(op: AdminOperation) -> (r: &'static str)
    ensures
        r@ == admin_suffix(op),
{
    match op {
        AdminOperation::DeleteIndex => "",
        AdminOperation::DeleteAllDocuments => "/_delete_by_query",
        AdminOperation::DeleteDocuments => "/_delete_by_query",
        AdminOperation::CreateIndex => "",
        AdminOperation::CreateDocument => "/_doc",
        AdminOperation::GetIndexMappings => "/_mapping",
        AdminOperation::GetIndexSettings => "/_settings",
    }
}

fn body_of<'a>(op: AdminOperation, body: Option<&'a str>) -> (r: Option<&'a str>)
    ensures
        admin_body(op, text_view(body)) == text_view(r),
{
    match op {
        AdminOperation::DeleteAllDocuments => Some("{\"query\":{\"match_all\":{}}}"),
        AdminOperation::DeleteDocuments => body,
        AdminOperation::CreateIndex => body,
        AdminOperation::CreateDocument => body,
        _ => None,
    }
}

pub open spec fn text_view(o: Option<&str>) -> Option<Seq<char>> {
    match o {
        Some(t) => Some(t@),
        None => None,
    }
}

/// Whether the body text, if any, is JSON.
pub open spec fn body_ok(text: Option<Seq<char>>) -> bool {
    match text {
        Some(t) => is_json_text(t),
        None => true,
    }
}

/// `r` is the request for `op` on `index` of the cluster of `c`, with a body
/// exactly where `text` is one, or the `Encoding` error where the headers
/// cannot be written.
pub open spec fn admin_planned(
    r: Result<HttpRequest, EsError>,
    c: ElasticsearchConnection,
    op: AdminOperation,
    index: Seq<char>,
    text: Option<Seq<char>>,
) -> bool {
    match r {
        Ok(req) => {
            &&& auth_headers_ok(c)
            &&& req.method == admin_method(op)
            &&& req.url@ == admin_url(c, op, index)
            &&& headers_match(req.headers, c)
            &&& (req.body is Some <==> text is Some)
        },
        Err(e) => !auth_headers_ok(c) && e is Encoding,
    }
}

/// The request for `op` on `index` of the active connection. Body text that
/// is not JSON is a `QuerySyntax` error before anything else is looked at;
/// then an active connection is needed.
pub fn plan_admin(store: &SessionStore, op: AdminOperation, index: &str, body: Option<&str>) -> (r:
    Result<HttpRequest, EsError>)
    ensures
        !body_ok(admin_body(op, text_view(body))) ==> r matches Err(EsError::QuerySyntax(_)),
        body_ok(admin_body(op, text_view(body))) && store@ is None ==> r == Err::<
            HttpRequest,
            EsError,
        >(EsError::NotConnected),
        body_ok(admin_body(op, text_view(body))) ==> (store@ matches Some(c) ==> admin_planned(
            r,
            c,
            op,
            index@,
            admin_body(op, text_view(body)),
        )),
{
    let payload = match body_of(op, body) {
        Some(t) => match parse_json_text(t) {
            Ok(v) => Some(v),
            Err(m) => {
                return Err(EsError::QuerySyntax(m));
            },
        },
        None => None,
    };
    let conn = match store.get() {
        Ok(c) => c,
        Err(e) => {
            return Err(e);
        },
    };
    let headers = match create_auth_headers(conn) {
        Ok(h) => h,
        Err(e) => {
            return Err(e);
        },
    };
    let mut url = get_base_url(conn);
    url.append("/");
    url.append(index);
    url.append(suffix_of(op));
    Ok(HttpRequest { method: method_of(op), url, headers, body: payload })
}

/// The answer to an administrative request: the JSON body of a successful
/// reply, or the error that the reply stands for.
pub fn admin_result(reply: HttpReply) -> (r: Result<Json, EsError>)
    ensures
        r == reply_body(reply),
{
    accept_reply(reply)
}

} // verus!
