use vstd::prelude::*;

use crate::bindings::{is_json_text, parse_json_text};
use crate::connection::{
    auth_headers_ok, base_url, create_auth_headers, get_base_url, headers_match,
    ElasticsearchConnection,
};
use crate::error::EsError;
use crate::http::{accept_reply, reply_body, HttpMethod, HttpReply, HttpRequest};
use crate::json::Json;
use crate::model::{
    cluster_health_from_body, describes, hits_of, indices_from_body, is_cat_listing,
    query_fields_match, query_result_from_body, summarizes, ClusterHealth, ElasticsearchIndex,
    QueryResult,
};
use crate::session::SessionStore;

verus! {

/// `r` is the request with `method` to `url` on the cluster of `c`, with its
/// headers, or the `Encoding` error where they cannot be written.
pub open spec fn planned(
    r: Result<HttpRequest, EsError>,
    c: ElasticsearchConnection,
    method: HttpMethod,
    url: Seq<char>,
) -> bool {
    match r {
        Ok(req) => {
            &&& auth_headers_ok(c)
            &&& req.method == method
            &&& req.url@ == url
            &&& headers_match(req.headers, c)
            &&& (req.body is Some <==> method == HttpMethod::Post)
        },
        Err(e) => !auth_headers_ok(c) && e is Encoding,
    }
}

pub open spec fn health_url(c: ElasticsearchConnection) -> Seq<char> {
    base_url(c) + "/_cluster/health"@
}

pub open spec fn indices_url(c: ElasticsearchConnection) -> Seq<char> {
    base_url(c) + "/_cat/indices?format=json&v=true"@
}

pub open spec fn search_url(c: ElasticsearchConnection, index: Seq<char>) -> Seq<char> {
    base_url(c) + "/"@ + index + "/_search"@
}

fn get_request(conn: &ElasticsearchConnection, path: &str) -> (r: Result<HttpRequest, EsError>)
    ensures
        planned(r, *conn, HttpMethod::Get, base_url(*conn) + path@),
{
    let headers = match create_auth_headers(conn) {
        Ok(h) => h,
        Err(e) => {
            return Err(e);
        },
    };
    let mut url = get_base_url(conn);
    url.append(path);
    Ok(HttpRequest { method: HttpMethod::Get, url, headers, body: None })
}

/// The health request that checks a candidate connection before it is kept.
pub fn plan_connect(conn: &ElasticsearchConnection) -> (r: Result<HttpRequest, EsError>)
    ensures
        planned(r, *conn, HttpMethod::Get, health_url(*conn)),
{
    get_request(conn, "/_cluster/health")
}

/// The listing request for the active connection; `NotConnected` without one.
pub fn plan_list_indices(store: &SessionStore) -> (r: Result<HttpRequest, EsError>)
    ensures
        store@ is None ==> r == Err::<HttpRequest, EsError>(EsError::NotConnected),
        store@ matches Some(c) ==> planned(r, c, HttpMethod::Get, indices_url(c)),
{
    match store.get() {
        Ok(conn) => get_request(conn, "/_cat/indices?format=json&v=true"),
        Err(e) => Err(e),
    }
}

/// The health request for the active connection; `NotConnected` without one.
pub fn plan_cluster_health(store: &SessionStore) -> (r: Result<HttpRequest, EsError>)
    ensures
        store@ is None ==> r == Err::<HttpRequest, EsError>(EsError::NotConnected),
        store@ matches Some(c) ==> planned(r, c, HttpMethod::Get, health_url(c)),
{
    match store.get() {
        Ok(conn) => get_request(conn, "/_cluster/health"),
        Err(e) => Err(e),
    }
}

/// The search request for `query` on `index`. Query text that is not JSON is a
/// `QuerySyntax` error before anything else is looked at; then an active
/// connection is needed.
pub fn plan_query(store: &SessionStore, index: &str, query: &str) -> (r: Result<
    HttpRequest,
    EsError,
>)
    ensures
        !is_json_text(query@) ==> r matches Err(EsError::QuerySyntax(_)),
        is_json_text(query@) && store@ is None ==> r == Err::<HttpRequest, EsError>(
            EsError::NotConnected,
        ),
        is_json_text(query@) ==> (store@ matches Some(c) ==> planned(
            r,
            c,
            HttpMethod::Post,
            search_url(c, index@),
        )),
{
    let body = match parse_json_text(query) {
        Ok(v) => v,
        Err(m) => {
            return Err(EsError::QuerySyntax(m));
        },
    };
    let conn = match store.get() {
        Ok(c) => c,
        Err(e) => {
            return Err(e);
        },
    };
    let headers = match create_auth_headers(conn) {
        Ok(h) => h,
        Err(e) => {
            return Err(e);
        },
    };
    let mut url = get_base_url(conn);
    url.append("/");
    url.append(index);
    url.append("/_search");
    Ok(HttpRequest { method: HttpMethod::Post, url, headers, body: Some(body) })
}

/// The indices that a `_cat/indices` reply lists, one summary per row in order.
pub fn get_elasticsearch_indices(reply: HttpReply) -> (r: Result<Vec<ElasticsearchIndex>, EsError>)
    ensures
        reply_body(reply) matches Err(e) ==> r == Err::<Vec<ElasticsearchIndex>, EsError>(e),
        reply_body(reply) matches Ok(body) ==> {
            &&& r is Ok <==> is_cat_listing(body)
            &&& r matches Ok(v) ==> body matches Json::Array(rows) && v@.len() == rows@.len()
                && forall|i: int| 0 <= i < v@.len() ==> summarizes(#[trigger] v@[i], rows@[i])
            &&& r matches Err(e) ==> e is ResponseParse
        },
{
    match accept_reply(reply) {
        Ok(body) => indices_from_body(&body),
        Err(e) => Err(e),
    }
}

/// The search result that a `_search` reply holds.
pub fn execute_elasticsearch_query(reply: HttpReply) -> (r: Result<QueryResult, EsError>)
    ensures
        reply_body(reply) matches Err(e) ==> r == Err::<QueryResult, EsError>(e),
        reply_body(reply) matches Ok(body) ==> {
            &&& r is Ok <==> hits_of(body) is Array
            &&& r matches Ok(q) ==> hits_of(body) == Json::Array(q.hits) && query_fields_match(
                q,
                body,
            )
            &&& r matches Err(e) ==> e is ResponseParse
        },
{
    match accept_reply(reply) {
        Ok(body) => query_result_from_body(body),
        Err(e) => Err(e),
    }
}

/// The cluster state that a `_cluster/health` reply holds.
pub fn get_elasticsearch_cluster_health(reply: HttpReply) -> (r: Result<ClusterHealth, EsError>)
    ensures
        reply_body(reply) matches Err(e) ==> r == Err::<ClusterHealth, EsError>(e),
        reply_body(reply) matches Ok(body) ==> r matches Ok(h) && describes(h, body),
{
    match accept_reply(reply) {
        Ok(body) => Ok(cluster_health_from_body(&body)),
        Err(e) => Err(e),
    }
}

} // verus!
