use elastico::connection::{create_auth_headers, get_base_url, ElasticsearchConnection};
use elastico::error::EsError;
use elastico::http::{accept_reply, HttpMethod, HttpReply};
use elastico::json::{Json, JsonNumber};
use elastico::model::{cluster_health_from_body, index_from_row, indices_from_body};
use elastico::ops::{
    execute_elasticsearch_query, get_elasticsearch_cluster_health, get_elasticsearch_indices,
    plan_cluster_health, plan_connect, plan_list_indices, plan_query,
};
use elastico::session::{connect_to_elasticsearch, disconnect_from_elasticsearch, SessionStore};
use elastico::text::{decimal_text, parse_u32, parse_u64};

fn conn(auth: &str, user: Option<&str>, pass: Option<&str>, key: Option<&str>) -> ElasticsearchConnection {
    ElasticsearchConnection {
        id: "c1".to_string(),
        name: "local".to_string(),
        host: "localhost".to_string(),
        port: 9200,
        username: user.map(|s| s.to_string()),
        password: pass.map(|s| s.to_string()),
        ssl: None,
        api_key: key.map(|s| s.to_string()),
        auth_type: auth.to_string(),
    }
}

fn s(t: &str) -> Json {
    Json::Str(t.to_string())
}

fn n(v: u64) -> Json {
    Json::Number(JsonNumber::Unsigned(v))
}

fn obj(members: Vec<(&str, Json)>) -> Json {
    Json::Object(members.into_iter().map(|(k, v)| (k.to_string(), v)).collect())
}

fn ok_reply(body: Json) -> HttpReply {
    HttpReply::Answered { status: 200, text: String::new(), body: Ok(body) }
}

fn same_conn(a: &ElasticsearchConnection, b: &ElasticsearchConnection) -> bool {
    a.id == b.id
        && a.name == b.name
        && a.host == b.host
        && a.port == b.port
        && a.username == b.username
        && a.password == b.password
        && a.ssl == b.ssl
        && a.api_key == b.api_key
        && a.auth_type == b.auth_type
}

#[test]
fn basic_auth_header_is_base64_of_user_and_password() {
    let h = create_auth_headers(&conn("basic", Some("elastic"), Some("changeme"), None)).unwrap();
    assert_eq!(h.content_type, "application/json");
    assert_eq!(h.authorization.as_deref(), Some("Basic ZWxhc3RpYzpjaGFuZ2VtZQ=="));
}

#[test]
fn basic_auth_header_encodes_utf8_bytes() {
    let h = create_auth_headers(&conn("basic", Some("jösé"), Some("pä"), None)).unwrap();
    assert_eq!(h.authorization.as_deref(), Some("Basic asO2c8OpOnDDpA=="));
}

#[test]
fn basic_auth_without_password_sends_no_authorization() {
    let h = create_auth_headers(&conn("basic", Some("elastic"), None, None)).unwrap();
    assert_eq!(h.authorization, None);
}

#[test]
fn api_key_header() {
    let h = create_auth_headers(&conn("apiKey", None, None, Some("abc123"))).unwrap();
    assert_eq!(h.authorization.as_deref(), Some("ApiKey abc123"));
}

#[test]
fn no_auth_sends_only_content_type() {
    let h = create_auth_headers(&conn("none", Some("u"), Some("p"), Some("k"))).unwrap();
    assert_eq!(h.content_type, "application/json");
    assert_eq!(h.authorization, None);
}

#[test]
fn api_key_with_line_break_is_encoding_error() {
    let r = create_auth_headers(&conn("apiKey", None, None, Some("ab\ncd")));
    assert!(matches!(r, Err(EsError::Encoding(_))));
}

#[test]
fn base_url_follows_ssl_flag() {
    let mut c = conn("none", None, None, None);
    assert_eq!(get_base_url(&c), "http://localhost:9200");
    c.ssl = Some(true);
    c.port = 443;
    assert_eq!(get_base_url(&c), "https://localhost:443");
    c.ssl = Some(false);
    assert_eq!(get_base_url(&c), "http://localhost:443");
}

#[test]
fn decimal_text_edges() {
    assert_eq!(decimal_text(0), "0");
    assert_eq!(decimal_text(65535), "65535");
    assert_eq!(decimal_text(u64::MAX), "18446744073709551615");
}

#[test]
fn parse_numbers_like_std() {
    assert_eq!(parse_u64("1000"), Some(1000));
    assert_eq!(parse_u64("+7"), Some(7));
    assert_eq!(parse_u64("+"), None);
    assert_eq!(parse_u64(""), None);
    assert_eq!(parse_u64("-1"), None);
    assert_eq!(parse_u64("12a"), None);
    assert_eq!(parse_u64("18446744073709551615"), Some(u64::MAX));
    assert_eq!(parse_u64("18446744073709551616"), None);
    assert_eq!(parse_u32("4294967295"), Some(u32::MAX));
    assert_eq!(parse_u32("4294967296"), None);
}

#[test]
fn disconnect_then_get_is_not_connected() {
    let mut store = SessionStore::new();
    assert!(matches!(disconnect_from_elasticsearch(&mut store), Ok(true)));
    assert!(matches!(store.get(), Err(EsError::NotConnected)));
    let c = conn("none", None, None, None);
    let _ = connect_to_elasticsearch(&mut store, c, ok_reply(obj(vec![])));
    assert!(store.get().is_ok());
    assert!(matches!(disconnect_from_elasticsearch(&mut store), Ok(true)));
    assert!(matches!(store.get(), Err(EsError::NotConnected)));
}

#[test]
fn successful_connect_stores_descriptor() {
    let mut store = SessionStore::new();
    let c = conn("basic", Some("elastic"), Some("pw"), None);
    let expected = c.duplicate();
    let health = obj(vec![("cluster_name", s("prod")), ("status", s("green"))]);
    let out = connect_to_elasticsearch(&mut store, c, ok_reply(health)).unwrap();
    assert!(out.connected);
    assert_eq!(out.cluster_name, "prod");
    assert_eq!(out.status, "green");
    assert!(same_conn(&out.connection, &expected));
    assert!(same_conn(store.get().unwrap(), &expected));
}

#[test]
fn connect_reports_unknown_for_missing_name_and_status() {
    let mut store = SessionStore::new();
    let out = connect_to_elasticsearch(&mut store, conn("none", None, None, None), ok_reply(obj(vec![]))).unwrap();
    assert_eq!(out.cluster_name, "unknown");
    assert_eq!(out.status, "unknown");
}

#[test]
fn failed_connect_leaves_session_unchanged() {
    let mut store = SessionStore::new();
    let first = conn("none", None, None, None);
    let kept = first.duplicate();
    connect_to_elasticsearch(&mut store, first, ok_reply(obj(vec![]))).unwrap();

    let mut other = conn("none", None, None, None);
    other.host = "elsewhere".to_string();
    let r = connect_to_elasticsearch(&mut store, other.duplicate(), HttpReply::Failed("refused".to_string()));
    assert!(matches!(r, Err(EsError::Connection(_))));
    assert!(same_conn(store.get().unwrap(), &kept));

    let r = connect_to_elasticsearch(
        &mut store,
        other.duplicate(),
        HttpReply::Answered { status: 401, text: "denied".to_string(), body: Err("x".to_string()) },
    );
    match r {
        Err(EsError::Server { status, body }) => {
            assert_eq!(status, 401);
            assert_eq!(body, "denied");
        }
        _ => panic!("expected a server error"),
    }
    assert!(same_conn(store.get().unwrap(), &kept));

    let r = connect_to_elasticsearch(
        &mut store,
        other,
        HttpReply::Answered { status: 200, text: "<html>".to_string(), body: Err("expected value".to_string()) },
    );
    assert!(matches!(r, Err(EsError::ResponseParse(_))));
    assert!(same_conn(store.get().unwrap(), &kept));
}

#[test]
fn failed_connect_on_empty_session_stays_empty() {
    let mut store = SessionStore::new();
    let r = connect_to_elasticsearch(&mut store, conn("none", None, None, None), HttpReply::Failed("dns".to_string()));
    assert!(r.is_err());
    assert!(matches!(store.get(), Err(EsError::NotConnected)));
}

#[test]
fn query_that_is_not_json_fails_before_any_request() {
    let store = SessionStore::new();
    assert!(matches!(plan_query(&store, "logs", "not json"), Err(EsError::QuerySyntax(_))));
    let mut connected = SessionStore::new();
    connected.set(conn("none", None, None, None));
    assert!(matches!(plan_query(&connected, "logs", "not json"), Err(EsError::QuerySyntax(_))));
}

#[test]
fn query_request_posts_to_search() {
    let mut store = SessionStore::new();
    store.set(conn("apiKey", None, None, Some("k")));
    let req = plan_query(&store, "logs", "{\"query\":{\"match_all\":{}}}").unwrap();
    assert_eq!(req.method, HttpMethod::Post);
    assert_eq!(req.url, "http://localhost:9200/logs/_search");
    assert_eq!(req.headers.authorization.as_deref(), Some("ApiKey k"));
    assert!(req.body.is_some());
}

#[test]
fn query_without_session_is_not_connected() {
    let store = SessionStore::new();
    assert!(matches!(plan_query(&store, "logs", "{}"), Err(EsError::NotConnected)));
}

#[test]
fn listing_and_health_need_a_session() {
    let store = SessionStore::new();
    assert!(matches!(plan_list_indices(&store), Err(EsError::NotConnected)));
    assert!(matches!(plan_cluster_health(&store), Err(EsError::NotConnected)));
}

#[test]
fn requests_for_active_session() {
    let mut store = SessionStore::new();
    let mut c = conn("none", None, None, None);
    c.ssl = Some(true);
    store.set(c);
    let list = plan_list_indices(&store).unwrap();
    assert_eq!(list.method, HttpMethod::Get);
    assert_eq!(list.url, "https://localhost:9200/_cat/indices?format=json&v=true");
    assert!(list.body.is_none());
    let health = plan_cluster_health(&store).unwrap();
    assert_eq!(health.url, "https://localhost:9200/_cluster/health");
    let check = plan_connect(&conn("none", None, None, None)).unwrap();
    assert_eq!(check.url, "http://localhost:9200/_cluster/health");
    assert_eq!(check.headers.content_type, "application/json");
}

fn search_body_object_total() -> Json {
    obj(vec![
        (
            "hits",
            obj(vec![
                ("total", obj(vec![("value", n(5)), ("relation", s("eq"))])),
                ("hits", Json::Array(vec![obj(vec![("_id", s("1"))]), obj(vec![("_id", s("2"))])])),
            ]),
        ),
        ("took", n(12)),
        ("timed_out", Json::Bool(false)),
        ("_shards", obj(vec![("total", n(1)), ("successful", n(1)), ("failed", n(0)), ("skipped", n(0))])),
    ])
}

#[test]
fn query_result_with_object_total() {
    let q = execute_elasticsearch_query(ok_reply(search_body_object_total())).unwrap();
    assert_eq!(q.total, 5);
    assert_eq!(q.took, 12);
    assert!(!q.timed_out);
    assert_eq!(q.hits.len(), 2);
    assert_eq!(q.shards.total, 1);
    assert_eq!(q.shards.successful, 1);
    assert_eq!(q.shards.failed, 0);
    assert_eq!(q.shards.skipped, 0);
}

#[test]
fn query_result_with_scalar_total() {
    let body = obj(vec![("hits", obj(vec![("total", n(5)), ("hits", Json::Array(vec![]))]))]);
    let q = execute_elasticsearch_query(ok_reply(body)).unwrap();
    assert_eq!(q.total, 5);
    assert_eq!(q.took, 0);
    assert!(!q.timed_out);
    assert!(q.hits.is_empty());
    assert_eq!(q.shards.total, 0);
}

#[test]
fn query_result_without_hits_array_is_parse_error() {
    let body = obj(vec![("hits", obj(vec![("total", n(5))]))]);
    assert!(matches!(execute_elasticsearch_query(ok_reply(body)), Err(EsError::ResponseParse(_))));
    assert!(matches!(execute_elasticsearch_query(ok_reply(obj(vec![]))), Err(EsError::ResponseParse(_))));
}

#[test]
fn query_server_error_carries_status() {
    let reply = HttpReply::Answered { status: 400, text: "bad".to_string(), body: Err(String::new()) };
    match execute_elasticsearch_query(reply) {
        Err(e @ EsError::Server { .. }) => {
            assert_eq!(e.message(), "Elasticsearch server returned an error - Status: 400, Response: bad");
        }
        _ => panic!("expected a server error"),
    }
}

#[test]
fn cat_row_with_missing_fields_uses_defaults() {
    let row = obj(vec![
        ("index", s("logs")),
        ("health", s("green")),
        ("status", s("open")),
        ("docs.count", s("1000")),
        ("pri", s("3")),
    ]);
    let ix = index_from_row(&row);
    assert_eq!(ix.name, "logs");
    assert_eq!(ix.health, "green");
    assert_eq!(ix.status, "open");
    assert_eq!(ix.docs_count, 1000);
    assert_eq!(ix.docs_deleted, 0);
    assert_eq!(ix.primary_shards, 3);
    assert_eq!(ix.replica_shards, 0);
    assert_eq!(ix.storage_size, "");
}

#[test]
fn cat_row_with_unreadable_number_defaults_to_zero() {
    let row = obj(vec![("docs.count", s("many")), ("rep", s("99999999999"))]);
    let ix = index_from_row(&row);
    assert_eq!(ix.docs_count, 0);
    assert_eq!(ix.replica_shards, 0);
    assert_eq!(ix.name, "");
}

#[test]
fn listing_keeps_row_order() {
    let body = Json::Array(vec![obj(vec![("index", s("a"))]), obj(vec![("index", s("b"))])]);
    let v = get_elasticsearch_indices(ok_reply(body)).unwrap();
    assert_eq!(v.len(), 2);
    assert_eq!(v[0].name, "a");
    assert_eq!(v[1].name, "b");
}

#[test]
fn listing_rejects_non_string_values_and_non_arrays() {
    let body = Json::Array(vec![obj(vec![("index", s("a")), ("docs.count", Json::Null)])]);
    assert!(matches!(indices_from_body(&body), Err(EsError::ResponseParse(_))));
    assert!(matches!(indices_from_body(&obj(vec![])), Err(EsError::ResponseParse(_))));
    assert!(matches!(indices_from_body(&Json::Array(vec![])), Ok(v) if v.is_empty()));
}

#[test]
fn cluster_health_reads_fields_and_defaults() {
    let body = obj(vec![
        ("cluster_name", s("prod")),
        ("status", s("yellow")),
        ("number_of_nodes", n(3)),
        ("active_shards", n(10)),
        ("number_of_pending_tasks", n(2)),
    ]);
    let h = get_elasticsearch_cluster_health(ok_reply(body)).unwrap();
    assert_eq!(h.cluster_name, "prod");
    assert_eq!(h.status, "yellow");
    assert_eq!(h.number_of_nodes, 3);
    assert_eq!(h.number_of_data_nodes, 0);
    assert_eq!(h.active_shards, 10);
    assert_eq!(h.unassigned_shards, 0);
    assert_eq!(h.pending_tasks, 2);
    let empty = cluster_health_from_body(&Json::Null);
    assert_eq!(empty.cluster_name, "");
    assert_eq!(empty.status, "");
    assert_eq!(empty.number_of_nodes, 0);
}

#[test]
fn cluster_health_keeps_low_bits_of_large_counts() {
    let h = cluster_health_from_body(&obj(vec![("number_of_nodes", n(4_294_967_297))]));
    assert_eq!(h.number_of_nodes, 1);
}

#[test]
fn later_duplicate_member_wins() {
    let h = cluster_health_from_body(&obj(vec![("status", s("red")), ("status", s("green"))]));
    assert_eq!(h.status, "green");
}

#[test]
fn transport_failure_is_connection_error_with_hint() {
    let r = get_elasticsearch_cluster_health(HttpReply::Failed("timed out".to_string()));
    match r {
        Err(e @ EsError::Connection(_)) => {
            let m = e.message();
            assert!(m.starts_with("Error connecting to Elasticsearch: timed out."));
            assert!(m.contains("invalid SSL certificate"));
        }
        _ => panic!("expected a connection error"),
    }
}

#[test]
fn reply_status_boundaries() {
    let ok = HttpReply::Answered { status: 299, text: String::new(), body: Ok(Json::Null) };
    assert!(accept_reply(ok).is_ok());
    let redirect = HttpReply::Answered { status: 300, text: String::new(), body: Ok(Json::Null) };
    assert!(matches!(accept_reply(redirect), Err(EsError::Server { status: 300, .. })));
    let low = HttpReply::Answered { status: 199, text: String::new(), body: Ok(Json::Null) };
    assert!(matches!(accept_reply(low), Err(EsError::Server { status: 199, .. })));
}

#[test]
fn not_connected_message() {
    assert_eq!(EsError::NotConnected.message(), "Not connected to Elasticsearch");
}
