use vstd::prelude::*;

use crate::error::EsError;
use crate::json::{
    bool_or_false, get_member, into_member, member, read_bool, read_str, read_text_u32,
    read_text_u64, read_u32, read_u64, step, str_or, text_u32_or_zero, text_u64_or_zero,
    u32_or_zero, u64_or_zero, Json, JsonNumber,
};

verus! {

/// One search index as `_cat/indices` lists it.
#[derive(Debug)]
pub struct ElasticsearchIndex {
    pub name: String,
    pub health: String,
    pub status: String,
    pub docs_count: u64,
    pub docs_deleted: u64,
    pub primary_shards: u32,
    pub replica_shards: u32,
    pub storage_size: String,
}

/// How the shards fared in one search.
#[derive(Debug, Clone, Copy, PartialEq, Eq)]
pub struct QueryShards {
    pub total: u32,
    pub successful: u32,
    pub failed: u32,
    pub skipped: u32,
}

/// A search answer in one fixed shape.
#[derive(Debug)]
pub struct QueryResult {
    pub hits: Vec<Json>,
    pub total: u64,
    pub took: u64,
    pub timed_out: bool,
    pub shards: QueryShards,
}

/// The state of a cluster.
#[derive(Debug)]
pub struct ClusterHealth {
    pub cluster_name: String,
    pub status: String,
    pub number_of_nodes: u32,
    pub number_of_data_nodes: u32,
    pub active_primary_shards: u32,
    pub active_shards: u32,
    pub relocating_shards: u32,
    pub initializing_shards: u32,
    pub unassigned_shards: u32,
    pub pending_tasks: u32,
}

/// A row of `_cat/indices`: an object whose members are all strings.
pub open spec fn is_flat_row(row: Json) -> bool {
    match row {
        Json::Object(entries) => forall|i: int|
            0 <= i < entries@.len() ==> (#[trigger] entries@[i]).1 is Str,
        _ => false,
    }
}

/// A `_cat/indices` answer: an array of flat rows.
pub open spec fn is_cat_listing(body: Json) -> bool {
    match body {
        Json::Array(rows) => forall|i: int| 0 <= i < rows@.len() ==> is_flat_row(#[trigger] rows@[i]),
        _ => false,
    }
}

/// `ix` is what `row` says of its index, with 0 and the empty text for what it
/// lacks or cannot be read as a number.
pub open spec fn summarizes(ix: ElasticsearchIndex, row: Json) -> bool {
    &&& ix.name@ == str_or(member(row, "index"@), Seq::empty())
    &&& ix.health@ == str_or(member(row, "health"@), Seq::empty())
    &&& ix.status@ == str_or(member(row, "status"@), Seq::empty())
    &&& ix.docs_count == text_u64_or_zero(member(row, "docs.count"@))
    &&& ix.docs_deleted == text_u64_or_zero(member(row, "docs.deleted"@))
    &&& ix.primary_shards == text_u32_or_zero(member(row, "pri"@))
    &&& ix.replica_shards == text_u32_or_zero(member(row, "rep"@))
    &&& ix.storage_size@ == str_or(member(row, "store.size"@), Seq::empty())
}

/// The match count of a search answer, in either of its two forms: a number at
/// `hits.total`, or an object there with the number at `value`.
pub open spec fn total_of(body: Json) -> u64 {
    let t = member(member(body, "hits"@), "total"@);
    if t is Object {
        u64_or_zero(member(t, "value"@))
    } else {
        u64_or_zero(t)
    }
}

/// The match count is the same number whether `hits.total` is the number
/// itself or an object that holds it at `value`.
pub proof fn lemma_total_forms_agree(scalar: Json, wrapped: Json, n: u64)
    requires
        member(member(scalar, "hits"@), "total"@) == Json::Number(JsonNumber::Unsigned(n)),
        member(member(wrapped, "hits"@), "total"@) is Object,
        member(member(member(wrapped, "hits"@), "total"@), "value"@) == Json::Number(
            JsonNumber::Unsigned(n),
        ),
    ensures
        total_of(scalar) == n,
        total_of(wrapped) == total_of(scalar),
{
}

/// The documents of a search answer, at `hits.hits`.
pub open spec fn hits_of(body: Json) -> Json {
    member(member(body, "hits"@), "hits"@)
}

/// Everything of `q` but its documents is what `body` says, with 0 and `false`
/// for what it lacks.
pub open spec fn query_fields_match(q: QueryResult, body: Json) -> bool {
    let shards = member(body, "_shards"@);
    &&& q.total == total_of(body)
    &&& q.took == u64_or_zero(member(body, "took"@))
    &&& q.timed_out == bool_or_false(member(body, "timed_out"@))
    &&& q.shards.total == u32_or_zero(member(shards, "total"@))
    &&& q.shards.successful == u32_or_zero(member(shards, "successful"@))
    &&& q.shards.failed == u32_or_zero(member(shards, "failed"@))
    &&& q.shards.skipped == u32_or_zero(member(shards, "skipped"@))
}

/// `h` is what a `_cluster/health` answer says, with 0 and the empty text for
/// what it lacks.
pub open spec fn describes(h: ClusterHealth, body: Json) -> bool {
    &&& h.cluster_name@ == str_or(member(body, "cluster_name"@), Seq::empty())
    &&& h.status@ == str_or(member(body, "status"@), Seq::empty())
    &&& h.number_of_nodes == u32_or_zero(member(body, "number_of_nodes"@))
    &&& h.number_of_data_nodes == u32_or_zero(member(body, "number_of_data_nodes"@))
    &&& h.active_primary_shards == u32_or_zero(member(body, "active_primary_shards"@))
    &&& h.active_shards == u32_or_zero(member(body, "active_shards"@))
    &&& h.relocating_shards == u32_or_zero(member(body, "relocating_shards"@))
    &&& h.initializing_shards == u32_or_zero(member(body, "initializing_shards"@))
    &&& h.unassigned_shards == u32_or_zero(member(body, "unassigned_shards"@))
    &&& h.pending_tasks == u32_or_zero(member(body, "number_of_pending_tasks"@))
}

/// Reads one row of `_cat/indices`.
pub fn index_from_row(row: &Json) -> (r: ElasticsearchIndex)
    ensures
        summarizes(r, *row),
{
    proof {
        reveal_strlit("");
        assert(""@ =~= Seq::<char>::empty());
    }
    ElasticsearchIndex {
        name: read_str(get_member(row, "index"), ""),
        health: read_str(get_member(row, "health"), ""),
        status: read_str(get_member(row, "status"), ""),
        docs_count: read_text_u64(get_member(row, "docs.count")),
        docs_deleted: read_text_u64(get_member(row, "docs.deleted")),
        primary_shards: read_text_u32(get_member(row, "pri")),
        replica_shards: read_text_u32(get_member(row, "rep")),
        storage_size: read_str(get_member(row, "store.size"), ""),
    }
}

fn row_is_flat(row: &Json) -> (r: bool)
    ensures
        r == is_flat_row(*row),
{
    match row {
        Json::Object(entries) => {
            let mut i: usize = 0;
            while i < entries.len()
                invariant
                    *row == Json::Object(*entries),
                    i <= entries@.len(),
                    forall|j: int| 0 <= j < i ==> (#[trigger] entries@[j]).1 is Str,
                decreases entries@.len() - i,
            {
                match &entries[i].1 {
                    Json::Str(_) => {},
                    _ => {
                        assert(!(entries@[i as int].1 is Str));
                        return false;
                    },
                }
                i = i + 1;
            }
            true
        },
        _ => false,
    }
}

/// Reads a `_cat/indices` answer into one summary per row, in order.
pub fn indices_from_body(body: &Json) -> (r: Result<Vec<ElasticsearchIndex>, EsError>)
    ensures
        r is Ok <==> is_cat_listing(*body),
        r matches Ok(v) ==> body matches Json::Array(rows) && v@.len() == rows@.len() && forall|i: int|
            0 <= i < v@.len() ==> summarizes(#[trigger] v@[i], rows@[i]),
        r matches Err(e) ==> e is ResponseParse,
{
    match body {
        Json::Array(rows) => {
            let mut out: Vec<ElasticsearchIndex> = Vec::new();
            let mut i: usize = 0;
            while i < rows.len()
                invariant
                    *body == Json::Array(*rows),
                    i <= rows@.len(),
                    out@.len() == i,
                    forall|j: int| 0 <= j < i ==> is_flat_row(#[trigger] rows@[j]),
                    forall|j: int| 0 <= j < i ==> summarizes(#[trigger] out@[j], rows@[j]),
                decreases rows@.len() - i,
            {
                if !row_is_flat(&rows[i]) {
                    let ghost bad = rows@[i as int];
                    assert(!is_flat_row(bad));
                    assert(body matches Json::Array(all) && all@[i as int] == bad);
                    return Err(EsError::ResponseParse(String::from_str("an index row holds a value that is not a string")));
                }
                out.push(index_from_row(&rows[i]));
                i = i + 1;
            }
            Ok(out)
        },
        _ => Err(EsError::ResponseParse(String::from_str("the index listing is not an array"))),
    }
}

/// Reads a search answer. The documents at `hits.hits` must be an array.
pub fn query_result_from_body(body: Json) -> (r: Result<QueryResult, EsError>)
    ensures
        r is Ok <==> hits_of(body) is Array,
        r matches Ok(q) ==> hits_of(body) == Json::Array(q.hits) && query_fields_match(q, body),
        r matches Err(e) ==> e is ResponseParse,
{
    let hits_obj = get_member(&body, "hits");
    let total_field = step(hits_obj, "total");
    let total = match total_field {
        Some(Json::Object(_)) => read_u64(step(total_field, "value")),
        _ => read_u64(total_field),
    };
    let took = read_u64(get_member(&body, "took"));
    let timed_out = read_bool(get_member(&body, "timed_out"));
    let shards_obj = get_member(&body, "_shards");
    let shards = QueryShards {
        total: read_u32(step(shards_obj, "total")),
        successful: read_u32(step(shards_obj, "successful")),
        failed: read_u32(step(shards_obj, "failed")),
        skipped: read_u32(step(shards_obj, "skipped")),
    };
    let hits = into_member(into_member(body, "hits"), "hits");
    match hits {
        Json::Array(docs) => Ok(QueryResult { hits: docs, total, took, timed_out, shards }),
        _ => Err(EsError::ResponseParse(String::from_str("Invalid response format"))),
    }
}

/// Reads a `_cluster/health` answer.
pub fn cluster_health_from_body(body: &Json) -> (r: ClusterHealth)
    ensures
        describes(r, *body),
{
    proof {
        reveal_strlit("");
        assert(""@ =~= Seq::<char>::empty());
    }
    ClusterHealth {
        cluster_name: read_str(get_member(body, "cluster_name"), ""),
        status: read_str(get_member(body, "status"), ""),
        number_of_nodes: read_u32(get_member(body, "number_of_nodes")),
        number_of_data_nodes: read_u32(get_member(body, "number_of_data_nodes")),
        active_primary_shards: read_u32(get_member(body, "active_primary_shards")),
        active_shards: read_u32(get_member(body, "active_shards")),
        relocating_shards: read_u32(get_member(body, "relocating_shards")),
        initializing_shards: read_u32(get_member(body, "initializing_shards")),
        unassigned_shards: read_u32(get_member(body, "unassigned_shards")),
        pending_tasks: read_u32(get_member(body, "number_of_pending_tasks")),
    }
}

} // verus!
