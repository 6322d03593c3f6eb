use vstd::prelude::*;

use crate::connection::ElasticsearchConnection;
use crate::error::EsError;
use crate::http::{accept_reply, reply_body, HttpReply};
use crate::json::{get_member, member, read_str, str_or, Json};

verus! {

/// The one active connection, if any.
#[derive(Debug)]
pub struct SessionStore {
    active: Option<ElasticsearchConnection>,
}

impl View for SessionStore {
    type V = Option<ElasticsearchConnection>;

    closed spec fn view(&self) -> Option<ElasticsearchConnection> {
        self.active
    }
}

/// What `get` reports of a session.
pub open spec fn lookup(s: Option<ElasticsearchConnection>) -> Result<ElasticsearchConnection, EsError> {
    match s {
        Some(c) => Ok(c),
        None => Err(EsError::NotConnected),
    }
}

/// The session after a disconnect.
pub open spec fn after_disconnect(s: Option<ElasticsearchConnection>) -> Option<ElasticsearchConnection> {
    None
}

/// The session after a connect to `c` that got `reply`: `c` where the cluster
/// answered with a readable health report, the session unchanged otherwise.
pub open spec fn after_connect(
    s: Option<ElasticsearchConnection>,
    c: ElasticsearchConnection,
    reply: HttpReply,
) -> Option<ElasticsearchConnection> {
    if reply_body(reply) is Ok {
        Some(c)
    } else {
        s
    }
}

impl SessionStore {
    /// A store with no active connection.
    pub fn new() -> (r: SessionStore)
        ensures
            r@ is None,
    {
        SessionStore { active: None }
    }

    /// Makes `c` the active connection, in place of any other.
    pub fn set(&mut self, c: ElasticsearchConnection)
        ensures
            final(self)@ == Some(c),
    {
        self.active = Some(c);
    }

    /// Forgets the active connection.
    pub fn clear(&mut self)
        ensures
            final(self)@ == after_disconnect(old(self)@),
    {
        self.active = None;
    }

    /// The active connection, or `NotConnected`.
    pub fn get(&self) -> (r: Result<&ElasticsearchConnection, EsError>)
        ensures
            match r {
                Ok(c) => lookup(self@) == Ok::<ElasticsearchConnection, EsError>(*c),
                Err(e) => lookup(self@) == Err::<ElasticsearchConnection, EsError>(e),
            },
    {
        match &self.active {
            Some(c) => Ok(c),
            None => Err(EsError::NotConnected),
        }
    }
}

/// What a successful connect reports.
#[derive(Debug)]
pub struct ConnectOutcome {
    pub connected: bool,
    pub cluster_name: String,
    pub status: String,
    pub connection: ElasticsearchConnection,
    pub health: Json,
}

/// Ends the session, whatever it was. Always succeeds.
pub fn disconnect_from_elasticsearch(store: &mut SessionStore) -> (r: Result<bool, EsError>)
    ensures
        final(store)@ == after_disconnect(old(store)@),
        r == Ok::<bool, EsError>(true),
{
    store.clear();
    Ok(true)
}

/// Finishes a connect to `connection` once its health request got `reply`.
/// Only an answer with a success status and a JSON body makes `connection`
/// the active one; it reports the cluster's name and status (`"unknown"`
/// where absent) and the whole health report. Any other reply is its error,
/// and leaves the session as it was.
pub fn connect_to_elasticsearch(
    store: &mut SessionStore,
    connection: ElasticsearchConnection,
    reply: HttpReply,
) -> (r: Result<ConnectOutcome, EsError>)
    ensures
        final(store)@ == after_connect(old(store)@, connection, reply),
        r is Ok <==> reply_body(reply) is Ok,
        r matches Err(e) ==> reply_body(reply) == Err::<Json, EsError>(e),
        r matches Ok(o) ==> {
            &&& o.connected
            &&& o.connection == connection
            &&& reply_body(reply) == Ok::<Json, EsError>(o.health)
            &&& o.cluster_name@ == str_or(member(o.health, "cluster_name"@), "unknown"@)
            &&& o.status@ == str_or(member(o.health, "status"@), "unknown"@)
        },
{
    match accept_reply(reply) {
        Ok(health) => {
            let cluster_name = read_str(get_member(&health, "cluster_name"), "unknown");
            let status = read_str(get_member(&health, "status"), "unknown");
            store.set(connection.duplicate());
            Ok(ConnectOutcome { connected: true, cluster_name, status, connection, health })
        },
        Err(e) => Err(e),
    }
}

/// After a disconnect, `get` reports that no connection is active, whatever
/// the session was before.
pub proof fn lemma_disconnect_then_get(before: Option<ElasticsearchConnection>)
    ensures
        lookup(after_disconnect(before)) == Err::<ElasticsearchConnection, EsError>(
            EsError::NotConnected,
        ),
{
}

/// After a successful connect to `c`, `get` reports `c`; after a failed one it
/// reports what it did before.
pub proof fn lemma_connect_then_get(
    before: Option<ElasticsearchConnection>,
    c: ElasticsearchConnection,
    reply: HttpReply,
)
    ensures
        reply_body(reply) is Ok ==> lookup(after_connect(before, c, reply)) == Ok::<
            ElasticsearchConnection,
            EsError,
        >(c),
        reply_body(reply) is Err ==> lookup(after_connect(before, c, reply)) == lookup(before),
{
}

} // verus!
