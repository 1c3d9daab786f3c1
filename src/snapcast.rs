//! One topology snapshot as the status service reports it: server info,
//! streams, groups, and the clients inside each group.
//!
//! Collections keep the order the server sent; list rows are read straight
//! from them. The clients of all groups, taken group by group, form the
//! flattened client list that the client view shows.

use vstd::prelude::*;

verus! {

/// Host of the server or of a client.
#[derive(Debug, Clone, PartialEq, Eq)]
pub struct HostInfo {
    pub name: String,
    pub os: String,
    pub arch: String,
    pub ip: String,
    pub mac: String,
}

/// Name and versions of the server program.
#[derive(Debug, Clone, PartialEq, Eq)]
pub struct SnapserverInfo {
    pub name: String,
    pub version: String,
    pub control_protocol_version: Option<u32>,
    pub protocol_version: u32,
}

#[derive(Debug, Clone, PartialEq, Eq)]
pub struct ServerInfo {
    pub host: HostInfo,
    pub snapserver: SnapserverInfo,
}

/// What a stream's controller lets a user do.
#[derive(Debug, Clone, Copy, PartialEq, Eq)]
pub struct StreamProperties {
    pub can_control: bool,
    pub can_play: bool,
    pub can_pause: bool,
    pub can_seek: bool,
    pub can_go_next: bool,
    pub can_go_previous: bool,
}

/// Optional attributes carried in a stream URI's query.
#[derive(Debug, Clone, PartialEq, Eq)]
pub struct Query {
    pub name: String,
    pub chunk_ms: Option<String>,
    pub codec: Option<String>,
    pub mode: Option<String>,
    pub sample_format: Option<String>,
}

/// A stream's source URI, split into its parts.
#[derive(Debug, Clone, PartialEq, Eq)]
pub struct Uri {
    pub path: String,
    pub scheme: String,
    pub query: Query,
    pub fragment: String,
    pub host: String,
    pub raw: String,
}

#[derive(Debug, Clone, PartialEq, Eq)]
pub struct Stream {
    pub id: String,
    pub status: String,
    pub uri: Uri,
    pub properties: StreamProperties,
}

#[derive(Debug, Clone, Copy, PartialEq, Eq)]
pub struct Volume {
    pub muted: bool,
    pub percent: u32,
}

#[derive(Debug, Clone, PartialEq, Eq)]
pub struct ClientConfig {
    pub instance: u32,
    pub latency: u32,
    pub name: String,
    pub volume: Volume,
}

/// The player program a client runs.
#[derive(Debug, Clone, PartialEq, Eq)]
pub struct SnapclientInfo {
    pub name: String,
    pub protocol_version: u32,
    pub version: String,
}

#[derive(Debug, Clone, Copy, PartialEq, Eq)]
pub struct LastSeen {
    pub sec: u64,
    pub usec: u64,
}

#[derive(Debug, Clone, PartialEq, Eq)]
pub struct Client {
    pub id: String,
    pub host: HostInfo,
    pub snapclient: SnapclientInfo,
    pub config: ClientConfig,
    pub connected: bool,
    pub last_seen: LastSeen,
}

/// A set of clients that play one stream together. `stream_id` names a
/// stream of the same snapshot, which nothing checks.
#[derive(Debug, Clone, PartialEq, Eq)]
pub struct Group {
    pub id: String,
    pub name: String,
    pub stream_id: String,
    pub muted: bool,
    pub clients: Vec<Client>,
}

/// The server, its streams and its groups.
#[derive(Debug, Clone, PartialEq, Eq)]
pub struct ServerStatus {
    pub server: ServerInfo,
    pub streams: Vec<Stream>,
    pub groups: Vec<Group>,
}

/// One snapshot, as carried in the `result` of a status reply.
#[derive(Debug, Clone, PartialEq, Eq)]
pub struct SnapcastStatus {
    pub server: ServerStatus,
}

/// A status reply: the echoed request id, the protocol tag, and the snapshot.
/// A reply whose `result` is absent carries `None` here and is refused when
/// the reply is settled.
#[derive(Debug, Clone, PartialEq, Eq)]
pub struct SnapcastResponse {
    pub id: String,
    pub jsonrpc: String,
    pub result: Option<SnapcastStatus>,
}

/// The address of the status service and the last snapshot fetched from it.
#[derive(Debug)]
pub struct SnapcastClient {
    pub url: String,
    pub status: Option<SnapcastStatus>,
}

impl SnapcastClient {
    /// A client for `url` that holds no snapshot yet.
    pub fn new(url: String) -> (r: SnapcastClient)
        ensures
            r.url@ == url@,
            r.status is None,
    {
        SnapcastClient { url, status: None }
    }

    /// The address this client fetches from.
    pub fn get_url(&self) -> (r: &str)
        ensures
            r@ == self.url@,
    {
        self.url.as_str()
    }
}

/// The flattened client list: the clients of `groups`, group by group, each
/// group's clients in their own order.
pub open spec fn flat_clients(groups: Seq<Group>) -> Seq<Client>
    decreases groups.len(),
{
    if groups.len() == 0 {
        Seq::empty()
    } else {
        flat_clients(groups.drop_last()) + groups.last().clients@
    }
}

/// The sum of the client counts of `groups`.
pub open spec fn total_clients(groups: Seq<Group>) -> nat
    decreases groups.len(),
{
    if groups.len() == 0 {
        0
    } else {
        total_clients(groups.drop_last()) + groups.last().clients@.len()
    }
}

/// `n`, or the largest `usize` where `n` does not fit in one.
pub open spec fn capped(n: nat) -> nat {
    if n <= usize::MAX {
        n
    } else {
        usize::MAX as nat
    }
}

/// Flattening the concatenation of two group lists concatenates their
/// flattened client lists.
pub proof fn lemma_flat_clients_append(a: Seq<Group>, b: Seq<Group>)
    ensures
        flat_clients(a + b) == flat_clients(a) + flat_clients(b),
    decreases b.len(),
{
    if b.len() == 0 {
        assert(a + b =~= a);
        assert(flat_clients(a) + flat_clients(b) =~= flat_clients(a));
    } else {
        assert((a + b).drop_last() =~= a + b.drop_last());
        assert((a + b).last() == b.last());
        lemma_flat_clients_append(a, b.drop_last());
        assert(flat_clients(a + b) =~= flat_clients(a) + flat_clients(b));
    }
}

/// Taking one more group of a prefix appends that group's clients.
proof fn lemma_flat_clients_prefix_step(groups: Seq<Group>, g: int)
    requires
        0 <= g < groups.len(),
    ensures
        flat_clients(groups.subrange(0, g + 1)) == flat_clients(groups.subrange(0, g))
            + groups[g].clients@,
        total_clients(groups.subrange(0, g + 1)) == total_clients(groups.subrange(0, g))
            + groups[g].clients@.len(),
{
    assert(groups.subrange(0, g + 1).drop_last() =~= groups.subrange(0, g));
}

/// The flattened client list is as long as the groups' client counts add up
/// to, and its rows run through the groups in order: row `total_clients` of
/// the groups before `g`, plus `j`, is client `j` of group `g`.
pub proof fn lemma_flat_clients_layout(groups: Seq<Group>, g: int, j: int)
    requires
        0 <= g < groups.len(),
        0 <= j < groups[g].clients@.len(),
    ensures
        flat_clients(groups).len() == total_clients(groups),
        total_clients(groups.subrange(0, g)) + j < total_clients(groups),
        flat_clients(groups)[total_clients(groups.subrange(0, g)) + j] == groups[g].clients@[j],
{
    lemma_flat_clients_len(groups);
    lemma_flat_clients_len(groups.subrange(0, g));
    lemma_flat_clients_prefix_step(groups, g);
    let head = groups.subrange(0, g + 1);
    let tail = groups.subrange(g + 1, groups.len() as int);
    assert(groups =~= head + tail);
    lemma_flat_clients_append(head, tail);
}

/// The flattened client list has one row per client of every group.
pub proof fn lemma_flat_clients_len(groups: Seq<Group>)
    ensures
        flat_clients(groups).len() == total_clients(groups),
    decreases groups.len(),
{
    if groups.len() > 0 {
        lemma_flat_clients_len(groups.drop_last());
    }
}

impl ServerStatus {
    /// Number of rows of the stream view.
    pub fn stream_count(&self) -> (r: usize)
        ensures
            r == self.streams@.len(),
    {
        self.streams.len()
    }

    /// Number of rows of the group view.
    pub fn group_count(&self) -> (r: usize)
        ensures
            r == self.groups@.len(),
    {
        self.groups.len()
    }

    /// The stream on row `index`, or `None` past the last row.
    pub fn stream_at(&self, index: usize) -> (r: Option<&Stream>)
        ensures
            index < self.streams@.len() ==> r == Some(&self.streams@[index as int]),
            index >= self.streams@.len() ==> r is None,
    {
        if index < self.streams.len() {
            Some(&self.streams[index])
        } else {
            None
        }
    }

    /// The group on row `index`, or `None` past the last row.
    pub fn group_at(&self, index: usize) -> (r: Option<&Group>)
        ensures
            index < self.groups@.len() ==> r == Some(&self.groups@[index as int]),
            index >= self.groups@.len() ==> r is None,
    {
        if index < self.groups.len() {
            Some(&self.groups[index])
        } else {
            None
        }
    }
    /// Number of rows of the client view: the sum of the client counts of
    /// all groups, capped at the largest `usize`.
    pub fn client_count(&self) -> (r: usize)
        ensures
            r == capped(total_clients(self.groups@)),
            total_clients(self.groups@) <= usize::MAX ==> r == total_clients(self.groups@),
    {
        let mut total: usize = 0;
        let mut g: usize = 0;
        while g < self.groups.len()
            invariant
                g <= self.groups@.len(),
                total == capped(total_clients(self.groups@.subrange(0, g as int))),
            decreases self.groups@.len() - g,
        {
            proof {
                lemma_flat_clients_prefix_step(self.groups@, g as int);
            }
            total = total.saturating_add(self.groups[g].clients.len());
            g = g + 1;
        }
        assert(self.groups@.subrange(0, g as int) =~= self.groups@);
        total
    }

    /// The client on row `index` of the flattened client list, or `None`
    /// past its last row.
    pub fn client_at(&self, index: usize) -> (r: Option<&Client>)
        ensures
            index < flat_clients(self.groups@).len() ==> r == Some(
                &flat_clients(self.groups@)[index as int],
            ),
            index >= flat_clients(self.groups@).len() ==> r is None,
    {
        let mut offset: usize = index;
        let mut g: usize = 0;
        while g < self.groups.len()
            invariant
                g <= self.groups@.len(),
                total_clients(self.groups@.subrange(0, g as int)) + offset == index,
            decreases self.groups@.len() - g,
        {
            let clients = &self.groups[g].clients;
            proof {
                lemma_flat_clients_prefix_step(self.groups@, g as int);
            }
            if offset < clients.len() {
                proof {
                    lemma_flat_clients_layout(self.groups@, g as int, offset as int);
                }
                return Some(&clients[offset]);
            }
            offset = offset - clients.len();
            g = g + 1;
        }
        proof {
            assert(self.groups@.subrange(0, g as int) =~= self.groups@);
            lemma_flat_clients_len(self.groups@);
        }
        None
    }
}

} // verus!
