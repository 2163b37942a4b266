//! Connection registry: owns every endpoint record and serializes its
//! lifecycle transitions along the state machine's edges.

use vstd::prelude::*;
use crate::endpoint::{
    ConnectionStatus, ConnectionType, DeviceCapabilities, DeviceType, Endpoint, status_edge_ok,
};
use crate::errors::BridgeError;
use crate::strutil::str_eq;

verus! {

/// A minimally identified endpoint as discovery reports it.
#[derive(Debug)]
pub struct DiscoveredEndpoint {
    pub id: String,
    pub device_type: DeviceType,
    pub connection_type: ConnectionType,
}

/// No two records share an id.
pub open spec fn ids_unique(s: Seq<Endpoint>) -> bool {
    forall|i: int, j: int| 0 <= i < j < s.len() ==> s[i].id@ != s[j].id@
}

/// Some record carries this id.
pub open spec fn has_id(s: Seq<Endpoint>, id: Seq<char>) -> bool {
    exists|i: int| 0 <= i < s.len() && s[i].id@ == id
}

/// The index of the record with this id.
pub open spec fn idx_of(s: Seq<Endpoint>, id: Seq<char>) -> int {
    choose|i: int| 0 <= i < s.len() && s[i].id@ == id
}

/// The record with this id.
pub open spec fn ep_at(s: Seq<Endpoint>, id: Seq<char>) -> Endpoint {
    s[idx_of(s, id)]
}

/// With unique ids, the record found at any matching index is the record
/// `ep_at` denotes.
pub proof fn lemma_ep_at(s: Seq<Endpoint>, id: Seq<char>, i: int)
    requires
        ids_unique(s),
        0 <= i < s.len(),
        s[i].id@ == id,
    ensures
        has_id(s, id),
        idx_of(s, id) == i,
        ep_at(s, id) == s[i],
{
    assert(has_id(s, id));
    let j = idx_of(s, id);
    assert(0 <= j < s.len() && s[j].id@ == id);
    if i != j {
        if i < j {
            assert(s[i].id@ != s[j].id@);
        } else {
            assert(s[j].id@ != s[i].id@);
        }
    }
}

/// What every lifecycle operation keeps: the record count, every id in
/// place, records of other ids untouched, and each status either still or
/// moved along one machine edge.
pub open spec fn lifecycle_frame(pre: Seq<Endpoint>, post: Seq<Endpoint>, id: Seq<char>) -> bool {
    &&& post.len() == pre.len()
    &&& forall|i: int| 0 <= i < pre.len() ==> (#[trigger] post[i]).id@ == pre[i].id@
    &&& forall|i: int| 0 <= i < pre.len() && (#[trigger] pre[i]).id@ != id ==> post[i] == pre[i]
    &&& forall|i: int|
        0 <= i < pre.len() ==> status_edge_ok(pre[i].status, (#[trigger] post[i]).status)
}

/// Every mutating registry operation ensures `lifecycle_frame`, so no
/// operation, and hence no sequence of operations, ever moves an
/// endpoint's status other than along an edge of the lifecycle machine.
pub proof fn lemma_transitions_follow_machine(
    pre: Seq<Endpoint>,
    post: Seq<Endpoint>,
    id: Seq<char>,
    i: int,
)
    requires
        lifecycle_frame(pre, post, id),
        0 <= i < pre.len(),
    ensures
        status_edge_ok(pre[i].status, post[i].status),
{
}

/// The registry of every known endpoint.
#[derive(Debug)]
pub struct ConnectionRegistry {
    endpoints: Vec<Endpoint>,
}

impl View for ConnectionRegistry {
    type V = Seq<Endpoint>;

    closed spec fn view(&self) -> Seq<Endpoint> {
        self.endpoints@
    }
}

/// What one discovery record does to the registry: an unknown id is
/// appended as Discovered with no capabilities; a known id keeps its
/// identity and capabilities, and only returns from Disconnected to
/// Discovered.
pub open spec fn spec_merge_one(s: Seq<Endpoint>, rec: DiscoveredEndpoint) -> Seq<Endpoint> {
    if !has_id(s, rec.id@) {
        s.push(
            Endpoint {
                id: rec.id,
                device_type: rec.device_type,
                connection_type: rec.connection_type,
                capabilities: DeviceCapabilities {
                    screen_capture: false,
                    audio_capture: false,
                    hardware_injection: false,
                    file_transfer: false,
                    app_control: false,
                },
                status: ConnectionStatus::Discovered,
            },
        )
    } else {
        let i = idx_of(s, rec.id@);
        if s[i].status == ConnectionStatus::Disconnected {
            s.update(i, Endpoint { status: ConnectionStatus::Discovered, ..s[i] })
        } else {
            s
        }
    }
}

/// What one discovery run does: each record merged in order.
pub open spec fn spec_merge_all(s: Seq<Endpoint>, recs: Seq<DiscoveredEndpoint>) -> Seq<Endpoint>
    decreases recs.len(),
{
    if recs.len() == 0 {
        s
    } else {
        spec_merge_all(spec_merge_one(s, recs[0]), recs.drop_first())
    }
}

/// The registry already reflects this record: the id is present and not
/// torn down.
pub open spec fn absorbed(s: Seq<Endpoint>, rec: DiscoveredEndpoint) -> bool {
    has_id(s, rec.id@) && ep_at(s, rec.id@).status != ConnectionStatus::Disconnected
}

proof fn lemma_merge_one_unique(s: Seq<Endpoint>, rec: DiscoveredEndpoint)
    requires
        ids_unique(s),
    ensures
        ids_unique(spec_merge_one(s, rec)),
        spec_merge_one(s, rec).len() >= s.len(),
        forall|i: int| 0 <= i < s.len() ==> (#[trigger] spec_merge_one(s, rec)[i]).id@ == s[i].id@,
{
    let post = spec_merge_one(s, rec);
    if !has_id(s, rec.id@) {
        assert forall|i: int, j: int| 0 <= i < j < post.len() implies post[i].id@ != post[j].id@ by {
            if j == s.len() as int {
                assert(post[j].id@ == rec.id@);
                assert(post[i] == s[i]);
                assert(!(s[i].id@ == rec.id@));
            }
        }
    }
}

proof fn lemma_merge_one_absorbs(s: Seq<Endpoint>, rec: DiscoveredEndpoint)
    requires
        ids_unique(s),
    ensures
        absorbed(spec_merge_one(s, rec), rec),
{
    let post = spec_merge_one(s, rec);
    lemma_merge_one_unique(s, rec);
    if !has_id(s, rec.id@) {
        lemma_ep_at(post, rec.id@, s.len() as int);
    } else {
        let i = idx_of(s, rec.id@);
        assert(0 <= i < s.len() && s[i].id@ == rec.id@);
        lemma_ep_at(post, rec.id@, i);
    }
}

proof fn lemma_merge_one_preserves_absorbed(
    s: Seq<Endpoint>,
    rec: DiscoveredEndpoint,
    other: DiscoveredEndpoint,
)
    requires
        ids_unique(s),
        absorbed(s, other),
    ensures
        absorbed(spec_merge_one(s, rec), other),
{
    let post = spec_merge_one(s, rec);
    let oi = idx_of(s, other.id@);
    assert(0 <= oi < s.len() && s[oi].id@ == other.id@);
    lemma_merge_one_unique(s, rec);
    if !has_id(s, rec.id@) {
        lemma_ep_at(post, other.id@, oi);
        assert(post[oi] == s[oi]);
    } else {
        let i = idx_of(s, rec.id@);
        if s[i].status == ConnectionStatus::Disconnected {
            lemma_ep_at(post, other.id@, oi);
            if i == oi {
                assert(post[oi].status == ConnectionStatus::Discovered);
            } else {
                assert(post[oi] == s[oi]);
            }
        }
    }
}

proof fn lemma_merge_one_noop(s: Seq<Endpoint>, rec: DiscoveredEndpoint)
    requires
        absorbed(s, rec),
    ensures
        spec_merge_one(s, rec) == s,
{
}

proof fn lemma_merge_all_unique(s: Seq<Endpoint>, recs: Seq<DiscoveredEndpoint>)
    requires
        ids_unique(s),
    ensures
        ids_unique(spec_merge_all(s, recs)),
    decreases recs.len(),
{
    if recs.len() > 0 {
        lemma_merge_one_unique(s, recs[0]);
        lemma_merge_all_unique(spec_merge_one(s, recs[0]), recs.drop_first());
    }
}

proof fn lemma_merge_all_preserves_absorbed(
    s: Seq<Endpoint>,
    recs: Seq<DiscoveredEndpoint>,
    other: DiscoveredEndpoint,
)
    requires
        ids_unique(s),
        absorbed(s, other),
    ensures
        absorbed(spec_merge_all(s, recs), other),
    decreases recs.len(),
{
    if recs.len() > 0 {
        lemma_merge_one_unique(s, recs[0]);
        lemma_merge_one_preserves_absorbed(s, recs[0], other);
        lemma_merge_all_preserves_absorbed(spec_merge_one(s, recs[0]), recs.drop_first(), other);
    }
}

proof fn lemma_merge_all_absorbs(s: Seq<Endpoint>, recs: Seq<DiscoveredEndpoint>, k: int)
    requires
        ids_unique(s),
        0 <= k < recs.len(),
    ensures
        absorbed(spec_merge_all(s, recs), recs[k]),
    decreases recs.len(),
{
    if k == 0 {
        lemma_merge_one_absorbs(s, recs[0]);
        lemma_merge_one_unique(s, recs[0]);
        lemma_merge_all_preserves_absorbed(spec_merge_one(s, recs[0]), recs.drop_first(), recs[0]);
    } else {
        lemma_merge_one_unique(s, recs[0]);
        lemma_merge_all_absorbs(spec_merge_one(s, recs[0]), recs.drop_first(), k - 1);
        assert(recs.drop_first()[k - 1] == recs[k]);
    }
}

proof fn lemma_merge_all_noop(s: Seq<Endpoint>, recs: Seq<DiscoveredEndpoint>)
    requires
        ids_unique(s),
        forall|k: int| 0 <= k < recs.len() ==> absorbed(s, #[trigger] recs[k]),
    ensures
        spec_merge_all(s, recs) == s,
    decreases recs.len(),
{
    if recs.len() > 0 {
        lemma_merge_one_noop(s, recs[0]);
        assert(forall|k: int|
            0 <= k < recs.drop_first().len() ==> absorbed(s, #[trigger] recs.drop_first()[k]));
        lemma_merge_all_noop(s, recs.drop_first());
    }
}

/// Discovery is idempotent: running a merge twice with the same records
/// leaves exactly the registry the first run produced — the same size,
/// the same ids, the same records.
pub proof fn lemma_discovery_idempotent(s: Seq<Endpoint>, recs: Seq<DiscoveredEndpoint>)
    requires
        ids_unique(s),
    ensures
        spec_merge_all(spec_merge_all(s, recs), recs) == spec_merge_all(s, recs),
{
    let once = spec_merge_all(s, recs);
    lemma_merge_all_unique(s, recs);
    assert forall|k: int| 0 <= k < recs.len() implies absorbed(once, #[trigger] recs[k]) by {
        lemma_merge_all_absorbs(s, recs, k);
    }
    lemma_merge_all_noop(once, recs);
}

impl ConnectionRegistry {
    /// Unique ids; every operation preserves this.
    pub open spec fn wf(&self) -> bool {
        ids_unique(self@)
    }

    pub fn new() -> (r: ConnectionRegistry)
        ensures
            r@ == Seq::<Endpoint>::empty(),
            r.wf(),
    {
        ConnectionRegistry { endpoints: Vec::new() }
    }

    pub fn len(&self) -> (r: usize)
        ensures
            r == self@.len(),
    {
        self.endpoints.len()
    }

    fn find(&self, id: &str) -> (r: Option<usize>)
        ensures
            match r {
                Some(i) => i < self@.len() && self@[i as int].id@ == id@,
                None => !has_id(self@, id@),
            },
    {
        let n = self.endpoints.len();
        let mut i: usize = 0;
        while i < n
            invariant
                0 <= i <= n,
                n == self@.len(),
                forall|j: int| 0 <= j < i ==> (#[trigger] self@[j]).id@ != id@,
            decreases n - i,
        {
            if str_eq(self.endpoints[i].id.as_str(), id) {
                return Some(i);
            }
            i += 1;
        }
        None
    }

    /// Whether any endpoint carries this id.
    pub fn contains(&self, id: &str) -> (r: bool)
        requires
            self.wf(),
        ensures
            r == has_id(self@, id@),
    {
        self.find(id).is_some()
    }

    /// The endpoint with this id, if any.
    pub fn get(&self, id: &str) -> (r: Option<&Endpoint>)
        requires
            self.wf(),
        ensures
            match r {
                Some(e) => has_id(self@, id@) && *e == ep_at(self@, id@),
                None => !has_id(self@, id@),
            },
    {
        match self.find(id) {
            Some(i) => {
                proof {
                    lemma_ep_at(self@, id@, i as int);
                }
                Some(&self.endpoints[i])
            },
            None => None,
        }
    }

    /// All endpoint records, in discovery order.
    pub fn endpoints(&self) -> (r: &Vec<Endpoint>)
        ensures
            r@ == self@,
    {
        &self.endpoints
    }

    /// Merges one discovery record; see `spec_merge_one`.
    pub fn merge_one(&mut self, rec: DiscoveredEndpoint)
        requires
            old(self).wf(),
        ensures
            final(self).wf(),
            final(self)@ == spec_merge_one(old(self)@, rec),
    {
        proof {
            lemma_merge_one_unique(self@, rec);
        }
        match self.find(rec.id.as_str()) {
            None => {
                let ep = Endpoint {
                    id: rec.id,
                    device_type: rec.device_type,
                    connection_type: rec.connection_type,
                    capabilities: DeviceCapabilities {
                        screen_capture: false,
                        audio_capture: false,
                        hardware_injection: false,
                        file_transfer: false,
                        app_control: false,
                    },
                    status: ConnectionStatus::Discovered,
                };
                self.endpoints.push(ep);
            },
            Some(i) => {
                proof {
                    lemma_ep_at(self@, rec.id@, i as int);
                }
                let torn = match self.endpoints[i].status {
                    ConnectionStatus::Disconnected => true,
                    _ => false,
                };
                if torn {
                    self.endpoints[i].status = ConnectionStatus::Discovered;
                }
            },
        }
    }

    /// Merges a whole discovery run, first record first.
    ///
    /// Re-running with the same records changes nothing further
    /// (`lemma_discovery_idempotent`).
    pub fn merge_discovered(&mut self, recs: Vec<DiscoveredEndpoint>)
        requires
            old(self).wf(),
        ensures
            final(self).wf(),
            final(self)@ == spec_merge_all(old(self)@, recs@),
    {
        let mut rest = recs;
        let ghost all = rest@;
        let ghost start = self@;
        while rest.len() > 0
            invariant
                self.wf(),
                spec_merge_all(start, all) == spec_merge_all(self@, rest@),
            decreases rest.len(),
        {
            let rec = rest.remove(0);
            let ghost pre_rest = rest@.insert(0, rec);
            proof {
                assert(pre_rest.drop_first() =~= rest@);
                assert(pre_rest[0] == rec);
            }
            self.merge_one(rec);
        }
        proof {
            assert(rest@.len() == 0);
        }
    }

    /// Begins a connect attempt. From Discovered or Error the endpoint
    /// moves to Connecting and the caller must run the capability probes
    /// and report their outcome through `finish_connect`; a live endpoint
    /// is left alone. Fails for an unknown id, and for an endpoint whose
    /// transition is in flight or that is torn down.
    pub fn begin_connect(&mut self, id: &str) -> (r: Result<bool, BridgeError>)
        requires
            old(self).wf(),
        ensures
            final(self).wf(),
            lifecycle_frame(old(self)@, final(self)@, id@),
            !has_id(old(self)@, id@) ==> final(self)@ == old(self)@ && (r matches Err(
                BridgeError::EndpointNotFound { id: e },
            ) && e@ == id@),
            has_id(old(self)@, id@) ==> {
                let pre = ep_at(old(self)@, id@);
                &&& pre.status.spec_connectable() ==> r == Ok::<bool, BridgeError>(true)
                    && has_id(final(self)@, id@) && ep_at(final(self)@, id@) == (Endpoint {
                    status: ConnectionStatus::Connecting,
                    ..pre
                })
                &&& pre.status.spec_is_live() ==> r == Ok::<bool, BridgeError>(false) && final(self)@
                    == old(self)@
                &&& (!pre.status.spec_connectable() && !pre.status.spec_is_live()) ==> final(self)@ == old(
                    self,
                )@ && (r matches Err(BridgeError::InvalidTransition { id: e, from }) && e@ == id@
                    && from == pre.status)
            },
    {
        match self.find(id) {
            None => Err(
                BridgeError::EndpointNotFound { id: String::from_str(id) },
            ),
            Some(i) => {
                proof {
                    lemma_ep_at(self@, id@, i as int);
                }
                let connectable = self.endpoints[i].status.connectable();
                let live = self.endpoints[i].status.is_live();
                if connectable {
                    self.endpoints[i].status = ConnectionStatus::Connecting;
                    proof {
                        lemma_ep_at(self@, id@, i as int);
                    }
                    Ok(true)
                } else if live {
                    Ok(false)
                } else {
                    Err(
                        BridgeError::InvalidTransition {
                            id: String::from_str(id),
                            from: self.endpoints[i].status.clone(),
                        },
                    )
                }
            },
        }
    }

    /// Completes a connect attempt with the probe phase's outcome: a
    /// capability set moves the endpoint to Connected with exactly those
    /// capabilities; a failure reason moves it to Error with its
    /// capabilities untouched. Valid only from Connecting.
    pub fn finish_connect(&mut self, id: &str, probe: Result<DeviceCapabilities, String>) -> (r:
        Result<(), BridgeError>)
        requires
            old(self).wf(),
        ensures
            final(self).wf(),
            lifecycle_frame(old(self)@, final(self)@, id@),
            !has_id(old(self)@, id@) ==> final(self)@ == old(self)@ && (r matches Err(
                BridgeError::EndpointNotFound { id: e },
            ) && e@ == id@),
            has_id(old(self)@, id@) ==> {
                let pre = ep_at(old(self)@, id@);
                &&& (pre.status == ConnectionStatus::Connecting && probe is Ok) ==> r == Ok::<
                    (),
                    BridgeError,
                >(()) && has_id(final(self)@, id@) && ep_at(final(self)@, id@) == (Endpoint {
                    status: ConnectionStatus::Connected,
                    capabilities: probe->Ok_0,
                    ..pre
                })
                &&& (pre.status == ConnectionStatus::Connecting && probe is Err) ==> r == Ok::<
                    (),
                    BridgeError,
                >(()) && has_id(final(self)@, id@) && ep_at(final(self)@, id@) == (Endpoint {
                    status: ConnectionStatus::Error(probe->Err_0),
                    ..pre
                })
                &&& pre.status != ConnectionStatus::Connecting ==> final(self)@ == old(self)@ && (
                r matches Err(BridgeError::InvalidTransition { id: e, from }) && e@ == id@ && from
                    == pre.status)
            },
    {
        match self.find(id) {
            None => Err(BridgeError::EndpointNotFound { id: String::from_str(id) }),
            Some(i) => {
                proof {
                    lemma_ep_at(self@, id@, i as int);
                }
                let in_flight = match self.endpoints[i].status {
                    ConnectionStatus::Connecting => true,
                    _ => false,
                };
                if !in_flight {
                    return Err(
                        BridgeError::InvalidTransition {
                            id: String::from_str(id),
                            from: self.endpoints[i].status.clone(),
                        },
                    );
                }
                match probe {
                    Ok(caps) => {
                        self.endpoints[i].status = ConnectionStatus::Connected;
                        self.endpoints[i].capabilities = caps;
                    },
                    Err(reason) => {
                        self.endpoints[i].status = ConnectionStatus::Error(reason);
                    },
                }
                proof {
                    lemma_ep_at(self@, id@, i as int);
                }
                Ok(())
            },
        }
    }

    /// Records that the backend reported the endpoint gone or a deadline
    /// passed: a live or connecting endpoint moves to Error.
    pub fn mark_error(&mut self, id: &str, reason: String) -> (r: Result<(), BridgeError>)
        requires
            old(self).wf(),
        ensures
            final(self).wf(),
            lifecycle_frame(old(self)@, final(self)@, id@),
            !has_id(old(self)@, id@) ==> final(self)@ == old(self)@ && (r matches Err(
                BridgeError::EndpointNotFound { id: e },
            ) && e@ == id@),
            has_id(old(self)@, id@) ==> {
                let pre = ep_at(old(self)@, id@);
                &&& (pre.status.spec_is_live() || pre.status == ConnectionStatus::Connecting)
                    ==> r == Ok::<(), BridgeError>(()) && has_id(final(self)@, id@) && ep_at(final(self)@, id@)
                    == (Endpoint { status: ConnectionStatus::Error(reason), ..pre })
                &&& !(pre.status.spec_is_live() || pre.status == ConnectionStatus::Connecting)
                    ==> final(self)@ == old(self)@ && (r matches Err(
                    BridgeError::InvalidTransition { id: e, from },
                ) && e@ == id@ && from == pre.status)
            },
    {
        match self.find(id) {
            None => Err(BridgeError::EndpointNotFound { id: String::from_str(id) }),
            Some(i) => {
                proof {
                    lemma_ep_at(self@, id@, i as int);
                }
                let live = self.endpoints[i].status.is_live();
                let connecting = match self.endpoints[i].status {
                    ConnectionStatus::Connecting => true,
                    _ => false,
                };
                if live || connecting {
                    self.endpoints[i].status = ConnectionStatus::Error(reason);
                    proof {
                        lemma_ep_at(self@, id@, i as int);
                    }
                    Ok(())
                } else {
                    Err(
                        BridgeError::InvalidTransition {
                            id: String::from_str(id),
                            from: self.endpoints[i].status.clone(),
                        },
                    )
                }
            },
        }
    }

    /// Begins teardown: a live endpoint moves to Disconnecting. Fails
    /// with the not-connected error from any other status.
    pub fn begin_disconnect(&mut self, id: &str) -> (r: Result<(), BridgeError>)
        requires
            old(self).wf(),
        ensures
            final(self).wf(),
            lifecycle_frame(old(self)@, final(self)@, id@),
            !has_id(old(self)@, id@) ==> final(self)@ == old(self)@ && (r matches Err(
                BridgeError::EndpointNotFound { id: e },
            ) && e@ == id@),
            has_id(old(self)@, id@) ==> {
                let pre = ep_at(old(self)@, id@);
                &&& pre.status.spec_is_live() ==> r == Ok::<(), BridgeError>(()) && has_id(
                    final(self)@,
                    id@,
                ) && ep_at(final(self)@, id@) == (Endpoint {
                    status: ConnectionStatus::Disconnecting,
                    ..pre
                })
                &&& !pre.status.spec_is_live() ==> final(self)@ == old(self)@ && (r matches Err(
                    BridgeError::EndpointNotConnected { id: e, status },
                ) && e@ == id@ && status == pre.status)
            },
    {
        match self.find(id) {
            None => Err(BridgeError::EndpointNotFound { id: String::from_str(id) }),
            Some(i) => {
                proof {
                    lemma_ep_at(self@, id@, i as int);
                }
                if self.endpoints[i].status.is_live() {
                    self.endpoints[i].status = ConnectionStatus::Disconnecting;
                    proof {
                        lemma_ep_at(self@, id@, i as int);
                    }
                    Ok(())
                } else {
                    Err(
                        BridgeError::EndpointNotConnected {
                            id: String::from_str(id),
                            status: self.endpoints[i].status.clone(),
                        },
                    )
                }
            },
        }
    }

    /// Completes teardown: a Disconnecting endpoint is marked
    /// Disconnected. Valid only from Disconnecting.
    pub fn finish_disconnect(&mut self, id: &str) -> (r: Result<(), BridgeError>)
        requires
            old(self).wf(),
        ensures
            final(self).wf(),
            lifecycle_frame(old(self)@, final(self)@, id@),
            !has_id(old(self)@, id@) ==> final(self)@ == old(self)@ && (r matches Err(
                BridgeError::EndpointNotFound { id: e },
            ) && e@ == id@),
            has_id(old(self)@, id@) ==> {
                let pre = ep_at(old(self)@, id@);
                &&& pre.status == ConnectionStatus::Disconnecting ==> r == Ok::<(), BridgeError>(())
                    && has_id(final(self)@, id@) && ep_at(final(self)@, id@) == (Endpoint {
                    status: ConnectionStatus::Disconnected,
                    ..pre
                })
                &&& pre.status != ConnectionStatus::Disconnecting ==> final(self)@ == old(self)@ && (
                r matches Err(BridgeError::InvalidTransition { id: e, from }) && e@ == id@ && from
                    == pre.status)
            },
    {
        match self.find(id) {
            None => Err(BridgeError::EndpointNotFound { id: String::from_str(id) }),
            Some(i) => {
                proof {
                    lemma_ep_at(self@, id@, i as int);
                }
                let tearing = match self.endpoints[i].status {
                    ConnectionStatus::Disconnecting => true,
                    _ => false,
                };
                if tearing {
                    self.endpoints[i].status = ConnectionStatus::Disconnected;
                    proof {
                        lemma_ep_at(self@, id@, i as int);
                    }
                    Ok(())
                } else {
                    Err(
                        BridgeError::InvalidTransition {
                            id: String::from_str(id),
                            from: self.endpoints[i].status.clone(),
                        },
                    )
                }
            },
        }
    }

    /// Marks a Connected endpoint Streaming; already Streaming is left
    /// alone. Fails with the not-connected error otherwise.
    pub fn set_streaming(&mut self, id: &str) -> (r: Result<(), BridgeError>)
        requires
            old(self).wf(),
        ensures
            final(self).wf(),
            lifecycle_frame(old(self)@, final(self)@, id@),
            !has_id(old(self)@, id@) ==> final(self)@ == old(self)@ && (r matches Err(
                BridgeError::EndpointNotFound { id: e },
            ) && e@ == id@),
            has_id(old(self)@, id@) ==> {
                let pre = ep_at(old(self)@, id@);
                &&& pre.status == ConnectionStatus::Connected ==> r == Ok::<(), BridgeError>(())
                    && has_id(final(self)@, id@) && ep_at(final(self)@, id@) == (Endpoint {
                    status: ConnectionStatus::Streaming,
                    ..pre
                })
                &&& pre.status == ConnectionStatus::Streaming ==> r == Ok::<(), BridgeError>(())
                    && final(self)@ == old(self)@
                &&& !pre.status.spec_is_live() ==> final(self)@ == old(self)@ && (r matches Err(
                    BridgeError::EndpointNotConnected { id: e, status },
                ) && e@ == id@ && status == pre.status)
            },
    {
        match self.find(id) {
            None => Err(BridgeError::EndpointNotFound { id: String::from_str(id) }),
            Some(i) => {
                proof {
                    lemma_ep_at(self@, id@, i as int);
                }
                match self.endpoints[i].status {
                    ConnectionStatus::Connected => {
                        self.endpoints[i].status = ConnectionStatus::Streaming;
                        proof {
                            lemma_ep_at(self@, id@, i as int);
                        }
                        Ok(())
                    },
                    ConnectionStatus::Streaming => Ok(()),
                    _ => Err(
                        BridgeError::EndpointNotConnected {
                            id: String::from_str(id),
                            status: self.endpoints[i].status.clone(),
                        },
                    ),
                }
            },
        }
    }

    /// Marks a Streaming endpoint Connected again; already Connected is
    /// left alone. Fails with the not-connected error otherwise.
    pub fn clear_streaming(&mut self, id: &str) -> (r: Result<(), BridgeError>)
        requires
            old(self).wf(),
        ensures
            final(self).wf(),
            lifecycle_frame(old(self)@, final(self)@, id@),
            !has_id(old(self)@, id@) ==> final(self)@ == old(self)@ && (r matches Err(
                BridgeError::EndpointNotFound { id: e },
            ) && e@ == id@),
            has_id(old(self)@, id@) ==> {
                let pre = ep_at(old(self)@, id@);
                &&& pre.status == ConnectionStatus::Streaming ==> r == Ok::<(), BridgeError>(())
                    && has_id(final(self)@, id@) && ep_at(final(self)@, id@) == (Endpoint {
                    status: ConnectionStatus::Connected,
                    ..pre
                })
                &&& pre.status == ConnectionStatus::Connected ==> r == Ok::<(), BridgeError>(())
                    && final(self)@ == old(self)@
                &&& !pre.status.spec_is_live() ==> final(self)@ == old(self)@ && (r matches Err(
                    BridgeError::EndpointNotConnected { id: e, status },
                ) && e@ == id@ && status == pre.status)
            },
    {
        match self.find(id) {
            None => Err(BridgeError::EndpointNotFound { id: String::from_str(id) }),
            Some(i) => {
                proof {
                    lemma_ep_at(self@, id@, i as int);
                }
                match self.endpoints[i].status {
                    ConnectionStatus::Streaming => {
                        self.endpoints[i].status = ConnectionStatus::Connected;
                        proof {
                            lemma_ep_at(self@, id@, i as int);
                        }
                        Ok(())
                    },
                    ConnectionStatus::Connected => Ok(()),
                    _ => Err(
                        BridgeError::EndpointNotConnected {
                            id: String::from_str(id),
                            status: self.endpoints[i].status.clone(),
                        },
                    ),
                }
            },
        }
    }
}

} // verus!
