//! Peer discovery model: the set of peers visible in one poll, and how a
//! single resolution event changes it.
//!
//! Each poll produces a fresh mapping from hostname to address; it is not
//! merged with earlier polls. Within one poll, a later event naming the same
//! hostname overwrites the earlier address. A peer advertising a different
//! protocol id is still reported: discovery reports presence, not
//! compatibility.

use vstd::prelude::*;

verus! {

use crate::text::str_eq;

/// Errors surfaced by the discovery components.
#[derive(Clone, Copy, PartialEq, Eq, Debug)]
pub enum DiscoveryError {
    /// The local outbound address is unusable (unspecified).
    NetworkUnavailable,
    /// The underlying discovery service could not start or publish.
    DiscoveryInitError,
    /// A resolution event lacked an address or a protocol id attribute;
    /// fatal to the current poll only.
    MalformedDiscoveryEvent,
    /// The event channel failed outright, as opposed to being momentarily
    /// empty.
    ChannelFailure,
}

/// One resolution event, reduced to the fields this model reads.
pub struct ResolvedEvent {
    /// The advertised host name.
    pub hostname: String,
    /// Optional device-identity attribute; overrides the hostname as key.
    pub device_id: Option<String>,
    /// The advertised protocol id attribute, when present.
    pub protocol: Option<String>,
    /// The first address the event reported, when any was present.
    pub address: Option<String>,
}

/// The key under which an event's peer is recorded: the device-identity
/// attribute if present, else the advertised name.
pub open spec fn event_key(ev: ResolvedEvent) -> Seq<char> {
    match ev.device_id {
        Option::Some(d) => d@,
        Option::None => ev.hostname@,
    }
}

/// Whether the event carries everything a poll needs from it.
pub open spec fn event_complete(ev: ResolvedEvent) -> bool {
    ev.address is Some && ev.protocol is Some
}

/// How one complete event changes the peer mapping.
pub open spec fn apply_event(
    m: Map<Seq<char>, Seq<char>>,
    ev: ResolvedEvent,
) -> Map<Seq<char>, Seq<char>> {
    m.insert(event_key(ev), ev.address->0@)
}

/// The mapping after a sequence of complete events, first event first.
pub open spec fn apply_events(
    m: Map<Seq<char>, Seq<char>>,
    evs: Seq<ResolvedEvent>,
) -> Map<Seq<char>, Seq<char>>
    decreases evs.len(),
{
    if evs.len() == 0 {
        m
    } else {
        apply_event(apply_events(m, evs.drop_last()), evs.last())
    }
}

/// The peer mapping denoted by a list of entries, later entries winning.
spec fn map_of(entries: Seq<(String, String)>) -> Map<Seq<char>, Seq<char>>
    decreases entries.len(),
{
    if entries.len() == 0 {
        Map::empty()
    } else {
        map_of(entries.drop_last()).insert(entries.last().0@, entries.last().1@)
    }
}

/// The peers visible in one discovery poll: hostname mapped to address,
/// keys unique.
pub struct PeerSet {
    entries: Vec<(String, String)>,
}

impl View for PeerSet {
    type V = Map<Seq<char>, Seq<char>>;

    closed spec fn view(&self) -> Map<Seq<char>, Seq<char>> {
        map_of(self.entries@)
    }
}

proof fn lemma_map_of_domain(entries: Seq<(String, String)>)
    ensures
        forall|k: Seq<char>|
            map_of(entries).contains_key(k) <==> exists|i: int|
                0 <= i < entries.len() && #[trigger] entries[i].0@ == k,
    decreases entries.len(),
{
    if entries.len() > 0 {
        lemma_map_of_domain(entries.drop_last());
        let rest = entries.drop_last();
        assert forall|k: Seq<char>| map_of(entries).contains_key(k) implies exists|i: int|
            0 <= i < entries.len() && #[trigger] entries[i].0@ == k by {
            if k == entries.last().0@ {
                assert(entries[entries.len() - 1].0@ == k);
            } else {
                assert(map_of(rest).contains_key(k));
                let i = choose|i: int| 0 <= i < rest.len() && #[trigger] rest[i].0@ == k;
                assert(rest[i] == entries[i]);
                assert(entries[i].0@ == k);
            }
        }
        assert forall|k: Seq<char>|
            exists|i: int|
                0 <= i < entries.len() && #[trigger] entries[i].0@
                    == k implies map_of(entries).contains_key(k) by {
            let i = choose|i: int| 0 <= i < entries.len() && #[trigger] entries[i].0@ == k;
            if i < entries.len() - 1 {
                assert(rest[i] == entries[i]);
                assert(rest[i].0@ == k);
                assert(map_of(rest).contains_key(k));
            }
        }
    }
}

/// Updating the entry that holds `k` denotes insertion into the mapping,
/// provided no later entry shadows it.
proof fn lemma_map_of_update(entries: Seq<(String, String)>, i: int, p: (String, String))
    requires
        0 <= i < entries.len(),
        entries[i].0@ == p.0@,
        forall|j: int| i < j < entries.len() ==> #[trigger] entries[j].0@ != p.0@,
    ensures
        map_of(entries.update(i, p)) =~= map_of(entries).insert(p.0@, p.1@),
    decreases entries.len(),
{
    if entries.len() > 0 {
        if i == entries.len() - 1 {
            assert(entries.update(i, p).drop_last() =~= entries.drop_last());
        } else {
            assert(entries.update(i, p).drop_last() =~= entries.drop_last().update(i, p));
            assert(forall|j: int|
                i < j < entries.drop_last().len() ==> #[trigger] entries.drop_last()[j].0@
                    != p.0@);
            lemma_map_of_update(entries.drop_last(), i, p);
            assert(entries.update(i, p).last() == entries.last());
        }
    }
}

impl PeerSet {
    /// Keys are pairwise distinct.
    pub closed spec fn wf(&self) -> bool {
        forall|i: int, j: int|
            #![trigger self.entries@[i].0@, self.entries@[j].0@]
            0 <= i < j < self.entries@.len() ==> self.entries@[i].0@ != self.entries@[j].0@
    }

    /// An empty peer set.
    pub fn new() -> (r: PeerSet)
        ensures
            r@ == Map::<Seq<char>, Seq<char>>::empty(),
            r.wf(),
    {
        PeerSet { entries: Vec::new() }
    }

    /// Number of peers recorded.
    pub fn len(&self) -> (n: usize)
        ensures
            self.wf() ==> n == self@.dom().len(),
    {
        proof {
            if self.wf() {
                lemma_wf_len(self.entries@);
            }
        }
        self.entries.len()
    }

    /// Records `address` under `hostname`, overwriting any earlier address
    /// recorded under the same hostname in this poll.
    pub fn insert(&mut self, hostname: String, address: String)
        requires
            old(self).wf(),
        ensures
            final(self).wf(),
            final(self)@ == old(self)@.insert(hostname@, address@),
    {
        let n = self.entries.len();
        let mut i: usize = 0;
        while i < n
            invariant
                0 <= i <= n,
                n == self.entries@.len(),
                self == old(self),
                self.wf(),
                forall|j: int| 0 <= j < i ==> #[trigger] self.entries@[j].0@ != hostname@,
            decreases n - i,
        {
            if str_eq(self.entries[i].0.as_str(), hostname.as_str()) {
                let ghost pre = self.entries@;
                proof {
                    assert(pre[i as int].0@ == hostname@);
                    assert forall|j: int| i < j < pre.len() implies #[trigger] pre[j].0@
                        != hostname@ by {
                        assert(pre[i as int].0@ != pre[j].0@);
                    }
                    lemma_map_of_update(pre, i as int, (hostname, address));
                }
                self.entries.set(i, (hostname, address));
                proof {
                    assert(self.entries@ =~= pre.update(i as int, (hostname, address)));
                    assert forall|p: int, q: int|
                        #![trigger self.entries@[p].0@, self.entries@[q].0@]
                        0 <= p < q < self.entries@.len() implies self.entries@[p].0@
                        != self.entries@[q].0@ by {
                        if p == i as int {
                            assert(pre[q].0@ != hostname@);
                        } else if q == i as int {
                            assert(pre[p].0@ != hostname@);
                        } else {
                            assert(pre[p].0@ != pre[q].0@);
                        }
                    }
                }
                return ;
            }
            i = i + 1;
        }
        let ghost pre = self.entries@;
        self.entries.push((hostname, address));
        proof {
            assert(self.entries@.drop_last() =~= pre);
            assert(self.entries@.last().0@ == hostname@);
            assert forall|p: int, q: int|
                #![trigger self.entries@[p].0@, self.entries@[q].0@]
                0 <= p < q < self.entries@.len() implies self.entries@[p].0@
                != self.entries@[q].0@ by {
                if q == self.entries@.len() - 1 {
                    assert(pre[p].0@ != hostname@);
                } else {
                    assert(pre[p].0@ != pre[q].0@);
                }
            }
        }
    }

    /// The address recorded for `hostname`, if any.
    pub fn lookup(&self, hostname: &str) -> (r: Option<String>)
        requires
            self.wf(),
        ensures
            match r {
                Option::Some(a) => self@.contains_key(hostname@) && a@ == self@[hostname@],
                Option::None => !self@.contains_key(hostname@),
            },
    {
        proof {
            lemma_map_of_domain(self.entries@);
        }
        let n = self.entries.len();
        let mut i: usize = 0;
        while i < n
            invariant
                0 <= i <= n,
                n == self.entries@.len(),
                self.wf(),
                forall|j: int| 0 <= j < i ==> #[trigger] self.entries@[j].0@ != hostname@,
            decreases n - i,
        {
            if str_eq(self.entries[i].0.as_str(), hostname) {
                proof {
                    lemma_map_of_lookup(self.entries@, i as int);
                }
                return Option::Some(self.entries[i].1.clone());
            }
            i = i + 1;
        }
        Option::None
    }
}

/// With pairwise distinct keys, the mapping has exactly one entry per pair.
proof fn lemma_wf_len(entries: Seq<(String, String)>)
    requires
        forall|i: int, j: int|
            0 <= i < j < entries.len() ==> #[trigger] entries[i].0@ != #[trigger] entries[j].0@,
    ensures
        map_of(entries).dom().finite(),
        map_of(entries).dom().len() == entries.len(),
    decreases entries.len(),
{
    if entries.len() > 0 {
        lemma_wf_len(entries.drop_last());
        lemma_map_of_domain(entries.drop_last());
        assert(!map_of(entries.drop_last()).contains_key(entries.last().0@));
    }
}

/// The entry holding a key that no later entry repeats gives the mapping's
/// value at that key.
proof fn lemma_map_of_lookup(entries: Seq<(String, String)>, i: int)
    requires
        0 <= i < entries.len(),
        forall|j: int| i < j < entries.len() ==> #[trigger] entries[j].0@ != entries[i].0@,
    ensures
        map_of(entries).contains_key(entries[i].0@),
        map_of(entries)[entries[i].0@] == entries[i].1@,
    decreases entries.len(),
{
    if i < entries.len() - 1 {
        lemma_map_of_lookup(entries.drop_last(), i);
    }
}

/// Applies one resolution event to the peers gathered so far.
///
/// A complete event is always recorded, whether or not its protocol id
/// matches `local_protocol`; the result then reports whether it matched, so
/// that the caller can warn about incompatible peers it still reports. An
/// event lacking an address or a protocol id fails the poll and leaves the
/// peers unchanged.
pub fn register_peer(
    peers: &mut PeerSet,
    ev: ResolvedEvent,
    local_protocol: &str,
) -> (r: Result<bool, DiscoveryError>)
    requires
        old(peers).wf(),
    ensures
        final(peers).wf(),
        event_complete(ev) ==> (r matches Ok(matched) && final(peers)@ == apply_event(
            old(peers)@,
            ev,
        ) && matched == (ev.protocol->0@ == local_protocol@)),
        !event_complete(ev) ==> (r matches Err(e) && e == DiscoveryError::MalformedDiscoveryEvent
            && *final(peers) == *old(peers)),
{
    let address = match ev.address {
        Option::Some(a) => a,
        Option::None => {
            return Result::Err(DiscoveryError::MalformedDiscoveryEvent);
        },
    };
    let protocol = match ev.protocol {
        Option::Some(p) => p,
        Option::None => {
            return Result::Err(DiscoveryError::MalformedDiscoveryEvent);
        },
    };
    let matched = str_eq(protocol.as_str(), local_protocol);
    let key = match ev.device_id {
        Option::Some(d) => d,
        Option::None => ev.hostname,
    };
    peers.insert(key, address);
    Result::Ok(matched)
}

/// A peer whose advertised protocol id differs from the local one is still
/// entered into the mapping, exactly as a matching peer is: discovery
/// reports presence, not compatibility.
pub proof fn lemma_mismatched_protocol_still_included(
    m: Map<Seq<char>, Seq<char>>,
    ev: ResolvedEvent,
    local_protocol: Seq<char>,
)
    requires
        event_complete(ev),
        ev.protocol->0@ != local_protocol,
    ensures
        apply_event(m, ev).contains_key(event_key(ev)),
        apply_event(m, ev)[event_key(ev)] == ev.address->0@,
{
}

/// A poll that saw no events reports no peers and no error.
pub proof fn lemma_empty_poll_empty_map(m: Map<Seq<char>, Seq<char>>)
    ensures
        apply_events(m, Seq::<ResolvedEvent>::empty()) == m,
        apply_events(Map::<Seq<char>, Seq<char>>::empty(), Seq::<ResolvedEvent>::empty()).dom()
            =~= Set::<Seq<char>>::empty(),
{
}

/// Of two events naming the same hostname within one poll, the later one's
/// address is the one reported.
pub proof fn lemma_later_event_wins(
    m: Map<Seq<char>, Seq<char>>,
    first: ResolvedEvent,
    second: ResolvedEvent,
)
    requires
        event_complete(first),
        event_complete(second),
        event_key(first) == event_key(second),
    ensures
        apply_event(apply_event(m, first), second) =~= apply_event(m, second),
        apply_event(apply_event(m, first), second)[event_key(second)] == second.address->0@,
{
}

} // verus!
