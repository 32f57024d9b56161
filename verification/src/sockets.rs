//! The two discovery endpoints: the announcer that advertises this host as
//! a streaming endpoint, and the welcome socket that listens for advertised
//! endpoints and reports the currently visible peers.
//!
//! The multicast discovery work itself is done by the `mdns_sd` crate behind
//! the trusted wrappers at the bottom of this file; everything that decides
//! is verified here and in `discovery`.

use vstd::prelude::*;

verus! {

use crate::NANVR_LOW_NAME;
use crate::discovery::{DiscoveryError, PeerSet, ResolvedEvent, apply_events, event_complete,
    register_peer};
use crate::text::{dec_string, dec_view, str_eq};
use crate::version::protocol_id;

/// The well-known service type that announcer and browser agree on.
pub const MDNS_SERVICE_TYPE: &'static str = "_nanvr._udp.local.";

/// TXT attribute carrying the announcer's protocol id.
pub const MDNS_PROTOCOL_KEY: &'static str = "protocol";

/// TXT attribute carrying an optional device identity that overrides the
/// advertised hostname.
pub const MDNS_DEVICE_ID_KEY: &'static str = "device_id";

/// Fixed multicast discovery port.
pub const MDNS_PORT: u16 = 5353;

/// How many queued events one poll will drain before returning. The queue
/// never comes near this in practice; the bound keeps every poll provably
/// finite, and anything beyond it is picked up by the next periodic poll.
pub const DRAIN_BUDGET: u32 = 65536;

/// An address is unusable when it is the unspecified IPv4 or IPv6 address.
pub open spec fn is_unspecified_ip(s: Seq<char>) -> bool {
    s == "0.0.0.0"@ || s == "::"@
}

/// Decides `is_unspecified_ip`.
pub fn ip_is_unspecified(ip: &str) -> (r: bool)
    ensures
        r == is_unspecified_ip(ip@),
{
    str_eq(ip, "0.0.0.0") || str_eq(ip, "::")
}

/// The service instance name for one announcement: the product name
/// followed by `n` in decimal. `n` is drawn fresh for every announcement so
/// that repeated announces after a crash or restart never collide with a
/// stale registration of the same identity.
pub fn instance_name(n: u16) -> (r: String)
    ensures
        r@ == NANVR_LOW_NAME@ + dec_view(n as nat),
{
    String::from_str(NANVR_LOW_NAME).concat(dec_string(n as u64).as_str())
}

/// Advertises this host as a streaming endpoint (client side).
pub struct AnnouncerSocket {
    hostname: String,
    daemon: mdns_sd::ServiceDaemon,
}

impl AnnouncerSocket {
    /// The hostname this socket announces.
    pub closed spec fn hostname_view(&self) -> Seq<char> {
        self.hostname@
    }

    /// Starts the discovery daemon for announcing under `hostname`.
    pub fn new(hostname: &str) -> (r: Result<AnnouncerSocket, DiscoveryError>)
        ensures
            r matches Ok(s) ==> s.hostname_view() == hostname@,
            r matches Err(e) ==> e == DiscoveryError::DiscoveryInitError,
    {
        match daemon_new() {
            Option::Some(daemon) => Result::Ok(
                AnnouncerSocket { hostname: String::from_str(hostname), daemon },
            ),
            Option::None => Result::Err(DiscoveryError::DiscoveryInitError),
        }
    }

    /// Publishes one service announcement carrying the local protocol id,
    /// under a freshly randomized instance name.
    ///
    /// `local_ip` is this host's outbound address in its canonical textual
    /// form; an unspecified address means no usable interface and fails the
    /// announcement. The announcement stays live on the network until the
    /// daemon is torn down with the process.
    pub fn announce(&self, local_ip: &str) -> (r: Result<(), DiscoveryError>)
        ensures
            is_unspecified_ip(local_ip@) <==> r == Result::<(), DiscoveryError>::Err(
                DiscoveryError::NetworkUnavailable,
            ),
            r matches Err(e) ==> (e == DiscoveryError::NetworkUnavailable || e
                == DiscoveryError::DiscoveryInitError),
    {
        if ip_is_unspecified(local_ip) {
            return Result::Err(DiscoveryError::NetworkUnavailable);
        }
        let name = instance_name(random_u16());
        let protocol = protocol_id();
        let info = match service_info_new(
            MDNS_SERVICE_TYPE,
            name.as_str(),
            self.hostname.as_str(),
            local_ip,
            MDNS_PORT,
            MDNS_PROTOCOL_KEY,
            protocol.as_str(),
        ) {
            Option::Some(info) => info,
            Option::None => {
                return Result::Err(DiscoveryError::DiscoveryInitError);
            },
        };
        if daemon_register(&self.daemon, info) {
            Result::Ok(())
        } else {
            Result::Err(DiscoveryError::DiscoveryInitError)
        }
    }
}

/// Listens for advertised endpoints (server side).
pub struct WelcomeSocket {
    receiver: flume::Receiver<mdns_sd::ServiceEvent>,
}

impl WelcomeSocket {
    /// Starts a background listener subscribed to the known service type.
    pub fn new() -> (r: Result<WelcomeSocket, DiscoveryError>)
        ensures
            r matches Err(e) ==> e == DiscoveryError::DiscoveryInitError,
    {
        let daemon = match daemon_new() {
            Option::Some(d) => d,
            Option::None => {
                return Result::Err(DiscoveryError::DiscoveryInitError);
            },
        };
        match daemon_browse(&daemon, MDNS_SERVICE_TYPE) {
            Option::Some(receiver) => Result::Ok(WelcomeSocket { receiver }),
            Option::None => Result::Err(DiscoveryError::DiscoveryInitError),
        }
    }

    /// Non-blocking drain of every resolution event currently queued,
    /// returning the peers they name, keyed by hostname, later events
    /// winning. Returns as soon as the queue is momentarily empty; never
    /// waits for more events.
    ///
    /// An event without an address or protocol id attribute fails the whole
    /// poll, discarding peers already accumulated. A peer with a mismatched
    /// protocol id is still included. A channel failure is distinct from
    /// normal queue exhaustion.
    pub fn recv_all(&self) -> (r: Result<PeerSet, DiscoveryError>)
        ensures
            r matches Ok(peers) ==> peers.wf() && exists|evs: Seq<ResolvedEvent>|
                (forall|i: int| 0 <= i < evs.len() ==> event_complete(#[trigger] evs[i]))
                    && peers@ == apply_events(Map::empty(), evs),
            r matches Err(e) ==> (e == DiscoveryError::MalformedDiscoveryEvent || e
                == DiscoveryError::ChannelFailure),
    {
        let local_protocol = protocol_id();
        let mut peers = PeerSet::new();
        let ghost mut taken: Seq<ResolvedEvent> = Seq::empty();
        let mut budget: u32 = DRAIN_BUDGET;
        while budget > 0
            invariant
                peers.wf(),
                forall|i: int| 0 <= i < taken.len() ==> event_complete(#[trigger] taken[i]),
                peers@ == apply_events(Map::empty(), taken),
            decreases budget,
        {
            budget = budget - 1;
            match try_recv_resolution(&self.receiver) {
                RecvOutcome::Resolved(service) => {
                    let ev = ResolvedEvent {
                        hostname: resolved_hostname(&service),
                        device_id: resolved_property(&service, MDNS_DEVICE_ID_KEY),
                        protocol: resolved_property(&service, MDNS_PROTOCOL_KEY),
                        address: resolved_first_address(&service),
                    };
                    let ghost this_event = ev;
                    match register_peer(&mut peers, ev, local_protocol.as_str()) {
                        Result::Ok(_protocol_matched) => {
                            proof {
                                let prev = taken;
                                taken = taken.push(this_event);
                                assert(taken.drop_last() =~= prev);
                                assert(taken.last() == this_event);
                            }
                        },
                        Result::Err(e) => {
                            return Result::Err(e);
                        },
                    }
                },
                RecvOutcome::Other => {},
                RecvOutcome::Empty => {
                    return Result::Ok(peers);
                },
                RecvOutcome::Closed => {
                    return Result::Err(DiscoveryError::ChannelFailure);
                },
            }
        }
        Result::Ok(peers)
    }
}

/// What one non-blocking look at the event channel produced.
pub enum RecvOutcome {
    /// A resolution event; other event kinds are reported as `Other`.
    Resolved(Box<mdns_sd::ResolvedService>),
    /// A queued event of a kind this model does not read.
    Other,
    /// The queue is momentarily empty.
    Empty,
    /// The channel has failed outright.
    Closed,
}

#[verifier::external_type_specification]
#[verifier::external_body]
pub struct ExServiceDaemon(mdns_sd::ServiceDaemon);

#[verifier::external_type_specification]
#[verifier::external_body]
pub struct ExServiceInfo(mdns_sd::ServiceInfo);

#[verifier::external_type_specification]
#[verifier::external_body]
pub struct ExServiceEvent(mdns_sd::ServiceEvent);

#[verifier::external_type_specification]
#[verifier::external_body]
pub struct ExResolvedService(mdns_sd::ResolvedService);

#[verifier::external_type_specification]
#[verifier::external_body]
#[verifier::reject_recursive_types(T)]
pub struct ExReceiver<T>(flume::Receiver<T>);

/// Relies on `mdns_sd::ServiceDaemon::new`: starts the discovery daemon.
#[verifier::external_body]
fn daemon_new() -> Option<mdns_sd::ServiceDaemon> {
    mdns_sd::ServiceDaemon::new().ok()
}

/// Relies on `mdns_sd::ServiceInfo::new`: builds a service announcement
/// from the service type, instance name, hostname, a textual IP address,
/// the port, and one TXT property.
#[verifier::external_body]
fn service_info_new(
    ty_domain: &str,
    instance: &str,
    hostname: &str,
    ip: &str,
    port: u16,
    property_key: &str,
    property_val: &str,
) -> Option<mdns_sd::ServiceInfo> {
    mdns_sd::ServiceInfo::new(
        ty_domain,
        instance,
        hostname,
        ip,
        port,
        &[(property_key, property_val)][..],
    ).ok()
}

/// Relies on `mdns_sd::ServiceDaemon::register`: publishes the
/// announcement; it stays live until the daemon is torn down.
#[verifier::external_body]
fn daemon_register(daemon: &mdns_sd::ServiceDaemon, info: mdns_sd::ServiceInfo) -> bool {
    daemon.register(info).is_ok()
}

/// Relies on `mdns_sd::ServiceDaemon::browse`: subscribes to a service
/// type and hands back the event channel fed by the daemon's background
/// listener.
#[verifier::external_body]
fn daemon_browse(
    daemon: &mdns_sd::ServiceDaemon,
    ty_domain: &str,
) -> Option<flume::Receiver<mdns_sd::ServiceEvent>> {
    daemon.browse(ty_domain).ok()
}

/// Relies on `flume::Receiver::try_recv`: non-blocking; distinguishes an
/// empty queue from a failed channel. Events other than a resolution are
/// folded into `Other`.
#[verifier::external_body]
fn try_recv_resolution(receiver: &flume::Receiver<mdns_sd::ServiceEvent>) -> RecvOutcome {
    match receiver.try_recv() {
        Ok(mdns_sd::ServiceEvent::ServiceResolved(service)) => RecvOutcome::Resolved(service),
        Ok(_) => RecvOutcome::Other,
        Err(flume::TryRecvError::Empty) => RecvOutcome::Empty,
        Err(flume::TryRecvError::Disconnected) => RecvOutcome::Closed,
    }
}

/// Relies on `mdns_sd::ResolvedService::get_hostname`: the advertised host
/// name.
#[verifier::external_body]
fn resolved_hostname(service: &mdns_sd::ResolvedService) -> String {
    service.get_hostname().to_owned()
}

/// Relies on `mdns_sd::ResolvedService::get_property_val_str`: the value
/// of one TXT attribute, when present.
#[verifier::external_body]
fn resolved_property(service: &mdns_sd::ResolvedService, key: &str) -> Option<String> {
    service.get_property_val_str(key).map(str::to_owned)
}

/// Relies on `mdns_sd::ResolvedService::get_addresses`: some address the
/// event reported, when any was present. The set is unordered, so which
/// address of several comes back is left open.
#[verifier::external_body]
fn resolved_first_address(service: &mdns_sd::ResolvedService) -> Option<String> {
    service.get_addresses().iter().next().map(|ip| ip.to_string())
}

/// Relies on `rand::random`: a fresh random value each call.
#[verifier::external_body]
fn random_u16() -> u16 {
    rand::random::<u16>()
}

} // verus!
