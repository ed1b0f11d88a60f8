//! The peers found on the local network, by multicast DNS or by broadcast, and
//! the broadcast packets themselves.
use vstd::prelude::*;

use crate::bytes;
use crate::str_map::StrMap;
use crate::text::str_equal;

verus! {

/// The port that broadcasts are sent to.
pub const UDP_BROADCAST_PORT: u16 = 51820;

/// How long a peer counts as present after it was last seen, in seconds.
pub const PEER_LIFETIME_SECS: u64 = 30;

/// How often this device announces itself by broadcast, in seconds.
pub const ANNOUNCE_INTERVAL_SECS: u64 = 5;

/// The mDNS service type under which all devices advertise.
pub fn service_type() -> (s: &'static str)
    ensures
        s@ == "_zaop2p._tcp.local."@,
{
    "_zaop2p._tcp.local."
}

/// How a peer was found.
#[derive(Debug, Clone, Copy, PartialEq, Eq, Structural)]
pub enum DiscoveryMethod {
    Mdns,
    UdpBroadcast,
}

#[derive(Debug)]
pub struct DiscoveredPeer {
    pub device_id: String,
    pub display_name: String,
    /// Where the peer listens, as `ip:port`.
    pub addr: String,
    pub via: DiscoveryMethod,
    pub last_seen_unix: u64,
}

impl Clone for DiscoveredPeer {
    fn clone(&self) -> (r: Self)
        ensures
            r == *self,
    {
        DiscoveredPeer {
            device_id: self.device_id.clone(),
            display_name: self.display_name.clone(),
            addr: self.addr.clone(),
            via: self.via,
            last_seen_unix: self.last_seen_unix,
        }
    }
}

/// The seven bytes in front of every broadcast: `ZAOP2P1`.
pub open spec fn udp_magic() -> Seq<u8> {
    seq![90u8, 65, 79, 80, 50, 80, 49]
}

fn magic_bytes() -> (r: [u8; 7])
    ensures
        r@ == udp_magic(),
{
    let r: [u8; 7] = [90, 65, 79, 80, 50, 80, 49];
    assert(r@ =~= udp_magic());
    r
}

/// The broadcast packet with this announcement.
pub fn announcement_packet(payload: &[u8]) -> (packet: Vec<u8>)
    ensures
        packet@ == udp_magic() + payload@,
{
    let mut packet: Vec<u8> = bytes::to_vec(&magic_bytes());
    bytes::extend(&mut packet, payload);
    packet
}

/// Whether a packet is a broadcast of this application: it begins with the
/// magic bytes and goes on after them.
pub open spec fn is_announcement(packet: Seq<u8>) -> bool {
    packet.len() > 7 && packet.take(7) == udp_magic()
}

/// The announcement in a packet; none where the packet is something else.
pub fn announcement_payload(packet: &[u8]) -> (r: Option<Vec<u8>>)
    ensures
        match r {
            Some(p) => is_announcement(packet@) && p@ == packet@.skip(7),
            None => !is_announcement(packet@),
        },
{
    if packet.len() <= 7 {
        return None;
    }
    let (head, payload) = packet.split_at(7);
    assert(head@ =~= packet@.take(7));
    assert(payload@ =~= packet@.skip(7));
    if !bytes::equal(head, &magic_bytes()) {
        return None;
    }
    Some(bytes::to_vec(payload))
}

/// A broadcast that is not empty is recognised, with the announcement in it.
pub proof fn announcement_roundtrip(payload: Seq<u8>)
    requires
        payload.len() > 0,
    ensures
        is_announcement(udp_magic() + payload),
        (udp_magic() + payload).skip(7) == payload,
{
    assert((udp_magic() + payload).take(7) =~= udp_magic());
    assert((udp_magic() + payload).skip(7) =~= payload);
}

/// The peer behind a resolved service, if the service tells who and where it
/// is. A service that does not tell its name has a general one.
pub fn peer_from_service_info(
    device_id: Option<String>,
    display_name: Option<String>,
    addr: Option<String>,
    via: DiscoveryMethod,
    now: u64,
) -> (r: Option<DiscoveredPeer>)
    ensures
        match r {
            Some(p) => {
                &&& device_id == Some(p.device_id)
                &&& addr == Some(p.addr)
                &&& p.via == via
                &&& p.last_seen_unix == now
                &&& match display_name {
                    Some(n) => p.display_name == n,
                    None => p.display_name@ == "Unknown Device"@,
                }
            },
            None => device_id is None || addr is None,
        },
{
    match (device_id, addr) {
        (Some(device_id), Some(addr)) => {
            let display_name: String = match display_name {
                Some(n) => n,
                None => "Unknown Device".to_string(),
            };
            Some(DiscoveredPeer { device_id, display_name, addr, via, last_seen_unix: now })
        },
        _ => None,
    }
}

/// The peers that a device knows of.
pub struct PeerTable {
    pub self_id: String,
    pub peers: StrMap<DiscoveredPeer>,
}

/// A peer was seen recently enough at time `now`.
pub open spec fn present(p: DiscoveredPeer, now: u64) -> bool {
    now - p.last_seen_unix < PEER_LIFETIME_SECS
}

/// The peers that are still present.
pub open spec fn present_peers(m: Map<Seq<char>, DiscoveredPeer>, now: u64) -> Map<
    Seq<char>,
    DiscoveredPeer,
> {
    Map::new(|k: Seq<char>| m.contains_key(k) && present(m[k], now), |k: Seq<char>| m[k])
}

/// `list` has the values of `m` in the order of `keys`, which are its keys.
pub open spec fn lists_by(
    list: Seq<DiscoveredPeer>,
    m: Map<Seq<char>, DiscoveredPeer>,
    keys: Seq<Seq<char>>,
) -> bool {
    &&& keys.no_duplicates()
    &&& keys.len() == list.len()
    &&& forall|k: Seq<char>| #[trigger] m.contains_key(k) <==> keys.contains(k)
    &&& forall|i: int| 0 <= i < list.len() ==> #[trigger] list[i] == m[keys[i]]
}

/// `list` has the value of every key of `m`, once.
pub open spec fn lists(list: Seq<DiscoveredPeer>, m: Map<Seq<char>, DiscoveredPeer>) -> bool {
    exists|keys: Seq<Seq<char>>| #[trigger] lists_by(list, m, keys)
}

/// The entry of a peer after its broadcast was heard: an entry from mDNS is
/// kept and only seen again, any other gives way to the broadcast.
pub open spec fn after_broadcast(
    m: Map<Seq<char>, DiscoveredPeer>,
    heard: DiscoveredPeer,
) -> DiscoveredPeer {
    if m.contains_key(heard.device_id@) && m[heard.device_id@].via is Mdns {
        DiscoveredPeer { last_seen_unix: heard.last_seen_unix, ..m[heard.device_id@] }
    } else {
        heard
    }
}

impl PeerTable {
    /// A device does not list itself.
    pub open spec fn leaves_itself_out(self) -> bool {
        !self.peers@.contains_key(self.self_id@)
    }

    pub fn new(self_id: String) -> (r: Self)
        ensures
            r.leaves_itself_out(),
            r.self_id == self_id,
            r.peers@ == Map::<Seq<char>, DiscoveredPeer>::empty(),
    {
        PeerTable { self_id, peers: StrMap::new() }
    }

    /// A service was resolved by mDNS. It replaces what was known of the peer;
    /// this device itself is left out.
    pub fn on_resolved(&mut self, peer: DiscoveredPeer)
        ensures
            old(self).leaves_itself_out() ==> final(self).leaves_itself_out(),
            final(self).self_id == old(self).self_id,
            final(self).peers@ == (if peer.device_id@ == old(self).self_id@ {
                old(self).peers@
            } else {
                old(self).peers@.insert(peer.device_id@, peer)
            }),
    {
        if !str_equal(peer.device_id.as_str(), self.self_id.as_str()) {
            let key: String = peer.device_id.clone();
            self.peers.insert(key, peer);
        }
    }

    /// A broadcast was heard. This device's own is left out.
    pub fn on_broadcast(&mut self, device_id: String, display_name: String, addr: String, now: u64)
        ensures
            old(self).leaves_itself_out() ==> final(self).leaves_itself_out(),
            final(self).self_id == old(self).self_id,
            final(self).peers@ == (if device_id@ == old(self).self_id@ {
                old(self).peers@
            } else {
                old(self).peers@.insert(
                    device_id@,
                    after_broadcast(
                        old(self).peers@,
                        (DiscoveredPeer {
                            device_id,
                            display_name,
                            addr,
                            via: DiscoveryMethod::UdpBroadcast,
                            last_seen_unix: now,
                        }),
                    ),
                )
            }),
    {
        if str_equal(device_id.as_str(), self.self_id.as_str()) {
            return;
        }
        let key: String = device_id.clone();
        let heard = DiscoveredPeer {
            device_id,
            display_name,
            addr,
            via: DiscoveryMethod::UdpBroadcast,
            last_seen_unix: now,
        };
        match self.peers.remove(&key) {
            Some(existing) => {
                let entry: DiscoveredPeer = match existing.via {
                    DiscoveryMethod::Mdns => DiscoveredPeer { last_seen_unix: now, ..existing },
                    DiscoveryMethod::UdpBroadcast => heard,
                };
                self.peers.insert(key, entry);
                assert(self.peers@ =~= old(self).peers@.insert(key@, entry));
            },
            None => {
                self.peers.insert(key, heard);
                assert(self.peers@ =~= old(self).peers@.insert(key@, heard));
            },
        }
    }

    /// The peers that are present now, each once. Those that were not seen for
    /// too long are forgotten.
    pub fn known_peers(&mut self, now: u64) -> (r: Vec<DiscoveredPeer>)
        ensures
            old(self).leaves_itself_out() ==> final(self).leaves_itself_out(),
            final(self).self_id == old(self).self_id,
            final(self).peers@ == present_peers(old(self).peers@, now),
            lists(r@, final(self).peers@),
    {
        let ghost before = self.peers@;
        let keys: Vec<String> = self.peers.keys();
        let mut i: usize = 0;
        while i < keys.len()
            invariant
                i <= keys@.len(),
                self.self_id == old(self).self_id,
                forall|k: Seq<char>|
                    #[trigger] before.contains_key(k) <==> exists|j: int|
                        0 <= j < keys@.len() && (#[trigger] keys@[j])@ == k,
                forall|a: int, b: int|
                    #![trigger keys@[a], keys@[b]]
                    0 <= a < b < keys@.len() ==> keys@[a]@ != keys@[b]@,
                forall|k: Seq<char>| #[trigger]
                    self.peers@.contains_key(k) ==> before.contains_key(k) && self.peers@[k]
                        == before[k],
                forall|j: int|
                    0 <= j < keys@.len() ==> (self.peers@.contains_key((#[trigger] keys@[j])@)
                        <==> (j >= i || present(before[keys@[j]@], now))),
            decreases keys@.len() - i,
        {
            let ghost prev = self.peers@;
            assert(before.contains_key(keys@[i as int]@));
            let stale: bool = match self.peers.get(&keys[i]) {
                Some(p) => now >= p.last_seen_unix && now - p.last_seen_unix >= PEER_LIFETIME_SECS,
                None => false,
            };
            if stale {
                let _ = self.peers.remove(&keys[i]);
            }
            assert forall|j: int| 0 <= j < keys@.len() implies (self.peers@.contains_key(
                (#[trigger] keys@[j])@,
            ) <==> (j >= i + 1 || present(before[keys@[j]@], now))) by {
                if j < i {
                    assert(keys@[j]@ != keys@[i as int]@);
                }
                if j > i {
                    assert(keys@[i as int]@ != keys@[j]@);
                }
                assert(prev.contains_key(keys@[j]@) <==> (j >= i || present(
                    before[keys@[j]@],
                    now,
                )));
            }
            i = i + 1;
        }
        assert(self.peers@ =~= present_peers(before, now)) by {
            assert forall|k: Seq<char>|
                #[trigger] self.peers@.contains_key(k) <==> present_peers(before, now).contains_key(
                    k,
                ) by {
                if before.contains_key(k) {
                    let j = choose|j: int| 0 <= j < keys@.len() && (#[trigger] keys@[j])@ == k;
                    assert(self.peers@.contains_key(keys@[j]@) <==> present(before[keys@[j]@], now));
                }
            }
        }
        self.all_peers()
    }

    /// The peers of the table, each once.
    fn all_peers(&self) -> (r: Vec<DiscoveredPeer>)
        ensures
            lists(r@, self.peers@),
    {
        let keys: Vec<String> = self.peers.keys();
        let mut out: Vec<DiscoveredPeer> = Vec::new();
        let mut i: usize = 0;
        while i < keys.len()
            invariant
                i <= keys@.len(),
                out@.len() == i,
                forall|k: Seq<char>|
                    #[trigger] self.peers@.contains_key(k) <==> exists|j: int|
                        0 <= j < keys@.len() && (#[trigger] keys@[j])@ == k,
                forall|j: int| 0 <= j < i ==> #[trigger] out@[j] == self.peers@[keys@[j]@],
            decreases keys@.len() - i,
        {
            assert(self.peers@.contains_key(keys@[i as int]@));
            match self.peers.get(&keys[i]) {
                Some(p) => {
                    out.push(p.clone());
                },
                None => {},
            }
            i = i + 1;
        }
        proof {
            let texts = keys@.map_values(|k: String| k@);
            assert forall|k: Seq<char>| #[trigger] self.peers@.contains_key(k) <==> texts.contains(
                k,
            ) by {
                if self.peers@.contains_key(k) {
                    let j = choose|j: int| 0 <= j < keys@.len() && (#[trigger] keys@[j])@ == k;
                    assert(texts[j] == k);
                }
                if texts.contains(k) {
                    let j = choose|j: int| 0 <= j < texts.len() && texts[j] == k;
                    assert(keys@[j]@ == k);
                }
            }
            assert(texts.no_duplicates()) by {
                assert forall|a: int, b: int|
                    0 <= a < texts.len() && 0 <= b < texts.len() && a != b implies texts[a]
                    != texts[b] by {
                    if a < b {
                        assert(keys@[a]@ != keys@[b]@);
                    } else {
                        assert(keys@[b]@ != keys@[a]@);
                    }
                }
            }
            assert(lists_by(out@, self.peers@, texts));
        }
        out
    }
}

/// Hearing a broadcast never makes a peer that mDNS found look like one that
/// only broadcasts, nor moves its address.
pub proof fn mdns_entry_is_kept(m: Map<Seq<char>, DiscoveredPeer>, heard: DiscoveredPeer)
    requires
        m.contains_key(heard.device_id@),
        m[heard.device_id@].via is Mdns,
    ensures
        after_broadcast(m, heard).via is Mdns,
        after_broadcast(m, heard).addr == m[heard.device_id@].addr,
        after_broadcast(m, heard).display_name == m[heard.device_id@].display_name,
        after_broadcast(m, heard).last_seen_unix == heard.last_seen_unix,
{
}

} // verus!
