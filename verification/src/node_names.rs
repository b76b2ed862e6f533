//! The resolver: turns a short channel id into the counterparty's display
//! name through two cache tiers, asking the caller to perform the remote
//! lookups it cannot answer from cache.
//!
//! A resolution is a little state machine.  `resolve_start` parses the id
//! and probes the caches; it either finishes (`Done`) or names the lookup
//! the caller must perform (`NeedChannels`, `NeedNodes`).  The caller
//! performs that lookup against the node's control interface and hands the
//! records back to `resolve_channels_result` / `resolve_nodes_result`,
//! which decide, fill the caches, and either finish or ask for the next
//! lookup.  Every decision is verified here; only the remote round trip
//! itself stays with the caller.

use crate::ResolveError;
use crate::cache::MAX_TTL_SECS;
use crate::cache::alias_cache_get;
use crate::cache::alias_cache_insert;
use crate::cache::alias_cache_new;
use crate::cache::channel_cache_get;
use crate::cache::channel_cache_insert;
use crate::cache::channel_cache_new;
use crate::cache::alias_contents;
use crate::cache::channel_peer_contents;
use crate::pubkey::PublicKey;
use crate::scid::ShortChannelId;
use crate::scid::is_valid_scid;
use crate::scid::scid_fields;
use crate::scid::scid_key_of;
use crate::scid::parse_short_channel_id;
use crate::text::hex_chars;
use vstd::prelude::*;

verus! {

/// Capacity bound of each cache tier, in entries.
pub const CACHE_SIZE: u64 = 10000;

/// Alias entries expire after this many seconds; channel-to-peer entries
/// never expire (channels are assumed stable for the process's lifetime).
pub const CACHE_EXPIRY_SECS: u64 = 60 * 60;

/// One record from a "list channels by short id" lookup.
pub struct ChannelRecord {
    pub source: PublicKey,
    pub destination: PublicKey,
}

impl ChannelRecord {
    pub open spec fn wf(&self) -> bool {
        self.source.wf() && self.destination.wf()
    }
}

/// One record from a "list node records by public key" lookup.
pub struct NodeRecord {
    pub alias: Option<String>,
}

/// The peer on the far side of a channel record, seen from the node whose
/// own key bytes are `own`: whichever endpoint is not `own`; for a channel
/// whose source is `own`, the destination.
pub open spec fn peer_of(own: Seq<u8>, ch: ChannelRecord) -> Seq<u8> {
    if ch.source@ == own {
        ch.destination@
    } else {
        ch.source@
    }
}

/// The display name a node record yields for the key bytes `pk`: the
/// advertised alias if there is one, else the key's own hex form.
pub open spec fn display_name_of(rec: NodeRecord, pk: Seq<u8>) -> Seq<char> {
    match rec.alias {
        Some(a) => a@,
        None => hex_chars(pk),
    }
}

/// What the resolver asks its caller to do next.
pub enum ResolveStep {
    /// The display name is resolved.
    Done(String),
    /// Ask the gateway for channels with this short id, then hand the
    /// records to `resolve_channels_result`.
    NeedChannels(ShortChannelId),
    /// Ask the gateway for the node with this key, then hand the records
    /// to `resolve_nodes_result`.
    NeedNodes(PublicKey),
}

/// The resolver: the local node's identity and the two cache tiers.
pub struct NodeNames {
    own_pubkey: PublicKey,
    channel_peer_cache: moka::sync::Cache<u64, Vec<u8>>,
    name_cache: moka::sync::Cache<Vec<u8>, String>,
}

/// The peer that the first of the channel records yields, seen from `own`.
pub open spec fn peer_of_listing(own: Seq<u8>, channels: Seq<ChannelRecord>) -> Seq<u8> {
    peer_of(own, channels[0])
}

impl NodeNames {
    /// The local node's public key bytes, obtained once at startup.
    pub closed spec fn own_key(&self) -> Seq<u8> {
        self.own_pubkey@
    }

    /// The channel-to-peer tier: packed short-channel-id key to peer key
    /// bytes.  An upper bound: entries may be evicted at any time.
    pub closed spec fn channel_map(&self) -> Map<u64, Seq<u8>> {
        channel_peer_contents(self.channel_peer_cache)
    }

    /// The alias tier: peer key bytes to display name.  An upper bound:
    /// entries may be evicted or expire at any time.
    pub closed spec fn alias_map(&self) -> Map<Seq<u8>, Seq<char>> {
        alias_contents(self.name_cache)
    }

    /// The local identity is a well-formed key and so is every cached
    /// peer key.
    pub open spec fn wf(&self) -> bool {
        &&& self.own_key().len() == 33
        &&& forall|k: u64, v: Seq<u8>|
            #[trigger] self.channel_map().contains_pair(k, v) ==> v.len() == 33
    }

    /// Builds a resolver around the local node's identity, with empty
    /// caches of the standard capacity and alias time-to-live.
    pub fn new(own_pubkey: PublicKey) -> (r: NodeNames)
        requires
            own_pubkey.wf(),
        ensures
            r.wf(),
            r.own_key() == own_pubkey@,
            r.channel_map() =~= Map::<u64, Seq<u8>>::empty(),
            r.alias_map() =~= Map::<Seq<u8>, Seq<char>>::empty(),
    {
        NodeNames::with_limits(own_pubkey, CACHE_SIZE, CACHE_EXPIRY_SECS)
    }

    /// Builds a resolver with a chosen cache capacity and alias
    /// time-to-live (in seconds, at most [`MAX_TTL_SECS`]: the cache
    /// builder panics beyond that).
    pub fn with_limits(own_pubkey: PublicKey, capacity: u64, ttl_secs: u64) -> (r: NodeNames)
        requires
            own_pubkey.wf(),
            ttl_secs <= MAX_TTL_SECS,
        ensures
            r.wf(),
            r.own_key() == own_pubkey@,
            r.channel_map() =~= Map::<u64, Seq<u8>>::empty(),
            r.alias_map() =~= Map::<Seq<u8>, Seq<char>>::empty(),
    {
        NodeNames {
            own_pubkey,
            channel_peer_cache: channel_cache_new(capacity),
            name_cache: alias_cache_new(capacity, ttl_secs),
        }
    }

    /// Starts resolving a channel id to the peer's display name: parses
    /// the id and probes the caches.  Fails exactly on a malformed id, and
    /// then with `Parse`; otherwise it answers from cache or names the
    /// lookup the caller must perform next.
    pub fn resolve_start(&self, channel_id: &str) -> (r: Result<ResolveStep, ResolveError>)
        requires
            self.wf(),
        ensures
            r is Err <==> !is_valid_scid(channel_id@),
            r is Err ==> r->Err_0 == ResolveError::Parse,
            r matches Ok(ResolveStep::NeedChannels(sc)) ==> sc.wf() && (
            sc.block as nat,
            sc.txindex as nat,
            sc.outnum as nat,
            ) == scid_fields(channel_id@) && sc.key() == scid_key_of(channel_id@),
            r matches Ok(ResolveStep::NeedNodes(pk)) ==> pk.wf()
                && self.channel_map().contains_pair(scid_key_of(channel_id@), pk@),
            r matches Ok(ResolveStep::Done(name)) ==> exists|pkb: Seq<u8>|
                (#[trigger] self.channel_map().contains_pair(scid_key_of(channel_id@), pkb))
                    && self.alias_map().contains_pair(pkb, name@),
    {
        let sc = match parse_short_channel_id(channel_id) {
            Some(sc) => sc,
            None => {
                return Err(ResolveError::Parse);
            },
        };
        let key = sc.to_key();
        proof {
            assert(key == scid_key_of(channel_id@));
        }
        let peer_bytes = match channel_cache_get(&self.channel_peer_cache, key) {
            Some(b) => b,
            None => {
                return Ok(ResolveStep::NeedChannels(sc));
            },
        };
        proof {
            assert(self.channel_map().contains_pair(key, peer_bytes@));
        }
        match alias_cache_get(&self.name_cache, &peer_bytes) {
            Some(name) => {
                proof {
                    assert(self.channel_map().contains_pair(scid_key_of(channel_id@), peer_bytes@)
                        && self.alias_map().contains_pair(peer_bytes@, name@));
                }
                Ok(ResolveStep::Done(name))
            },
            None => {
                match PublicKey::from_bytes(peer_bytes) {
                    Some(pk) => Ok(ResolveStep::NeedNodes(pk)),
                    None => {
                        // unreachable: wf() keeps every cached peer key 33 bytes long
                        proof {
                            assert(false);
                        }
                        Err(ResolveError::Parse)
                    },
                }
            },
        }
    }

    /// Consumes the records of the "list channels by short id" lookup the
    /// resolver asked for.  An empty listing means the channel is unknown
    /// to the node's view of the network: `NotFound`, and nothing is
    /// cached (the miss may be transient).  Otherwise the peer is whichever
    /// endpoint of the first record is not the local node; it is cached
    /// and the resolution moves on to the alias tier.
    pub fn resolve_channels_result(&mut self, scid: &ShortChannelId, channels: &Vec<ChannelRecord>)
        -> (r: Result<ResolveStep, ResolveError>)
        requires
            old(self).wf(),
            scid.wf(),
            forall|i: int| 0 <= i < channels@.len() ==> (#[trigger] channels@[i]).wf(),
        ensures
            final(self).wf(),
            final(self).own_key() == old(self).own_key(),
            final(self).alias_map() == old(self).alias_map(),
            r is Err ==> *final(self) == *old(self),
            r is Ok ==> forall|k: u64, v: Seq<u8>|
                #[trigger] final(self).channel_map().contains_pair(k, v) ==> old(
                    self,
                ).channel_map().insert(
                    scid.key(),
                    peer_of_listing(old(self).own_key(), channels@),
                ).contains_pair(k, v),
            r is Err <==> channels@.len() == 0,
            r is Err ==> r->Err_0 == ResolveError::NotFound,
            r matches Ok(ResolveStep::NeedNodes(pk)) ==> pk.wf() && pk@ == peer_of_listing(
                old(self).own_key(),
                channels@,
            ),
            r matches Ok(ResolveStep::Done(name)) ==> old(self).alias_map().contains_pair(
                peer_of_listing(old(self).own_key(), channels@),
                name@,
            ),
            r is Ok ==> !(r->Ok_0 is NeedChannels),
    {
        if channels.len() == 0 {
            return Err(ResolveError::NotFound);
        }
        let peer = select_peer(&self.own_pubkey, &channels[0]);
        let key = scid.to_key();
        channel_cache_insert(&mut self.channel_peer_cache, key, peer.to_byte_vec());
        proof {
            assert forall|k: u64, v: Seq<u8>| #[trigger] self.channel_map().contains_pair(
                k,
                v,
            ) implies v.len() == 33 by {
                assert(old(self).channel_map().insert(key, peer@).contains_pair(k, v));
                if !(k == key && v == peer@) {
                    assert(old(self).channel_map().contains_pair(k, v));
                }
            }
        }
        match alias_cache_get(&self.name_cache, peer.as_bytes()) {
            Some(name) => Ok(ResolveStep::Done(name)),
            None => Ok(ResolveStep::NeedNodes(peer)),
        }
    }

    /// Consumes the records of the "list node records by public key"
    /// lookup the resolver asked for.  An empty listing means the node is
    /// unknown: `NotFound`, and nothing is cached.  Otherwise the display
    /// name is the first record's alias, or the key's hex form if the node
    /// advertises none; it is cached (with the tier's time-to-live) and
    /// returned.
    pub fn resolve_nodes_result(&mut self, pk: &PublicKey, nodes: &Vec<NodeRecord>) -> (r: Result<
        String,
        ResolveError,
    >)
        requires
            old(self).wf(),
            pk.wf(),
        ensures
            final(self).wf(),
            final(self).own_key() == old(self).own_key(),
            final(self).channel_map() == old(self).channel_map(),
            r is Err ==> *final(self) == *old(self),
            r is Ok ==> forall|k: Seq<u8>, v: Seq<char>|
                #[trigger] final(self).alias_map().contains_pair(k, v) ==> old(
                    self,
                ).alias_map().insert(pk@, display_name_of(nodes@[0], pk@)).contains_pair(k, v),
            r is Err <==> nodes@.len() == 0,
            r is Err ==> r->Err_0 == ResolveError::NotFound,
            r matches Ok(name) ==> name@ == display_name_of(nodes@[0], pk@),
    {
        if nodes.len() == 0 {
            return Err(ResolveError::NotFound);
        }
        let name: String = match &nodes[0].alias {
            Some(a) => a.clone(),
            None => pk.to_hex(),
        };
        alias_cache_insert(&mut self.name_cache, pk.to_byte_vec(), name.clone());
        proof {
            assert(self.channel_map() == old(self).channel_map());
        }
        Ok(name)
    }
}

/// The peer on the far side of a channel record: whichever endpoint is
/// not the local node.
pub fn select_peer(own: &PublicKey, channel: &ChannelRecord) -> (peer: PublicKey)
    requires
        channel.wf(),
    ensures
        peer@ == peer_of(own@, *channel),
        peer.wf(),
{
    if channel.source.key_eq(own) {
        channel.destination.duplicate()
    } else {
        channel.source.duplicate()
    }
}

/// The cache-hit law behind repeated resolution: when the caches hold at
/// most what one resolution of a channel recorded (its peer under the
/// channel's key, and that peer's display name), an answer served from
/// the caches for that key is exactly the recorded display name.  With
/// `resolve_start`'s contract this pins what a second resolution within
/// the alias time-to-live returns.
pub proof fn lemma_cache_hit_returns_recorded_name(
    n: NodeNames,
    key: u64,
    peer: Seq<u8>,
    dn: Seq<char>,
    pkb: Seq<u8>,
    name: Seq<char>,
)
    requires
        forall|k: u64, v: Seq<u8>| #[trigger] n.channel_map().contains_pair(k, v) ==> k == key
            && v == peer,
        forall|k: Seq<u8>, v: Seq<char>| #[trigger] n.alias_map().contains_pair(k, v) ==> k
            == peer && v == dn,
        n.channel_map().contains_pair(key, pkb),
        n.alias_map().contains_pair(pkb, name),
    ensures
        pkb == peer,
        name == dn,
{
}

/// The selection law: when the local node is a record's destination (and
/// not its source), the peer is the source; when the local node is the
/// source, the peer is the destination.
pub proof fn lemma_peer_selection(own: Seq<u8>, ch: ChannelRecord)
    ensures
        ch.destination@ == own && ch.source@ != own ==> peer_of(own, ch) == ch.source@,
        ch.source@ == own ==> peer_of(own, ch) == ch.destination@,
{
}

} // verus!
