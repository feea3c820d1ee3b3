//! The chat node's floodsub state: which peers messages are propagated to,
//! which topics the node is subscribed to, and how mDNS discoveries and
//! expiries change the set of propagation targets.
use vstd::prelude::*;

use libp2p::floodsub::Floodsub;
use libp2p::floodsub::Topic;
use libp2p::PeerId;

verus! {

#[verifier::external_type_specification]
#[verifier::external_body]
pub struct ExFloodsub(Floodsub);

/// The peers, each by the byte form of its `PeerId` (`PeerId::to_bytes`), that a
/// `Floodsub` propagates messages to (its private `target_peers` set).
pub uninterp spec fn partial_view(f: Floodsub) -> Set<Seq<u8>>;

/// The ids of the topics that a `Floodsub` is subscribed to, in subscription order.
pub uninterp spec fn subscriptions(f: Floodsub) -> Seq<Seq<char>>;

/// The byte form of the local peer id that a `Floodsub` was created with.
pub uninterp spec fn local_peer(f: Floodsub) -> Seq<u8>;

/// The messages that a `Floodsub`'s queued events carry (in `NotifyHandler` RPCs
/// and `GenerateEvent(Message)` events), each as its data and its topic ids, in
/// queue order.
pub uninterp spec fn queued_messages(f: Floodsub) -> Seq<(Seq<u8>, Seq<Seq<char>>)>;

/// Whether `PeerId::from_bytes` accepts these bytes.
pub uninterp spec fn peer_id_bytes_valid(bytes: Seq<u8>) -> bool;

/// The bytes that `PeerId::to_bytes` gives for the id that `PeerId::from_bytes`
/// decodes from these bytes. They can differ from the input: a varint may run
/// to a tenth byte whose high bits are dropped, and re-encoding writes it minimally.
pub uninterp spec fn peer_id_canonical(bytes: Seq<u8>) -> Seq<u8>;

/// How many messages `Floodsub::publish` queues for one publication on the topic:
/// one for each connected peer that is a propagation target and is subscribed to
/// the topic, and one more as a local event when the floodsub's configuration
/// sets `subscribe_local_messages`.
pub uninterp spec fn publish_recipients(f: Floodsub, topic: Seq<char>) -> nat;

/// Calls `Floodsub::new` with the peer id that `PeerId::from_bytes` decodes from
/// `local`. `None` exactly when the bytes do not decode. A new floodsub has no
/// propagation targets, no subscriptions and no queued messages, and keeps the
/// local peer id, whose byte form is the re-encoding of `local`. That re-encoding
/// decodes again and re-encodes to itself.
#[verifier::external_body]
fn floodsub_new(local: &Vec<u8>) -> (res: Option<Floodsub>)
    ensures
        res is Some <==> peer_id_bytes_valid(local@),
        res matches Some(f) ==> {
            &&& partial_view(f) == Set::<Seq<u8>>::empty()
            &&& subscriptions(f) == Seq::<Seq<char>>::empty()
            &&& queued_messages(f) == Seq::<(Seq<u8>, Seq<Seq<char>>)>::empty()
            &&& local_peer(f) == peer_id_canonical(local@)
            &&& peer_id_bytes_valid(local_peer(f))
            &&& peer_id_canonical(local_peer(f)) == local_peer(f)
        },
{
    match PeerId::from_bytes(local) {
        Ok(id) => Some(Floodsub::new(id)),
        Err(_) => None,
    }
}

/// Calls `Floodsub::subscribe` with `Topic::new(name)`. The call returns `false`,
/// and changes nothing, when a topic with the same id is already subscribed;
/// otherwise it appends the topic and returns `true`. The subscription notices it
/// queues carry no messages. Propagation targets and the local peer id are left alone.
#[verifier::external_body]
fn floodsub_subscribe(f: &mut Floodsub, name: &str) -> (added: bool)
    ensures
        added == !subscriptions(*old(f)).contains(name@),
        added ==> subscriptions(*final(f)) == subscriptions(*old(f)).push(name@),
        !added ==> subscriptions(*final(f)) == subscriptions(*old(f)),
        partial_view(*final(f)) == partial_view(*old(f)),
        local_peer(*final(f)) == local_peer(*old(f)),
        queued_messages(*final(f)) == queued_messages(*old(f)),
{
    f.subscribe(Topic::new(name))
}

/// Calls `Floodsub::publish` with `Topic::new(topic)` and the bytes of `data`.
/// When the floodsub is not subscribed to the topic the call changes nothing.
/// Otherwise it queues the message, with a random sequence number, once for each
/// of its `publish_recipients`; the random sequence number is not stated. Every
/// message it queues carries `data`'s bytes on the one topic, and the messages
/// queued before stay in place. The call leaves the propagation targets, the
/// subscriptions and the local peer id unchanged.
#[verifier::external_body]
fn floodsub_publish(f: &mut Floodsub, topic: &str, data: &str)
    ensures
        partial_view(*final(f)) == partial_view(*old(f)),
        subscriptions(*final(f)) == subscriptions(*old(f)),
        local_peer(*final(f)) == local_peer(*old(f)),
        published_on(queued_messages(*old(f)), queued_messages(*final(f)), topic@, vstd::utf8::encode_utf8(data@)),
        subscriptions(*old(f)).contains(topic@) ==> queued_messages(*final(f)).len()
            == queued_messages(*old(f)).len() + publish_recipients(*old(f), topic@),
        !subscriptions(*old(f)).contains(topic@) ==> queued_messages(*final(f)) == queued_messages(*old(f)),
{
    f.publish(Topic::new(topic), data.as_bytes())
}

/// Calls `Floodsub::add_node_to_partial_view` with the peer id that
/// `PeerId::from_bytes` decodes from `peer`; returns whether the bytes decoded.
/// The target set gains that id, whose byte form is the re-encoding of `peer`;
/// the re-encoding decodes again and re-encodes to itself. The dial and the
/// subscription notices the call may queue carry no messages.
#[verifier::external_body]
fn floodsub_add_peer(f: &mut Floodsub, peer: &Vec<u8>) -> (added: bool)
    ensures
        added == peer_id_bytes_valid(peer@),
        added ==> partial_view(*final(f)) == partial_view(*old(f)).insert(peer_id_canonical(peer@)),
        added ==> peer_id_bytes_valid(peer_id_canonical(peer@)),
        added ==> peer_id_canonical(peer_id_canonical(peer@)) == peer_id_canonical(peer@),
        !added ==> partial_view(*final(f)) == partial_view(*old(f)),
        subscriptions(*final(f)) == subscriptions(*old(f)),
        local_peer(*final(f)) == local_peer(*old(f)),
        queued_messages(*final(f)) == queued_messages(*old(f)),
{
    match PeerId::from_bytes(peer) {
        Ok(id) => {
            f.add_node_to_partial_view(id);
            true
        },
        Err(_) => false,
    }
}

/// Calls `Floodsub::remove_node_from_partial_view` with the peer id that
/// `PeerId::from_bytes` decodes from `peer`, whose byte form is the re-encoding of
/// `peer`; when the bytes do not decode nothing is called and nothing changes.
#[verifier::external_body]
fn floodsub_remove_peer(f: &mut Floodsub, peer: &Vec<u8>)
    ensures
        peer_id_bytes_valid(peer@) ==> partial_view(*final(f)) == partial_view(*old(f)).remove(
            peer_id_canonical(peer@),
        ),
        !peer_id_bytes_valid(peer@) ==> partial_view(*final(f)) == partial_view(*old(f)),
        subscriptions(*final(f)) == subscriptions(*old(f)),
        local_peer(*final(f)) == local_peer(*old(f)),
        queued_messages(*final(f)) == queued_messages(*old(f)),
{
    if let Ok(id) = PeerId::from_bytes(peer) {
        f.remove_node_from_partial_view(&id);
    }
}

/// A peer whose mDNS record expired, with whether mDNS still knows the peer
/// through another record (`Mdns::has_node`) when the expiry is handled.
pub struct ExpiredPeer {
    pub peer: Vec<u8>,
    pub still_known: bool,
}

/// What an mDNS event reports, with each peer id in its byte form.
pub enum MdnsUpdate {
    Expired(Vec<ExpiredPeer>),
    Discovered(Vec<Vec<u8>>),
}

/// `after` is `before` followed by copies of one message: `data` on the topic `topic` alone.
pub open spec fn published_on(
    before: Seq<(Seq<u8>, Seq<Seq<char>>)>,
    after: Seq<(Seq<u8>, Seq<Seq<char>>)>,
    topic: Seq<char>,
    data: Seq<u8>,
) -> bool {
    &&& before.len() <= after.len()
    &&& after.subrange(0, before.len() as int) == before
    &&& forall|i: int| before.len() <= i < after.len() ==> #[trigger] after[i] == (data, seq![topic])
}

/// The peers, in re-encoded byte form, among the first `n` expired entries whose
/// bytes decode and that mDNS no longer knows.
pub open spec fn gone_peers(expired: Seq<ExpiredPeer>, n: int) -> Set<Seq<u8>> {
    Set::new(
        |p: Seq<u8>|
            exists|i: int|
                0 <= i < n && peer_id_bytes_valid(expired[i].peer@) && peer_id_canonical(expired[i].peer@) == p
                    && !expired[i].still_known,
    )
}

/// The peers, in re-encoded byte form, among the first `n` discovered entries
/// whose bytes decode.
pub open spec fn found_peers(discovered: Seq<Vec<u8>>, n: int) -> Set<Seq<u8>> {
    Set::new(
        |p: Seq<u8>|
            exists|i: int| 0 <= i < n && peer_id_bytes_valid(discovered[i]@) && peer_id_canonical(discovered[i]@) == p,
    )
}

/// How many peers an mDNS update reports.
pub open spec fn update_len(update: MdnsUpdate) -> nat {
    match update {
        MdnsUpdate::Expired(expired) => expired@.len(),
        MdnsUpdate::Discovered(discovered) => discovered@.len(),
    }
}

/// The propagation targets after an mDNS update: expired peers that mDNS no
/// longer knows leave, discovered peers join.
pub open spec fn targets_after(targets: Set<Seq<u8>>, update: MdnsUpdate) -> Set<Seq<u8>> {
    match update {
        MdnsUpdate::Expired(expired) => targets.difference(gone_peers(expired@, expired@.len() as int)),
        MdnsUpdate::Discovered(discovered) => targets.union(found_peers(discovered@, discovered@.len() as int)),
    }
}

/// Discovery adds exactly the discovered peers: after mDNS reports a list of
/// peers, the re-encoded form of every entry that decodes is a target, wherever it
/// stands in the list, and every target was a target before or is such an entry.
pub proof fn lemma_discovery_adds_every_peer(targets: Set<Seq<u8>>, discovered: Vec<Vec<u8>>)
    ensures
        targets.subset_of(targets_after(targets, MdnsUpdate::Discovered(discovered))),
        forall|i: int|
            0 <= i < discovered@.len() && peer_id_bytes_valid(#[trigger] discovered@[i]@) ==> targets_after(
                targets,
                MdnsUpdate::Discovered(discovered),
            ).contains(peer_id_canonical(discovered@[i]@)),
        forall|p: Seq<u8>|
            #[trigger] targets_after(targets, MdnsUpdate::Discovered(discovered)).contains(p) ==> targets.contains(p)
                || exists|i: int|
                0 <= i < discovered@.len() && peer_id_bytes_valid(discovered@[i]@) && peer_id_canonical(
                    discovered@[i]@,
                ) == p,
{
    assert forall|i: int|
        0 <= i < discovered@.len() && peer_id_bytes_valid(#[trigger] discovered@[i]@) implies targets_after(
            targets,
            MdnsUpdate::Discovered(discovered),
        ).contains(peer_id_canonical(discovered@[i]@)) by {
        assert(found_peers(discovered@, discovered@.len() as int).contains(peer_id_canonical(discovered@[i]@)));
    }
}

/// Expiry removes exactly the forgotten peers: after mDNS reports a list of expired
/// peers, the re-encoded form of every entry that decodes and that mDNS no longer
/// knows is not a target, wherever it stands in the list; every other target stays,
/// and nothing new becomes a target.
pub proof fn lemma_expiry_removes_every_forgotten_peer(targets: Set<Seq<u8>>, expired: Vec<ExpiredPeer>)
    ensures
        targets_after(targets, MdnsUpdate::Expired(expired)).subset_of(targets),
        forall|i: int|
            0 <= i < expired@.len() && peer_id_bytes_valid(#[trigger] expired@[i].peer@) && !expired@[i].still_known
                ==> !targets_after(targets, MdnsUpdate::Expired(expired)).contains(
                peer_id_canonical(expired@[i].peer@),
            ),
        forall|p: Seq<u8>|
            #[trigger] targets.contains(p) && (forall|i: int|
                0 <= i < expired@.len() && peer_id_bytes_valid(expired@[i].peer@) && !expired@[i].still_known
                    ==> peer_id_canonical(expired@[i].peer@) != p) ==> targets_after(
                targets,
                MdnsUpdate::Expired(expired),
            ).contains(p),
{
    assert forall|i: int|
        0 <= i < expired@.len() && peer_id_bytes_valid(#[trigger] expired@[i].peer@) && !expired@[i].still_known
            implies !targets_after(targets, MdnsUpdate::Expired(expired)).contains(
            peer_id_canonical(expired@[i].peer@),
        ) by {
        assert(gone_peers(expired@, expired@.len() as int).contains(peer_id_canonical(expired@[i].peer@)));
    }
}

/// Keeps the floodsub propagation targets in step with mDNS: every discovered peer
/// becomes a target, and an expired peer stops being one unless mDNS still knows it.
/// No message is queued, and an update that reports no peer changes nothing.
pub fn handle_mdns_event(floodsub: &mut Floodsub, event: &MdnsUpdate)
    ensures
        partial_view(*final(floodsub)) == targets_after(partial_view(*old(floodsub)), *event),
        subscriptions(*final(floodsub)) == subscriptions(*old(floodsub)),
        local_peer(*final(floodsub)) == local_peer(*old(floodsub)),
        queued_messages(*final(floodsub)) == queued_messages(*old(floodsub)),
        update_len(*event) == 0 ==> *final(floodsub) == *old(floodsub),
        *event matches MdnsUpdate::Discovered(discovered) ==> forall|i: int|
            0 <= i < discovered@.len() && peer_id_bytes_valid(#[trigger] discovered@[i]@)
                ==> partial_view(*final(floodsub)).contains(peer_id_canonical(discovered@[i]@)),
        *event matches MdnsUpdate::Expired(expired) ==> forall|i: int|
            0 <= i < expired@.len() && peer_id_bytes_valid(#[trigger] expired@[i].peer@) && !expired@[i].still_known
                ==> !partial_view(*final(floodsub)).contains(peer_id_canonical(expired@[i].peer@)),
{
    let ghost start = *floodsub;
    match event {
        MdnsUpdate::Expired(expired) => {
            let mut i: usize = 0;
            while i < expired.len()
                invariant
                    i <= expired@.len(),
                    partial_view(*floodsub) == partial_view(start).difference(gone_peers(expired@, i as int)),
                    subscriptions(*floodsub) == subscriptions(start),
                    local_peer(*floodsub) == local_peer(start),
                    queued_messages(*floodsub) == queued_messages(start),
                    i == 0 ==> *floodsub == start,
                decreases expired@.len() - i,
            {
                let entry = &expired[i];
                if !entry.still_known {
                    floodsub_remove_peer(floodsub, &entry.peer);
                }
                assert(partial_view(*floodsub) =~= partial_view(start).difference(gone_peers(expired@, i + 1)));
                i = i + 1;
            }
        },
        MdnsUpdate::Discovered(discovered) => {
            let mut i: usize = 0;
            while i < discovered.len()
                invariant
                    i <= discovered@.len(),
                    partial_view(*floodsub) == partial_view(start).union(found_peers(discovered@, i as int)),
                    subscriptions(*floodsub) == subscriptions(start),
                    local_peer(*floodsub) == local_peer(start),
                    queued_messages(*floodsub) == queued_messages(start),
                    i == 0 ==> *floodsub == start,
                decreases discovered@.len() - i,
            {
                floodsub_add_peer(floodsub, &discovered[i]);
                assert(partial_view(*floodsub) =~= partial_view(start).union(found_peers(discovered@, i + 1)));
                i = i + 1;
            }
        },
    }
    proof {
        match event {
            MdnsUpdate::Expired(expired) => {
                lemma_expiry_removes_every_forgotten_peer(partial_view(start), *expired);
            },
            MdnsUpdate::Discovered(discovered) => {
                lemma_discovery_adds_every_peer(partial_view(start), *discovered);
            },
        }
    }
}


/// The floodsub topic that chat messages travel on.
pub const CHAT_TOPIC: &'static str = "chat";

/// The floodsub side of a chat node: a floodsub for the local peer (given by the
/// byte form of its id) subscribed to the chat topic alone, with no propagation
/// targets and no queued messages yet. `None` exactly when the bytes are not a
/// peer id; the local peer is kept in re-encoded form.
pub fn new_chat_floodsub(local: &Vec<u8>) -> (res: Option<Floodsub>)
    ensures
        res is Some <==> peer_id_bytes_valid(local@),
        res matches Some(f) ==> {
            &&& subscriptions(f) == seq![CHAT_TOPIC@]
            &&& partial_view(f) == Set::<Seq<u8>>::empty()
            &&& queued_messages(f) == Seq::<(Seq<u8>, Seq<Seq<char>>)>::empty()
            &&& local_peer(f) == peer_id_canonical(local@)
        },
{
    match floodsub_new(local) {
        Some(mut floodsub) => {
            floodsub_subscribe(&mut floodsub, CHAT_TOPIC);
            assert(subscriptions(floodsub) =~= seq![CHAT_TOPIC@]);
            Some(floodsub)
        },
        None => None,
    }
}

/// Publishes a line that the user typed on the chat topic: when the node is
/// subscribed to it, one copy of the line's bytes on the chat topic is queued for
/// each of the topic's recipients; otherwise nothing is queued.
pub fn publish_line(floodsub: &mut Floodsub, line: &str)
    ensures
        subscriptions(*old(floodsub)).contains(CHAT_TOPIC@) ==> queued_messages(*final(floodsub)).len()
            == queued_messages(*old(floodsub)).len() + publish_recipients(*old(floodsub), CHAT_TOPIC@),
        published_on(queued_messages(*old(floodsub)), queued_messages(*final(floodsub)), CHAT_TOPIC@, vstd::utf8::encode_utf8(line@)),
        !subscriptions(*old(floodsub)).contains(CHAT_TOPIC@)
            ==> queued_messages(*final(floodsub)) == queued_messages(*old(floodsub)),
        partial_view(*final(floodsub)) == partial_view(*old(floodsub)),
        subscriptions(*final(floodsub)) == subscriptions(*old(floodsub)),
        local_peer(*final(floodsub)) == local_peer(*old(floodsub)),
{
    floodsub_publish(floodsub, CHAT_TOPIC, line);
}


/// Expiry undoes discovery: peers that mDNS discovers and later reports expired,
/// no longer knowing them, leave the propagation targets as they were, when none
/// of those peers was a target before.
pub proof fn lemma_expiry_undoes_discovery(
    targets: Set<Seq<u8>>,
    discovered: Vec<Vec<u8>>,
    expired: Vec<ExpiredPeer>,
)
    requires
        found_peers(discovered@, discovered@.len() as int).subset_of(
            gone_peers(expired@, expired@.len() as int),
        ),
        gone_peers(expired@, expired@.len() as int).disjoint(targets),
    ensures
        targets_after(
            targets_after(targets, MdnsUpdate::Discovered(discovered)),
            MdnsUpdate::Expired(expired),
        ) == targets,
{
    let found = found_peers(discovered@, discovered@.len() as int);
    let gone = gone_peers(expired@, expired@.len() as int);
    assert(targets.union(found).difference(gone) =~= targets);
}


/// Handling an mDNS update twice leaves the same propagation targets as handling
/// it once, so a peer reported again (for instance through another address)
/// changes nothing more.
pub proof fn lemma_update_idempotent(targets: Set<Seq<u8>>, update: MdnsUpdate)
    ensures
        targets_after(targets_after(targets, update), update) == targets_after(targets, update),
{
    match update {
        MdnsUpdate::Expired(expired) => {
            let gone = gone_peers(expired@, expired@.len() as int);
            assert(targets.difference(gone).difference(gone) =~= targets.difference(gone));
        },
        MdnsUpdate::Discovered(discovered) => {
            let found = found_peers(discovered@, discovered@.len() as int);
            assert(targets.union(found).union(found) =~= targets.union(found));
        },
    }
}

} // verus!
