//! Route hints: the channels over which the node can be reached.
use std::collections::VecDeque;

use vstd::prelude::*;
use vstd::slice::*;

use crate::error;
use crate::error::{ClnExtensionError, RpcError, Status};
use crate::messages::{GetRouteHintsResponse, RouteHint, RouteHintHop};
use crate::node::{Channel, ChannelState, NodeId, Peer, PeerChannel, Response};
use crate::scid;
use crate::scid::ShortChannelId;
use crate::service::ClnRpcService;

verus! {

/// The contents of a [`RouteHintHop`].
#[verifier::ext_equal]
pub struct RouteHintHopView {
    pub src_node_id: Seq<u8>,
    pub short_channel_id: u64,
    pub base_msat: u32,
    pub proportional_millionths: u32,
    pub cltv_expiry_delta: u32,
    pub htlc_minimum_msat: Option<u64>,
    pub htlc_maximum_msat: Option<u64>,
}

impl View for RouteHintHop {
    type V = RouteHintHopView;

    open spec fn view(&self) -> RouteHintHopView {
        RouteHintHopView {
            src_node_id: self.src_node_id@,
            short_channel_id: self.short_channel_id,
            base_msat: self.base_msat,
            proportional_millionths: self.proportional_millionths,
            cltv_expiry_delta: self.cltv_expiry_delta,
            htlc_minimum_msat: self.htlc_minimum_msat,
            htlc_maximum_msat: self.htlc_maximum_msat,
        }
    }
}

impl View for RouteHint {
    type V = Seq<RouteHintHopView>;

    open spec fn view(&self) -> Seq<RouteHintHopView> {
        self.hops@.map_values(|hop: RouteHintHop| hop@)
    }
}

/// The contents of a list of route hints.
pub open spec fn hints_view(hints: Seq<RouteHint>) -> Seq<Seq<RouteHintHopView>> {
    hints.map_values(|hint: RouteHint| hint@)
}

/// Whether a channel is open for payments and has its place on the chain.
pub open spec fn is_active(channel: PeerChannel) -> bool {
    channel.state == ChannelState::ChanneldNormal && channel.short_channel_id is Some
}

/// The channels of one peer that are active, in order.
pub open spec fn active_with(id: NodeId, channels: Seq<PeerChannel>) -> Seq<
    (NodeId, ShortChannelId),
>
    decreases channels.len(),
{
    if channels.len() == 0 {
        Seq::empty()
    } else {
        let front = active_with(id, channels.drop_last());
        if is_active(channels.last()) {
            front.push((id, channels.last().short_channel_id.unwrap()))
        } else {
            front
        }
    }
}

/// The active channels of all peers, peer by peer.
pub open spec fn active(peers: Seq<Peer>) -> Seq<(NodeId, ShortChannelId)>
    decreases peers.len(),
{
    if peers.len() == 0 {
        Seq::empty()
    } else {
        active(peers.drop_last()) + active_with(peers.last().id, peers.last().channels@)
    }
}

/// The first direction of a channel that leads to a node.
pub open spec fn leading_to(channels: Seq<Channel>, node_id: NodeId) -> Option<Channel>
    decreases channels.len(),
{
    if channels.len() == 0 {
        None
    } else if channels[0].destination@ == node_id@ {
        Some(channels[0])
    } else {
        leading_to(channels.drop_first(), node_id)
    }
}

/// The route hint over a channel from a peer, with the terms of the direction that leads to
/// this node.
pub open spec fn hint_over(peer_id: NodeId, id: ShortChannelId, channel: Channel) -> Seq<
    RouteHintHopView,
> {
    seq![
        RouteHintHopView {
            src_node_id: peer_id@,
            short_channel_id: scid::overlay(id.block as u64, id.txindex as u64, id.outnum as u64),
            base_msat: channel.base_fee_millisatoshi,
            proportional_millionths: channel.fee_per_millionth,
            cltv_expiry_delta: channel.delay,
            htlc_minimum_msat: Some(channel.htlc_minimum_msat),
            htlc_maximum_msat: channel.htlc_maximum_msat,
        },
    ]
}

/// The route hints that the answer about one channel adds: one, or none where the network
/// does not know the channel.
pub open spec fn hints_from(
    node_id: NodeId,
    channel: (NodeId, ShortChannelId),
    answer: Seq<Channel>,
) -> Seq<Seq<RouteHintHopView>> {
    match leading_to(answer, node_id) {
        Some(direction) => seq![hint_over(channel.0, channel.1, direction)],
        None => Seq::empty(),
    }
}

/// Finds the active channels of all peers.
pub fn active_peer_channels(peers: &Vec<Peer>) -> (r: VecDeque<(NodeId, ShortChannelId)>)
    ensures
        r@ == active(peers@),
{
    let mut found: VecDeque<(NodeId, ShortChannelId)> = VecDeque::new();
    let mut i: usize = 0;
    assert(peers@.take(0) =~= Seq::empty());
    while i < peers.len()
        invariant
            i <= peers.len(),
            found@ == active(peers@.take(i as int)),
        decreases peers.len() - i,
    {
        let peer = &peers[i];
        let ghost before = found@;
        let mut k: usize = 0;
        assert(peer.channels@.take(0) =~= Seq::empty());
        assert(before + active_with(peer.id, peer.channels@.take(0)) =~= before);
        while k < peer.channels.len()
            invariant
                k <= peer.channels.len(),
                found@ == before + active_with(peer.id, peer.channels@.take(k as int)),
            decreases peer.channels.len() - k,
        {
            let chan = peer.channels[k];
            let ghost seen = peer.channels@.take(k + 1);
            assert(seen.drop_last() =~= peer.channels@.take(k as int));
            assert(seen.last() == chan);
            if chan.state == ChannelState::ChanneldNormal {
                if let Some(scid) = chan.short_channel_id {
                    found.push_back((peer.id, scid));
                }
            }
            assert(found@ =~= before + active_with(peer.id, seen));
            k = k + 1;
        }
        assert(peer.channels@.take(k as int) =~= peer.channels@);
        assert(peers@.take(i + 1).drop_last() =~= peers@.take(i as int));
        assert(peers@.take(i + 1).last() == peer);
        i = i + 1;
    }
    assert(peers@.take(i as int) =~= peers@);
    found
}

/// Finds the first direction of a channel that leads to a node.
fn find_leading_to(channels: &Vec<Channel>, node_id: &NodeId) -> (r: Option<Channel>)
    ensures
        r == leading_to(channels@, *node_id),
        r is None ==> forall|k: int|
            0 <= k < channels@.len() ==> (#[trigger] channels@[k]).destination.0@ != node_id.0@,
        r matches Some(channel) ==> exists|k: int|
            0 <= k < channels@.len() && #[trigger] channels@[k] == channel
                && channel.destination.0@ == node_id.0@ && forall|j: int|
                0 <= j < k ==> (#[trigger] channels@[j]).destination.0@ != node_id.0@,
{
    let mut i: usize = 0;
    assert(channels@.skip(0) =~= channels@);
    while i < channels.len()
        invariant
            i <= channels.len(),
            leading_to(channels@, *node_id) == leading_to(channels@.skip(i as int), *node_id),
            forall|j: int|
                0 <= j < i ==> (#[trigger] channels@[j]).destination.0@ != node_id.0@,
        decreases channels.len() - i,
    {
        let ghost rest = channels@.skip(i as int);
        assert(rest[0] == channels@[i as int]);
        assert(rest.drop_first() =~= channels@.skip(i + 1));
        if channels[i].destination.same(node_id) {
            return Some(channels[i]);
        }
        i = i + 1;
    }
    None
}

/// What a search for route hints asks the node.
#[derive(Clone, Copy, Debug, PartialEq, Eq, Structural)]
pub enum Query {
    /// For its peers.
    ListPeers,
    /// For the directions of a channel.
    ListChannels { short_channel_id: ShortChannelId },
}

/// A search for route hints: the node is asked for its peers, and then about one active channel
/// after the other.
pub struct RouteHintSearch {
    /// This node.
    pub node_id: NodeId,
    /// The channels that the node was not asked about yet; none before it told its peers.
    pub pending: Option<VecDeque<(NodeId, ShortChannelId)>>,
    /// The route hints so far.
    pub route_hints: Vec<RouteHint>,
}

/// The contents of a [`RouteHintSearch`].
#[verifier::ext_equal]
pub struct SearchState {
    pub node_id: NodeId,
    pub pending: Option<Seq<(NodeId, ShortChannelId)>>,
    pub route_hints: Seq<Seq<RouteHintHopView>>,
}

impl View for RouteHintSearch {
    type V = SearchState;

    open spec fn view(&self) -> SearchState {
        SearchState {
            node_id: self.node_id,
            pending: match self.pending {
                Some(channels) => Some(channels@),
                None => None,
            },
            route_hints: hints_view(self.route_hints@),
        }
    }
}

impl SearchState {
    /// A search that has not asked anything yet.
    pub open spec fn start(node_id: NodeId) -> Self {
        SearchState { node_id, pending: None, route_hints: Seq::empty() }
    }

    /// What the node is asked next; nothing when the search is over.
    pub open spec fn query(self) -> Option<Query> {
        match self.pending {
            None => Some(Query::ListPeers),
            Some(channels) => if channels.len() > 0 {
                Some(Query::ListChannels { short_channel_id: channels[0].1 })
            } else {
                None
            },
        }
    }

    /// After the node told its peers.
    pub open spec fn listed(self, peers: Seq<Peer>) -> Self {
        SearchState { pending: Some(active(peers)), ..self }
    }

    /// After the answer about the channel that is next.
    pub open spec fn answered(self, answer: Seq<Channel>) -> Self {
        let channels = self.pending.unwrap();
        SearchState {
            node_id: self.node_id,
            pending: Some(channels.drop_first()),
            route_hints: self.route_hints + hints_from(self.node_id, channels[0], answer),
        }
    }

    /// After an answer of the node; none where it answers something else than it was asked.
    pub open spec fn after(self, response: Response) -> Option<Self> {
        match (self.query(), response) {
            (Some(Query::ListPeers), Response::ListPeers(peers)) => Some(self.listed(peers@)),
            (Some(Query::ListChannels { .. }), Response::ListChannels(channels)) => Some(
                self.answered(channels@),
            ),
            _ => None,
        }
    }

    /// After the answers about as many channels.
    pub open spec fn run(self, answers: Seq<Seq<Channel>>) -> Self
        decreases answers.len(),
    {
        if answers.len() == 0 {
            self
        } else {
            self.run(answers.drop_last()).answered(answers.last())
        }
    }
}

impl ClnRpcService {
    /// Starts the search for route hints to the node, given its identity or why that is not known.
    pub fn get_route_hints(node_info: Result<(NodeId, String), ClnExtensionError>) -> (r: Result<
        RouteHintSearch,
        Status,
    >)
        ensures
            match node_info {
                Ok((node_id, _)) => {
                    &&& r matches Ok(search)
                    &&& search@ == SearchState::start(node_id)
                    &&& search.node_id == node_id
                    &&& search.pending is None
                    &&& search.route_hints@.len() == 0
                },
                Err(err) => r matches Err(status) && status.is_internal(err.display()),
            },
    {
        match node_info {
            Ok((node_id, _)) => {
                let search = RouteHintSearch { node_id, pending: None, route_hints: Vec::new() };
                assert(search@ =~= SearchState::start(node_id));
                Ok(search)
            },
            Err(err) => Err(Status::of_extension_error(&err)),
        }
    }
}

impl RouteHintSearch {
    /// What the node is to be asked next; nothing when the search is over.
    pub fn query(&self) -> (r: Option<Query>)
        ensures
            r == self@.query(),
            match self.pending {
                None => r == Some(Query::ListPeers),
                Some(channels) => if channels@.len() == 0 {
                    r is None
                } else {
                    r == Some(Query::ListChannels { short_channel_id: channels@[0].1 })
                },
            },
    {
        match &self.pending {
            None => Some(Query::ListPeers),
            Some(channels) => if channels.len() > 0 {
                Some(Query::ListChannels { short_channel_id: channels[0].1 })
            } else {
                None
            },
        }
    }

    /// Goes on with what the node answered to the query, or why it could not be asked. An error
    /// ends the search.
    pub fn answer(&mut self, reply: Result<Result<Response, RpcError>, ClnExtensionError>) -> (r:
        Result<(), Status>)
        requires
            old(self)@.query() is Some,
        ensures
            match reply {
                Ok(Ok(response)) => match old(self)@.after(response) {
                    Some(next) => {
                        &&& r is Ok
                        &&& final(self)@ == next
                    },
                    None => {
                        &&& r matches Err(status)
                        &&& status.is_internal(error::wrong_response())
                        &&& final(self)@ == old(self)@
                    },
                },
                Ok(Err(err)) => {
                    &&& r matches Err(status)
                    &&& status.is_internal(error::rpc_error_display(err.code, err.message@))
                    &&& final(self)@ == old(self)@
                },
                Err(err) => {
                    &&& r matches Err(status)
                    &&& status.is_internal(err.display())
                    &&& final(self)@ == old(self)@
                },
            },
    {
        let response = match reply {
            Ok(Ok(response)) => response,
            Ok(Err(err)) => return Err(Status::of_rpc_error(&err)),
            Err(err) => return Err(Status::of_extension_error(&err)),
        };
        match (self.query(), response) {
            (Some(Query::ListPeers), Response::ListPeers(peers)) => {
                self.pending = Some(active_peer_channels(&peers));
                Ok(())
            },
            (Some(Query::ListChannels { .. }), Response::ListChannels(channels)) => {
                self.channel_found(&channels);
                Ok(())
            },
            _ => Err(Status::of_extension_error(&ClnExtensionError::RpcWrongResponse)),
        }
    }

    /// Goes on with the directions of the channel that is next.
    fn channel_found(&mut self, channels: &Vec<Channel>)
        requires
            old(self)@.query() matches Some(Query::ListChannels { .. }),
        ensures
            final(self)@ == old(self)@.answered(channels@),
    {
        let ghost before = self@;
        let next = match self.pending.as_mut() {
            Some(pending) => pending.pop_front(),
            None => None,
        };
        if let Some((peer_id, id)) = next {
            assert(self@.pending.unwrap() =~= before.pending.unwrap().drop_first());
            if let Some(channel) = find_leading_to(channels, &self.node_id) {
                let hop = RouteHintHop {
                    src_node_id: slice_to_vec(peer_id.0.as_slice()),
                    short_channel_id: scid::scid_to_u64(id),
                    base_msat: channel.base_fee_millisatoshi,
                    proportional_millionths: channel.fee_per_millionth,
                    cltv_expiry_delta: channel.delay,
                    htlc_minimum_msat: Some(channel.htlc_minimum_msat),
                    htlc_maximum_msat: channel.htlc_maximum_msat,
                };
                let mut hops: Vec<RouteHintHop> = Vec::new();
                hops.push(hop);
                let hint = RouteHint { hops };
                assert(hint@ =~= hint_over(peer_id, id, channel));
                self.route_hints.push(hint);
            }
            assert(self@.route_hints =~= before.answered(channels@).route_hints);
        }
    }

    /// The route hints that were found.
    pub fn finish(self) -> (r: GetRouteHintsResponse)
        ensures
            hints_view(r.route_hints@) == self@.route_hints,
            r.route_hints == self.route_hints,
    {
        GetRouteHintsResponse { route_hints: self.route_hints }
    }
}

/// The route hints over all channels, given the answer about each.
pub open spec fn hints_over_all(
    node_id: NodeId,
    channels: Seq<(NodeId, ShortChannelId)>,
    answers: Seq<Seq<Channel>>,
) -> Seq<Seq<RouteHintHopView>>
    decreases answers.len(),
{
    if answers.len() == 0 {
        Seq::empty()
    } else {
        hints_over_all(node_id, channels, answers.drop_last()) + hints_from(
            node_id,
            channels[answers.len() - 1],
            answers.last(),
        )
    }
}

/// A search asks for the peers and then, as long as it gets answers, about each of their active
/// channels once, in order. Its route hints are those that the answers give, in the same order.
pub proof fn law_search_visits_every_channel(
    node_id: NodeId,
    peers: Seq<Peer>,
    answers: Seq<Seq<Channel>>,
)
    requires
        answers.len() <= active(peers).len(),
    ensures
        SearchState::start(node_id).query() == Some(Query::ListPeers),
        SearchState::start(node_id).listed(peers).run(answers) == (SearchState {
            node_id,
            pending: Some(active(peers).skip(answers.len() as int)),
            route_hints: hints_over_all(node_id, active(peers), answers),
        }),
        SearchState::start(node_id).listed(peers).run(answers).query() == (if answers.len()
            < active(peers).len() {
            Some(Query::ListChannels { short_channel_id: active(peers)[answers.len() as int].1 })
        } else {
            None
        }),
    decreases answers.len(),
{
    let channels = active(peers);
    if answers.len() == 0 {
        assert(channels.skip(0) =~= channels);
    } else {
        law_search_visits_every_channel(node_id, peers, answers.drop_last());
        assert(channels.skip(answers.len() - 1).drop_first() =~= channels.skip(
            answers.len() as int,
        ));
    }
}

/// A channel gives at most one route hint.
pub proof fn law_at_most_one_hint_per_channel(
    node_id: NodeId,
    channels: Seq<(NodeId, ShortChannelId)>,
    answers: Seq<Seq<Channel>>,
)
    requires
        answers.len() <= channels.len(),
    ensures
        hints_over_all(node_id, channels, answers).len() <= answers.len(),
    decreases answers.len(),
{
    if answers.len() > 0 {
        law_at_most_one_hint_per_channel(node_id, channels, answers.drop_last());
    }
}

/// Whether a route hint leads over the channel at a position, with the terms of a direction that
/// was answered about it and leads to the node.
pub open spec fn leads_over(
    node_id: NodeId,
    channels: Seq<(NodeId, ShortChannelId)>,
    answers: Seq<Seq<Channel>>,
    hint: Seq<RouteHintHopView>,
    i: int,
    k: int,
) -> bool {
    &&& 0 <= i < answers.len()
    &&& 0 <= k < answers[i].len()
    &&& answers[i][k].destination@ == node_id@
    &&& hint == hint_over(channels[i].0, channels[i].1, answers[i][k])
}

/// Every route hint leads over one of the channels, with the terms of a direction that leads
/// to the node.
pub proof fn law_hints_lead_to_the_node(
    node_id: NodeId,
    channels: Seq<(NodeId, ShortChannelId)>,
    answers: Seq<Seq<Channel>>,
    h: int,
)
    requires
        answers.len() <= channels.len(),
        0 <= h < hints_over_all(node_id, channels, answers).len(),
    ensures
        exists|i: int, k: int|
            leads_over(
                node_id,
                channels,
                answers,
                hints_over_all(node_id, channels, answers)[h],
                i,
                k,
            ),
    decreases answers.len(),
{
    let hint = hints_over_all(node_id, channels, answers)[h];
    let earlier = answers.drop_last();
    if h < hints_over_all(node_id, channels, earlier).len() {
        law_hints_lead_to_the_node(node_id, channels, earlier, h);
        let (i, k) = choose|i: int, k: int| leads_over(node_id, channels, earlier, hint, i, k);
        assert(answers[i] == earlier[i]);
        assert(leads_over(node_id, channels, answers, hint, i, k));
    } else {
        let last = answers.len() - 1;
        lemma_leading_to(answers.last(), node_id);
        let k = choose|k: int| is_leading(answers.last(), node_id, k);
        assert(answers[last] == answers.last());
        assert(leads_over(node_id, channels, answers, hint, last, k));
    }
}

/// Whether the direction that was found is the one at a position, and leads to the node.
spec fn is_leading(channels: Seq<Channel>, node_id: NodeId, k: int) -> bool {
    &&& 0 <= k < channels.len()
    &&& channels[k].destination@ == node_id@
    &&& leading_to(channels, node_id) == Some(channels[k])
}

/// A direction that was found is one of the answer's, and leads to the node.
proof fn lemma_leading_to(channels: Seq<Channel>, node_id: NodeId)
    ensures
        leading_to(channels, node_id) is Some ==> exists|k: int|
            is_leading(channels, node_id, k),
    decreases channels.len(),
{
    if channels.len() > 0 {
        if channels[0].destination@ == node_id@ {
            assert(is_leading(channels, node_id, 0));
        } else {
            let rest = channels.drop_first();
            lemma_leading_to(rest, node_id);
            if leading_to(rest, node_id) is Some {
                let k = choose|k: int| is_leading(rest, node_id, k);
                assert(is_leading(channels, node_id, k + 1));
            }
        }
    }
}

/// Whether the channel at a position is open for payments and has its place on the chain.
pub open spec fn active_at(channels: Seq<PeerChannel>, id: ShortChannelId, c: int) -> bool {
    &&& 0 <= c < channels.len()
    &&& channels[c].state == ChannelState::ChanneldNormal
    &&& channels[c].short_channel_id == Some(id)
}

/// Whether the peer at a position is the given one, and its channel at a position is active.
pub open spec fn peer_active_at(
    peers: Seq<Peer>,
    peer_id: NodeId,
    id: ShortChannelId,
    p: int,
    c: int,
) -> bool {
    &&& 0 <= p < peers.len()
    &&& peers[p].id == peer_id
    &&& active_at(peers[p].channels@, id, c)
}

/// A channel is found exactly where a peer has it, open for payments and with its place on
/// the chain.
pub proof fn law_active_channels(peers: Seq<Peer>, peer_id: NodeId, id: ShortChannelId)
    ensures
        active(peers).contains((peer_id, id)) <==> exists|p: int, c: int|
            peer_active_at(peers, peer_id, id, p, c),
    decreases peers.len(),
{
    if peers.len() > 0 {
        let front = peers.drop_last();
        let last = peers.last();
        let from_last = active_with(last.id, last.channels@);
        law_active_channels(front, peer_id, id);
        lemma_active_with(last.id, last.channels@, peer_id, id);
        lemma_contains_concat(active(front), from_last, (peer_id, id));
        if active(front).contains((peer_id, id)) {
            let (p, c) = choose|p: int, c: int| peer_active_at(front, peer_id, id, p, c);
            assert(peer_active_at(peers, peer_id, id, p, c));
        }
        if from_last.contains((peer_id, id)) {
            let c = choose|c: int| active_at(last.channels@, id, c);
            assert(peer_active_at(peers, peer_id, id, peers.len() - 1, c));
        }
        if exists|p: int, c: int| peer_active_at(peers, peer_id, id, p, c) {
            let (p, c) = choose|p: int, c: int| peer_active_at(peers, peer_id, id, p, c);
            if p < front.len() {
                assert(peer_active_at(front, peer_id, id, p, c));
            } else {
                assert(active_at(last.channels@, id, c));
            }
        }
    }
}

/// What two sequences contain together.
proof fn lemma_contains_concat<T>(a: Seq<T>, b: Seq<T>, x: T)
    ensures
        (a + b).contains(x) <==> a.contains(x) || b.contains(x),
{
    let all = a + b;
    if a.contains(x) {
        let i = a.index_of(x);
        assert(all[i] == x);
    }
    if b.contains(x) {
        let i = b.index_of(x);
        assert(all[a.len() + i] == x);
    }
    if all.contains(x) {
        let i = all.index_of(x);
        if i < a.len() {
            assert(a[i] == x);
        } else {
            assert(b[i - a.len()] == x);
        }
    }
}

/// What is found with one peer.
proof fn lemma_active_with(
    peer: NodeId,
    channels: Seq<PeerChannel>,
    peer_id: NodeId,
    id: ShortChannelId,
)
    ensures
        active_with(peer, channels).contains((peer_id, id)) <==> peer == peer_id && exists|c: int|
            active_at(channels, id, c),
    decreases channels.len(),
{
    if channels.len() > 0 {
        let front = channels.drop_last();
        let found = active_with(peer, channels);
        let before = active_with(peer, front);
        let last = channels.len() - 1;
        lemma_active_with(peer, front, peer_id, id);
        if found.contains((peer_id, id)) {
            let i = found.index_of((peer_id, id));
            if i < before.len() {
                assert(before[i] == (peer_id, id));
                let c = choose|c: int| active_at(front, id, c);
                assert(active_at(channels, id, c));
            } else {
                assert(active_at(channels, id, last));
            }
        }
        if peer == peer_id && exists|c: int| active_at(channels, id, c) {
            let c = choose|c: int| active_at(channels, id, c);
            if c < last {
                assert(active_at(front, id, c));
                let i = before.index_of((peer_id, id));
                assert(found[i] == (peer_id, id));
            } else {
                assert(found[found.len() - 1] == (peer_id, id));
            }
        }
    }
}

/// The direction that is used is the first that leads to the node, whatever its terms are. There is
/// none only where no direction leads to the node.
pub proof fn law_first_direction_is_used(channels: Seq<Channel>, node_id: NodeId, k: int)
    ensures
        leading_to(channels, node_id) is None <==> forall|j: int|
            0 <= j < channels.len() ==> (#[trigger] channels[j]).destination.0@ != node_id.0@,
        0 <= k < channels.len() && channels[k].destination.0@ == node_id.0@ && (forall|j: int|
            0 <= j < k ==> (#[trigger] channels[j]).destination.0@ != node_id.0@)
            ==> leading_to(channels, node_id) == Some(channels[k]),
    decreases channels.len(),
{
    if channels.len() > 0 {
        let rest = channels.drop_first();
        law_first_direction_is_used(rest, node_id, k - 1);
        assert(forall|j: int| 0 <= j < rest.len() ==> #[trigger] rest[j] == channels[j + 1]);
        assert(forall|j: int| 1 <= j < channels.len() ==> #[trigger] channels[j] == rest[j - 1]);
        assert(channels[0].destination@ == channels[0].destination.0@);
    }
}

/// A route hint is one hop: from the peer, by its key byte for byte, over the channel, on the terms
/// of the direction.
pub proof fn law_hint_has_the_terms_of_the_direction(
    hint: RouteHint,
    peer_id: NodeId,
    id: ShortChannelId,
    channel: Channel,
)
    requires
        hint@ == hint_over(peer_id, id, channel),
    ensures
        hint.hops@.len() == 1,
        hint.hops@[0].src_node_id@.len() == 33,
        forall|i: int|
            0 <= i < 33 ==> #[trigger] hint.hops@[0].src_node_id@[i] == peer_id.0[i],
        hint.hops@[0].short_channel_id == ((id.block as u64) << 40) | ((id.txindex as u64) << 16)
            | (id.outnum as u64),
        hint.hops@[0].base_msat == channel.base_fee_millisatoshi,
        hint.hops@[0].proportional_millionths == channel.fee_per_millionth,
        hint.hops@[0].cltv_expiry_delta == channel.delay,
        hint.hops@[0].htlc_minimum_msat == Some(channel.htlc_minimum_msat),
        hint.hops@[0].htlc_maximum_msat == channel.htlc_maximum_msat,
{
    assert(hint@.len() == hint.hops@.len());
    assert(hint@[0] == hint.hops@[0]@);
}

/// Route hints with the same contents agree hop by hop, in every field.
pub proof fn law_contents_of_hints(a: Seq<RouteHint>, b: Seq<RouteHint>, h: int, k: int)
    requires
        hints_view(a) == hints_view(b),
        0 <= h < a.len(),
        0 <= k < a[h].hops@.len(),
    ensures
        a.len() == b.len(),
        a[h].hops@.len() == b[h].hops@.len(),
        a[h].hops@[k].src_node_id@ == b[h].hops@[k].src_node_id@,
        a[h].hops@[k].short_channel_id == b[h].hops@[k].short_channel_id,
        a[h].hops@[k].base_msat == b[h].hops@[k].base_msat,
        a[h].hops@[k].proportional_millionths == b[h].hops@[k].proportional_millionths,
        a[h].hops@[k].cltv_expiry_delta == b[h].hops@[k].cltv_expiry_delta,
        a[h].hops@[k].htlc_minimum_msat == b[h].hops@[k].htlc_minimum_msat,
        a[h].hops@[k].htlc_maximum_msat == b[h].hops@[k].htlc_maximum_msat,
{
    assert(hints_view(a).len() == a.len() && hints_view(b).len() == b.len());
    assert(hints_view(a)[h] == a[h]@ && hints_view(b)[h] == b[h]@);
    assert(a[h]@.len() == a[h].hops@.len() && b[h]@.len() == b[h].hops@.len());
    assert(a[h]@[k] == a[h].hops@[k]@ && b[h]@[k] == b[h].hops@[k]@);
}

/// The contents of a search are its fields, and it starts with nothing known but the node.
pub proof fn law_contents_of_a_search(search: RouteHintSearch, node_id: NodeId)
    ensures
        search@.node_id == search.node_id,
        search.pending is None <==> search@.pending is None,
        search.pending matches Some(channels) ==> search@.pending == Some(channels@),
        search@.route_hints == hints_view(search.route_hints@),
        search@ == SearchState::start(node_id) ==> {
            &&& search.node_id == node_id
            &&& search.pending is None
            &&& search.route_hints@.len() == 0
        },
{
    assert(hints_view(search.route_hints@).len() == search.route_hints@.len());
}

/// The node is asked for its peers first, and then about the first channel that it was not asked
/// about yet, until there is none.
pub proof fn law_what_is_asked_next(search: RouteHintSearch)
    ensures
        search.pending is None ==> search@.query() == Some(Query::ListPeers),
        search.pending matches Some(channels) ==> if channels@.len() == 0 {
            search@.query() is None
        } else {
            search@.query() == Some(Query::ListChannels { short_channel_id: channels@[0].1 })
        },
{
}

/// The search goes on exactly with the answer to what was asked: peers where they are not known yet,
/// channels where one was asked about.
pub proof fn law_only_the_right_answer_counts(search: RouteHintSearch, response: Response)
    ensures
        search@.after(response) is Some <==> match search.pending {
            None => response is ListPeers,
            Some(channels) => channels@.len() > 0 && response is ListChannels,
        },
{
}

/// Once the peers are known, their active channels are what the node is asked about. Nothing else
/// changes.
pub proof fn law_peers_set_the_channels(
    before: RouteHintSearch,
    after: RouteHintSearch,
    peers: Vec<Peer>,
)
    requires
        before.pending is None,
        before@.after(Response::ListPeers(peers)) == Some(after@),
    ensures
        after.node_id == before.node_id,
        after.pending matches Some(channels) && channels@ == active(peers@),
        after.route_hints@.len() == before.route_hints@.len(),
        hints_view(after.route_hints@) == hints_view(before.route_hints@),
{
    assert(hints_view(after.route_hints@).len() == after.route_hints@.len());
    assert(hints_view(before.route_hints@).len() == before.route_hints@.len());
}

/// The answer about a channel adds one route hint where some direction leads to the node: from the
/// peer over that channel, on the terms of the first such direction. It adds none where no direction
/// leads to the node. The hints so far stay as they are, and the next channel is up.
pub proof fn law_answer_adds_the_hint_over_the_channel(
    before: RouteHintSearch,
    after: RouteHintSearch,
    pending: VecDeque<(NodeId, ShortChannelId)>,
    channels: Vec<Channel>,
    k: int,
)
    requires
        before.pending == Some(pending),
        pending@.len() > 0,
        before@.after(Response::ListChannels(channels)) == Some(after@),
    ensures
        after.node_id == before.node_id,
        after.pending matches Some(left) && left@ == pending@.skip(1),
        after.route_hints@.len() >= before.route_hints@.len(),
        hints_view(after.route_hints@.take(before.route_hints@.len() as int)) == hints_view(
            before.route_hints@,
        ),
        (forall|j: int|
            0 <= j < channels@.len() ==> (#[trigger] channels@[j]).destination.0@
                != before.node_id.0@) ==> after.route_hints@.len() == before.route_hints@.len(),
        0 <= k < channels@.len() && channels@[k].destination.0@ == before.node_id.0@ && (forall|
            j: int,
        |
            0 <= j < k ==> (#[trigger] channels@[j]).destination.0@ != before.node_id.0@) ==> {
            let hops = after.route_hints@[before.route_hints@.len() as int].hops@;
            let (peer_id, id) = pending@[0];
            &&& after.route_hints@.len() == before.route_hints@.len() + 1
            &&& hops.len() == 1
            &&& hops[0].src_node_id@ == peer_id.0@
            &&& hops[0].short_channel_id == ((id.block as u64) << 40) | ((id.txindex as u64) << 16)
                | (id.outnum as u64)
            &&& hops[0].base_msat == channels@[k].base_fee_millisatoshi
            &&& hops[0].proportional_millionths == channels@[k].fee_per_millionth
            &&& hops[0].cltv_expiry_delta == channels@[k].delay
            &&& hops[0].htlc_minimum_msat == Some(channels@[k].htlc_minimum_msat)
            &&& hops[0].htlc_maximum_msat == channels@[k].htlc_maximum_msat
        },
{
    let (old_hints, new_hints) = (before.route_hints@, after.route_hints@);
    let n = old_hints.len() as int;
    law_first_direction_is_used(channels@, before.node_id, k);
    assert(hints_view(old_hints).len() == n);
    assert(hints_view(new_hints).len() == new_hints.len());
    assert(pending@.drop_first() =~= pending@.skip(1));
    let kept = new_hints.take(n);
    assert(hints_view(kept) =~= hints_view(old_hints)) by {
        assert forall|h: int| 0 <= h < n implies hints_view(kept)[h] == hints_view(
            old_hints,
        )[h] by {
            assert(hints_view(new_hints)[h] == new_hints[h]@);
            assert(kept[h] == new_hints[h]);
        }
    }
    if leading_to(channels@, before.node_id) is Some {
        let channel = leading_to(channels@, before.node_id).unwrap();
        let (peer_id, id) = pending@[0];
        assert(hints_view(new_hints)[n] == new_hints[n]@);
        law_hint_has_the_terms_of_the_direction(new_hints[n], peer_id, id, channel);
        assert(new_hints[n].hops@[0].src_node_id@ =~= peer_id.0@);
    }
}

/// Every channel that some direction leads to the node over has its route hint.
pub proof fn law_every_direction_gives_a_hint(
    node_id: NodeId,
    channels: Seq<(NodeId, ShortChannelId)>,
    answers: Seq<Seq<Channel>>,
    i: int,
    k: int,
)
    requires
        answers.len() <= channels.len(),
        0 <= i < answers.len(),
        0 <= k < answers[i].len(),
        answers[i][k].destination.0@ == node_id.0@,
        forall|j: int| 0 <= j < k ==> (#[trigger] answers[i][j]).destination.0@ != node_id.0@,
    ensures
        hints_over_all(node_id, channels, answers).contains(
            hint_over(channels[i].0, channels[i].1, answers[i][k]),
        ),
    decreases answers.len(),
{
    let earlier = answers.drop_last();
    let front = hints_over_all(node_id, channels, earlier);
    let added = hints_from(node_id, channels[answers.len() - 1], answers.last());
    let hint = hint_over(channels[i].0, channels[i].1, answers[i][k]);
    if i < earlier.len() {
        assert(earlier[i] == answers[i]);
        law_every_direction_gives_a_hint(node_id, channels, earlier, i, k);
    } else {
        law_first_direction_is_used(answers[i], node_id, k);
        assert(added[0] == hint);
    }
    lemma_contains_concat(front, added, hint);
}

/// The channels of a peer are looked at one by one, in order: one that is in the normal state and
/// has its short channel id counts, any other does not.
pub proof fn law_channels_count_one_by_one(
    id: NodeId,
    a: Seq<PeerChannel>,
    b: Seq<PeerChannel>,
    channel: PeerChannel,
)
    ensures
        active_with(id, Seq::empty()) == Seq::<(NodeId, ShortChannelId)>::empty(),
        active_with(id, seq![channel]) == (match channel.short_channel_id {
            Some(scid) => if channel.state == ChannelState::ChanneldNormal {
                seq![(id, scid)]
            } else {
                Seq::empty()
            },
            None => Seq::empty(),
        }),
        active_with(id, a + b) == active_with(id, a) + active_with(id, b),
    decreases b.len(),
{
    reveal_with_fuel(active_with, 2);
    let one = seq![channel];
    assert(one.drop_last() =~= Seq::<PeerChannel>::empty());
    assert(one.last() == channel);
    assert(active_with(id, one) =~= (match channel.short_channel_id {
        Some(scid) => if channel.state == ChannelState::ChanneldNormal {
            seq![(id, scid)]
        } else {
            Seq::empty()
        },
        None => Seq::empty(),
    }));
    if b.len() == 0 {
        assert(a + b =~= a);
    } else {
        law_channels_count_one_by_one(id, a, b.drop_last(), channel);
        assert((a + b).drop_last() =~= a + b.drop_last());
        assert((a + b).last() == b.last());
    }
    assert(active_with(id, a + b) =~= active_with(id, a) + active_with(id, b));
}

/// The peers are looked at one by one, in order, and each for its own channels.
pub proof fn law_peers_count_one_by_one(a: Seq<Peer>, b: Seq<Peer>, peer: Peer)
    ensures
        active(Seq::empty()) == Seq::<(NodeId, ShortChannelId)>::empty(),
        active(seq![peer]) == active_with(peer.id, peer.channels@),
        active(a + b) == active(a) + active(b),
    decreases b.len(),
{
    reveal_with_fuel(active, 2);
    let one = seq![peer];
    assert(one.drop_last() =~= Seq::<Peer>::empty());
    assert(one.last() == peer);
    assert(active(one) =~= active_with(peer.id, peer.channels@));
    if b.len() == 0 {
        assert(a + b =~= a);
    } else {
        law_peers_count_one_by_one(a, b.drop_last(), peer);
        assert((a + b).drop_last() =~= a + b.drop_last());
        assert((a + b).last() == b.last());
    }
    assert(active(a + b) =~= active(a) + active(b));
}

/// Every channel of a peer that is in the normal state and has its short channel id is found.
pub proof fn law_no_active_channel_is_missed(peers: Seq<Peer>, p: int, c: int, id: ShortChannelId)
    requires
        0 <= p < peers.len(),
        0 <= c < peers[p].channels@.len(),
        peers[p].channels@[c].state == ChannelState::ChanneldNormal,
        peers[p].channels@[c].short_channel_id == Some(id),
    ensures
        active(peers).contains((peers[p].id, id)),
{
    law_active_channels(peers, peers[p].id, id);
    assert(peer_active_at(peers, peers[p].id, id, p, c));
}

} // verus!
