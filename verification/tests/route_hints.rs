use cln_extension::error::{ClnExtensionError, RpcError, Status};
use cln_extension::node::{Channel, ChannelState, NodeId, Peer, PeerChannel, Response};
use cln_extension::route_hints::{active_peer_channels, Query, RouteHintSearch};
use cln_extension::scid::ShortChannelId;
use cln_extension::service::ClnRpcService;

fn node(byte: u8) -> NodeId {
    NodeId([byte; 33])
}

fn start(id: u8, reply: Result<Response, RpcError>) -> Result<RouteHintSearch, Status> {
    let mut search = ClnRpcService::get_route_hints(Ok((node(id), "alice".to_string())))?;
    assert_eq!(search.query(), Some(Query::ListPeers));
    search.answer(Ok(reply))?;
    Ok(search)
}

fn scid(block: u32) -> ShortChannelId {
    ShortChannelId { block, txindex: 2, outnum: 3 }
}

fn peer(id: u8, channels: Vec<(ChannelState, Option<ShortChannelId>)>) -> Peer {
    Peer {
        id: node(id),
        channels: channels
            .into_iter()
            .map(|(state, short_channel_id)| PeerChannel { state, short_channel_id })
            .collect(),
    }
}

fn channel(destination: u8, base: u32) -> Channel {
    Channel {
        destination: node(destination),
        base_fee_millisatoshi: base,
        fee_per_millionth: 20,
        delay: 30,
        htlc_minimum_msat: 40,
        htlc_maximum_msat: Some(50),
    }
}

fn peers() -> Vec<Peer> {
    vec![
        peer(1, vec![
            (ChannelState::Openingd, Some(scid(10))),
            (ChannelState::ChanneldNormal, Some(scid(11))),
            (ChannelState::ChanneldNormal, None),
        ]),
        peer(2, vec![]),
        peer(3, vec![
            (ChannelState::ChanneldNormal, Some(scid(12))),
            (ChannelState::Onchain, Some(scid(13))),
            (ChannelState::ChanneldNormal, Some(scid(14))),
        ]),
    ]
}

#[test]
fn only_normal_channels_with_an_id_are_active() {
    let found = active_peer_channels(&peers());
    let found: Vec<(u8, ShortChannelId)> = found.iter().map(|(id, scid)| (id.0[0], *scid)).collect();
    assert_eq!(found, vec![(1, scid(11)), (3, scid(12)), (3, scid(14))]);
    for state in [
        ChannelState::Openingd,
        ChannelState::ChanneldAwaitingLockin,
        ChannelState::ChanneldShuttingDown,
        ChannelState::ClosingdSigexchange,
        ChannelState::ClosingdComplete,
        ChannelState::AwaitingUnilateral,
        ChannelState::FundingSpendSeen,
        ChannelState::Onchain,
        ChannelState::DualopendOpenInit,
        ChannelState::DualopendAwaitingLockin,
    ] {
        assert!(active_peer_channels(&vec![peer(1, vec![(state, Some(scid(1)))])]).is_empty());
    }
}

#[test]
fn search_asks_about_every_channel() {
    let mut search = start(9, Ok(Response::ListPeers(peers()))).unwrap();
    let mut asked = Vec::new();
    while let Some(query) = search.query() {
        let id = match query {
            Query::ListChannels { short_channel_id } => short_channel_id,
            Query::ListPeers => panic!("the peers are known"),
        };
        asked.push(id.block);
        let answer = match id.block {
            // Only the direction away from the node, then the one towards it.
            11 => vec![channel(1, 100), channel(9, 111), channel(9, 112)],
            // The network does not know the way to the node.
            12 => vec![channel(3, 100)],
            _ => vec![channel(9, 114)],
        };
        search.answer(Ok(Ok(Response::ListChannels(answer)))).unwrap();
    }
    assert_eq!(asked, vec![11, 12, 14]);
    let hints = search.finish().route_hints;
    assert_eq!(hints.len(), 2);
    let hop = &hints[0].hops[0];
    assert_eq!(hints[0].hops.len(), 1);
    assert_eq!(hop.src_node_id, vec![1; 33]);
    assert_eq!(hop.short_channel_id, (11 << 40) | (2 << 16) | 3);
    assert_eq!(hop.base_msat, 111);
    assert_eq!(hop.proportional_millionths, 20);
    assert_eq!(hop.cltv_expiry_delta, 30);
    assert_eq!(hop.htlc_minimum_msat, Some(40));
    assert_eq!(hop.htlc_maximum_msat, Some(50));
    assert_eq!(hints[1].hops[0].src_node_id, vec![3; 33]);
    assert_eq!(hints[1].hops[0].base_msat, 114);
}

#[test]
fn search_tells_nodes_apart_by_every_byte() {
    let mut near = [9u8; 33];
    near[32] = 8;
    let mut almost = channel(9, 1);
    almost.destination = NodeId(near);
    let one = vec![peer(1, vec![(ChannelState::ChanneldNormal, Some(scid(1)))])];
    let mut search = start(9, Ok(Response::ListPeers(one))).unwrap();
    search.answer(Ok(Ok(Response::ListChannels(vec![almost])))).unwrap();
    assert!(search.finish().route_hints.is_empty());
    assert!(node(9).same(&node(9)));
    assert!(!node(9).same(&NodeId(near)));
}

#[test]
fn search_without_active_channels() {
    let search = start(9, Ok(Response::ListPeers(Vec::new()))).unwrap();
    assert!(search.query().is_none());
    assert!(search.finish().route_hints.is_empty());
}

#[test]
fn search_errors() {
    let busy = || RpcError { code: Some(7), message: "busy".to_string() };
    let wrong = "Gateway CLN Extension, CLN RPC Wrong Response";
    let refused = |reply| start(9, reply).map(|_| ()).unwrap_err().message;
    assert_eq!(refused(Ok(Response::Other)), wrong);
    assert_eq!(refused(Err(busy())), "Error code 7: busy");
    let mut search = start(9, Ok(Response::ListPeers(peers()))).unwrap();
    let next = Some(Query::ListChannels { short_channel_id: scid(11) });
    assert_eq!(search.answer(Ok(Ok(Response::Other))).unwrap_err().message, wrong);
    assert_eq!(search.answer(Ok(Ok(Response::ListPeers(peers())))).unwrap_err().message, wrong);
    assert_eq!(search.answer(Ok(Err(busy()))).unwrap_err().message, "Error code 7: busy");
    assert_eq!(search.query(), next);
}

#[test]
fn search_needs_the_node() {
    let lost = || ClnExtensionError::Error("lost".to_string());
    let shown = "Gateway CLN Extension Error : lost";
    let unknown = ClnRpcService::get_route_hints(Err(lost())).map(|_| ()).unwrap_err();
    assert_eq!(unknown.message, shown);
    let wrong = ClnRpcService::get_route_hints(Err(ClnExtensionError::RpcWrongResponse));
    assert_eq!(
        wrong.map(|_| ()).unwrap_err().message,
        "Gateway CLN Extension, CLN RPC Wrong Response"
    );
    let mut search = ClnRpcService::get_route_hints(Ok((node(9), String::new()))).unwrap();
    assert_eq!(search.answer(Err(lost())).unwrap_err().message, shown);
    assert_eq!(search.query(), Some(Query::ListPeers));
}
