//! The messages that the gateway and the extension exchange.
use vstd::prelude::*;

verus! {

/// Asks for the HTLCs that are to be forwarded over a channel.
#[derive(Debug)]
pub struct SubscribeInterceptHtlcsRequest {
    pub short_channel_id: u64,
}

/// Hands over the preimage that claims an HTLC.
#[derive(Debug)]
pub struct Settle {
    pub preimage: Vec<u8>,
}

/// Gives up an HTLC.
#[derive(Debug)]
pub struct Cancel {
    pub reason: String,
}

/// What the gateway decided on an HTLC.
#[derive(Debug)]
pub enum Action {
    Settle(Settle),
    Cancel(Cancel),
}

/// Tells the outcome of an HTLC.
#[derive(Debug)]
pub struct CompleteHtlcsRequest {
    pub action: Option<Action>,
    pub incoming_chan_id: u64,
    pub htlc_id: u64,
}

/// What the gateway asks for on a route stream.
#[derive(Debug)]
pub enum RouteHtlcRequestAction {
    SubscribeRequest(SubscribeInterceptHtlcsRequest),
    CompleteRequest(CompleteHtlcsRequest),
}

#[derive(Debug)]
pub struct RouteHtlcRequest {
    pub action: Option<RouteHtlcRequestAction>,
}

/// An HTLC that the gateway is asked to decide on.
#[derive(Debug)]
pub struct SubscribeInterceptHtlcsResponse {
    pub payment_hash: Vec<u8>,
    pub incoming_amount_msat: u64,
    pub outgoing_amount_msat: u64,
    pub incoming_expiry: u32,
    pub short_channel_id: u64,
    pub incoming_chan_id: u64,
    pub htlc_id: u64,
}

/// Confirms that the outcome of an HTLC was passed on.
#[derive(Debug)]
pub struct CompleteHtlcsResponse {}

/// What the gateway is told on a route stream.
#[derive(Debug)]
pub enum RouteHtlcResponseAction {
    SubscribeResponse(SubscribeInterceptHtlcsResponse),
    CompleteResponse(CompleteHtlcsResponse),
}

#[derive(Debug)]
pub struct RouteHtlcResponse {
    pub action: Option<RouteHtlcResponseAction>,
}

/// The identity of the node.
#[derive(Debug)]
pub struct GetNodeInfoResponse {
    pub pub_key: Vec<u8>,
    pub alias: String,
}

/// A channel over which the node can be reached.
#[derive(Debug)]
pub struct RouteHintHop {
    pub src_node_id: Vec<u8>,
    pub short_channel_id: u64,
    pub base_msat: u32,
    pub proportional_millionths: u32,
    pub cltv_expiry_delta: u32,
    pub htlc_minimum_msat: Option<u64>,
    pub htlc_maximum_msat: Option<u64>,
}

/// A way to reach the node.
#[derive(Debug)]
pub struct RouteHint {
    pub hops: Vec<RouteHintHop>,
}

#[derive(Debug)]
pub struct GetRouteHintsResponse {
    pub route_hints: Vec<RouteHint>,
}

/// Asks for an invoice to be paid. The fee limit is a percentage, which is passed on
/// without a look at it.
#[derive(Debug)]
pub struct PayInvoiceRequest<F> {
    pub invoice: String,
    pub max_delay: u64,
    pub max_fee_percent: F,
}

/// The proof that an invoice was paid.
#[derive(Debug)]
pub struct PayInvoiceResponse {
    pub preimage: Vec<u8>,
}

} // verus!
