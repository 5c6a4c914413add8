//! What is asked of the node over its RPC, and what it answers.
use vstd::prelude::*;

use crate::messages::PayInvoiceRequest;
use crate::scid::ShortChannelId;

verus! {

/// The public key of a node, in its compressed form.
#[derive(Clone, Copy, Debug)]
pub struct NodeId(pub [u8; 33]);

impl View for NodeId {
    type V = Seq<u8>;

    open spec fn view(&self) -> Seq<u8> {
        self.0@
    }
}

impl NodeId {
    /// Whether two keys are the same.
    pub fn same(&self, other: &NodeId) -> (r: bool)
        ensures
            r == (self@ == other@),
            r == (self.0@ == other.0@),
    {
        let mut i: usize = 0;
        while i < 33
            invariant
                i <= 33,
                forall|k: int| 0 <= k < i ==> self@[k] == other@[k],
            decreases 33 - i,
        {
            if self.0[i] != other.0[i] {
                return false;
            }
            i = i + 1;
        }
        assert(self@ =~= other@);
        true
    }
}

/// How far a channel with a peer has come.
#[derive(Clone, Copy, Debug, PartialEq, Eq, Structural)]
pub enum ChannelState {
    Openingd,
    ChanneldAwaitingLockin,
    ChanneldNormal,
    ChanneldShuttingDown,
    ClosingdSigexchange,
    ClosingdComplete,
    AwaitingUnilateral,
    FundingSpendSeen,
    Onchain,
    DualopendOpenInit,
    DualopendAwaitingLockin,
}

/// A channel with a peer.
#[derive(Clone, Copy, Debug)]
pub struct PeerChannel {
    pub state: ChannelState,
    pub short_channel_id: Option<ShortChannelId>,
}

/// A node that this node is connected to or has channels with.
#[derive(Debug)]
pub struct Peer {
    pub id: NodeId,
    pub channels: Vec<PeerChannel>,
}

/// One direction of a channel, as the network knows it.
#[derive(Clone, Copy, Debug)]
pub struct Channel {
    pub destination: NodeId,
    pub base_fee_millisatoshi: u32,
    pub fee_per_millionth: u32,
    pub delay: u32,
    pub htlc_minimum_msat: u64,
    pub htlc_maximum_msat: Option<u64>,
}

/// An answer of the node.
#[derive(Debug)]
pub enum Response {
    Getinfo { id: NodeId, alias: String },
    ListPeers(Vec<Peer>),
    ListChannels(Vec<Channel>),
    Pay { payment_preimage: [u8; 32] },
    /// The answer to a request that the extension does not make.
    Other,
}

/// A request to pay an invoice. `F` is a number with a fraction.
#[derive(Debug)]
pub struct PayRequest<F> {
    pub bolt11: String,
    pub amount_msat: Option<u64>,
    pub label: Option<String>,
    pub riskfactor: Option<F>,
    pub maxfeepercent: Option<F>,
    pub retry_for: Option<u16>,
    pub maxdelay: Option<u16>,
    pub exemptfee: Option<u64>,
    pub localinvreqid: Option<String>,
    pub exclude: Option<Vec<String>>,
    pub maxfee: Option<u64>,
    pub description: Option<String>,
}

impl<F> PayRequest<F> {
    /// The request that the gateway's wish is passed on with. The delay is cut down to its
    /// lower 16 bits.
    pub fn of_invoice(request: PayInvoiceRequest<F>) -> (r: PayRequest<F>)
        ensures
            r == (PayRequest {
                bolt11: request.invoice,
                amount_msat: None,
                label: None,
                riskfactor: None,
                maxfeepercent: Some(request.max_fee_percent),
                retry_for: None,
                maxdelay: Some((request.max_delay % 0x1_0000) as u16),
                exemptfee: None,
                localinvreqid: None,
                exclude: None,
                maxfee: None,
                description: None,
            }),
    {
        let PayInvoiceRequest { invoice, max_delay, max_fee_percent } = request;
        PayRequest {
            bolt11: invoice,
            amount_msat: None,
            label: None,
            riskfactor: None,
            maxfeepercent: Some(max_fee_percent),
            retry_for: None,
            maxdelay: Some((max_delay % 0x1_0000) as u16),
            exemptfee: None,
            localinvreqid: None,
            exclude: None,
            maxfee: None,
            description: None,
        }
    }
}

/// The contents of a key are its bytes, all of them, in order.
pub proof fn law_key_is_its_bytes(id: NodeId)
    ensures
        id@.len() == 33,
        forall|i: int| 0 <= i < 33 ==> #[trigger] id@[i] == id.0[i],
{
}

} // verus!
