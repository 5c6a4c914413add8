//! The interceptor: which HTLCs are passed to whom, and who waits for their outcome.
use std::collections::{BTreeMap, HashMap};

use vstd::prelude::*;
use vstd::slice::*;
use vstd::string::*;

use crate::deadline::Deadline;
use crate::error;
use crate::htlc;
use crate::htlc::{HtlcAccepted, HtlcReply};
use crate::messages::{
    RouteHtlcResponse, RouteHtlcResponseAction, SubscribeInterceptHtlcsResponse,
};
use crate::scid;

verus! {

broadcast use vstd::laws_cmp::group_laws_cmp;

/// Functional structure to filter intercepted HTLCs into subscription streams.
/// Used as a CLN plugin
///
/// `S` is what an HTLC is sent to the gateway with, `O` what its outcome is sent back to the
/// waiting hook with.
pub struct ClnHtlcInterceptor<S, O> {
    pub subscriptions: HashMap<u64, S>,
    pub outcomes: BTreeMap<(u64, u64), O>,
}

/// The contents of a [`ClnHtlcInterceptor`]: who subscribed to the HTLCs of a short channel
/// id, and who waits for the outcome of an HTLC, by its incoming channel and its id.
#[verifier::ext_equal]
pub struct InterceptorState<S, O> {
    pub subscriptions: Map<u64, S>,
    pub outcomes: Map<(u64, u64), O>,
}

impl<S, O> View for ClnHtlcInterceptor<S, O> {
    type V = InterceptorState<S, O>;

    open spec fn view(&self) -> InterceptorState<S, O> {
        InterceptorState { subscriptions: self.subscriptions@, outcomes: self.outcomes@ }
    }
}

impl<S, O> InterceptorState<S, O> {
    /// No subscriptions, and nobody waiting.
    pub open spec fn init() -> Self {
        InterceptorState { subscriptions: Map::empty(), outcomes: Map::empty() }
    }

    /// After a subscription, which takes the place of an earlier one.
    pub open spec fn subscribed(self, short_channel_id: u64, subscription: S) -> Self {
        InterceptorState {
            subscriptions: self.subscriptions.insert(short_channel_id, subscription),
            outcomes: self.outcomes,
        }
    }

    /// After an HTLC was sent to the gateway. Whoever waited for an earlier HTLC with the same
    /// key is forgotten.
    pub open spec fn forwarded(self, key: (u64, u64), outcome: O) -> Self {
        InterceptorState {
            subscriptions: self.subscriptions,
            outcomes: self.outcomes.insert(key, outcome),
        }
    }

    /// After the gateway told an outcome.
    pub open spec fn completed(self, key: (u64, u64)) -> Self {
        InterceptorState {
            subscriptions: self.subscriptions,
            outcomes: self.outcomes.remove(key),
        }
    }

    /// The outgoing and the incoming channel of an HTLC that is passed to the gateway: one that
    /// is forwarded over a channel that somebody subscribed to, with ids that can be read.
    pub open spec fn route(self, payload: HtlcAccepted) -> Option<(u64, u64)> {
        match payload.onion.short_channel_id {
            Some(outgoing) => match scid::scid_of_text(outgoing@) {
                Some(short_channel_id) => if self.subscriptions.contains_key(short_channel_id) {
                    match scid::scid_of_text(payload.htlc.short_channel_id@) {
                        Some(incoming_chan_id) => Some((short_channel_id, incoming_chan_id)),
                        None => None,
                    }
                } else {
                    None
                },
                None => None,
            },
            None => None,
        }
    }
}

/// Whether a message asks the gateway to decide on an HTLC, with all it has to know.
pub open spec fn announces(
    response: RouteHtlcResponse,
    payload: HtlcAccepted,
    short_channel_id: u64,
    incoming_chan_id: u64,
) -> bool {
    &&& response.action matches Some(RouteHtlcResponseAction::SubscribeResponse(htlc))
    &&& htlc.payment_hash@ == payload.htlc.payment_hash@
    &&& htlc.incoming_amount_msat == payload.htlc.amount_msat.msats
    &&& htlc.outgoing_amount_msat == payload.onion.forward_msat.msats
    &&& htlc.incoming_expiry == payload.htlc.cltv_expiry
    &&& htlc.short_channel_id == short_channel_id
    &&& htlc.incoming_chan_id == incoming_chan_id
    &&& htlc.htlc_id == payload.htlc.id
}

/// What is done with an HTLC that the node accepted.
pub enum Interception<'a, S> {
    /// Answer the node.
    Reply(HtlcReply),
    /// Send the message to the subscription, and go on with [`ClnHtlcInterceptor::forwarded`].
    Forward {
        subscription: &'a S,
        response: RouteHtlcResponse,
        key: (u64, u64),
        deadline: Deadline,
    },
}

/// How sending an HTLC to the gateway went.
pub enum Forwarding<O> {
    /// It was sent. The outcome is to be sent back with the given sender.
    Sent(O),
    /// The subscription is closed.
    Failed,
}

/// What is done after sending an HTLC to the gateway.
pub enum Waiting {
    /// Wait for the outcome of the HTLC or the next reading of the height of the chain, and go on
    /// with [`outcome_reply`].
    Await { deadline: Deadline },
    /// Answer the node.
    Reply(HtlcReply),
}

/// The contents of a [`Waiting`].
pub enum WaitingView {
    Await(Deadline),
    Reply(htlc::HtlcReplyView),
}

impl View for Waiting {
    type V = WaitingView;

    open spec fn view(&self) -> WaitingView {
        match self {
            Waiting::Await { deadline } => WaitingView::Await(*deadline),
            Waiting::Reply(reply) => WaitingView::Reply(reply@),
        }
    }
}

/// What is known of the outcome of an HTLC.
pub enum Outcome {
    /// The reply that the outcome was turned into.
    Received(HtlcReply),
    /// The sender is gone.
    SenderDropped,
    /// There is none yet. The height of the chain is given where it could be read.
    Pending { blockheight: Option<u32> },
}

/// What comes of what is known of the outcome of an HTLC: the answer to the node, or more waiting
/// where there is still time.
pub open spec fn answered(deadline: Deadline, outcome: Outcome) -> WaitingView {
    match outcome {
        Outcome::Received(reply) => WaitingView::Reply(reply@),
        Outcome::SenderDropped => WaitingView::Reply(htlc::processing_failure()),
        Outcome::Pending { blockheight } => match deadline.after(blockheight) {
            Some(deadline) => WaitingView::Await(deadline),
            None => WaitingView::Reply(htlc::processing_failure()),
        },
    }
}

/// The text of an error on a short channel id that cannot be read, with the id as it is shown
/// to a developer.
pub open spec fn invalid_scid(shown: Seq<char>) -> Seq<char> {
    "Received invalid short channel id: "@ + shown
}

/// The text of an error on a short channel id that cannot be read, with the id as it is shown
/// to a developer.
pub fn invalid_scid_text(shown: &str) -> (r: String)
    ensures
        r@ == invalid_scid(shown@),
        r@ == "Received invalid short channel id: "@ + shown@,
{
    "Received invalid short channel id: ".to_owned().concat(shown)
}

/// Answers the node on an HTLC that was sent to the gateway, or goes on waiting.
///
/// If the gateway does not respond within the HTLC expiry,
/// automatically responds with a failure message. That the HTLC has expired is known from a
/// height that was read, or concluded after too many readings that failed.
pub fn outcome_reply(deadline: Deadline, outcome: Outcome) -> (r: Waiting)
    ensures
        r@ == answered(deadline, outcome),
        match outcome {
            Outcome::Received(reply) => r == Waiting::Reply(reply),
            Outcome::SenderDropped => r matches Waiting::Reply(HtlcReply::Fail { failure_message })
                && failure_message@ == "400f"@,
            Outcome::Pending { blockheight: Some(height) } => if height >= deadline.cltv_expiry {
                r matches Waiting::Reply(HtlcReply::Fail { failure_message }) && failure_message@
                    == "400f"@
            } else {
                r == (Waiting::Await { deadline })
            },
            Outcome::Pending { blockheight: None } => if deadline.untold <= 1 {
                r matches Waiting::Reply(HtlcReply::Fail { failure_message }) && failure_message@
                    == "400f"@
            } else {
                r matches Waiting::Await { deadline: left } && left.cltv_expiry
                    == deadline.cltv_expiry && left.untold + 1 == deadline.untold
            },
        },
{
    match outcome {
        Outcome::Received(reply) => Waiting::Reply(reply),
        Outcome::SenderDropped => Waiting::Reply(htlc::htlc_processing_failure()),
        Outcome::Pending { blockheight } => match deadline.read(blockheight) {
            Some(deadline) => Waiting::Await { deadline },
            None => Waiting::Reply(htlc::htlc_processing_failure()),
        },
    }
}

impl<S, O> ClnHtlcInterceptor<S, O> {
    /// An interceptor without subscriptions.
    pub fn new() -> (r: Self)
        ensures
            r@ == InterceptorState::<S, O>::init(),
            r.subscriptions@ == Map::<u64, S>::empty(),
            r.outcomes@ == Map::<(u64, u64), O>::empty(),
    {
        ClnHtlcInterceptor { subscriptions: HashMap::new(), outcomes: BTreeMap::new() }
    }

    /// Reads a short channel id and packs it into one number. The error is its text.
    pub fn convert_short_channel_id(scid: &str) -> (r: Result<u64, String>)
        ensures
            match scid::scid_of_text(scid@) {
                Some(v) => r == Ok::<u64, String>(v),
                None => r matches Err(message) && message@ == invalid_scid(
                    error::str_debug(scid@),
                ),
            },
            r matches Err(message) ==> message@ == "Received invalid short channel id: "@
                + error::str_debug(scid@),
    {
        match scid::parse_short_channel_id(scid) {
            Some(id) => {
                proof {
                    scid::law_pack_unpack(scid::scid_of_text(scid@).unwrap());
                }
                Ok(scid::scid_to_u64(id))
            },
            None => {
                let shown = error::debug_str(scid);
                Err(invalid_scid_text(shown.as_str()))
            },
        }
    }

    /// Passes the HTLCs that are to be forwarded over a channel to a subscription.
    pub fn subscribe(&mut self, short_channel_id: u64, subscription: S)
        ensures
            final(self)@ == old(self)@.subscribed(short_channel_id, subscription),
            final(self).subscriptions@ == old(self).subscriptions@.insert(
                short_channel_id,
                subscription,
            ),
            final(self).outcomes@ == old(self).outcomes@,
    {
        self.subscriptions.insert(short_channel_id, subscription);
    }

    /// Decides on an HTLC that the node accepted.
    pub fn intercept_htlc(&self, payload: &HtlcAccepted) -> (r: Interception<'_, S>)
        ensures
            match self@.route(*payload) {
                Some((short_channel_id, incoming_chan_id)) => {
                    &&& r matches Interception::Forward {
                        subscription,
                        response,
                        key,
                        deadline,
                    }
                    &&& *subscription == self@.subscriptions[short_channel_id]
                    &&& announces(response, *payload, short_channel_id, incoming_chan_id)
                    &&& key == (incoming_chan_id, payload.htlc.id)
                    &&& deadline == Deadline::of(payload.htlc)
                },
                None => {
                    &&& r matches Interception::Reply(reply)
                    &&& reply@ == htlc::HtlcReplyView::Continue
                },
            },
            match r {
                Interception::Forward { subscription, response, key, deadline } => {
                    &&& payload.onion.short_channel_id matches Some(outgoing)
                    &&& response.action matches Some(
                        RouteHtlcResponseAction::SubscribeResponse(htlc),
                    )
                    &&& scid::scid_of_text(outgoing@) == Some(htlc.short_channel_id)
                    &&& self.subscriptions@.contains_key(htlc.short_channel_id)
                    &&& self.subscriptions@[htlc.short_channel_id] == *subscription
                    &&& scid::scid_of_text(payload.htlc.short_channel_id@) == Some(
                        htlc.incoming_chan_id,
                    )
                    &&& htlc.payment_hash@.len() == 32
                    &&& forall|i: int|
                        0 <= i < 32 ==> #[trigger] htlc.payment_hash@[i]
                            == payload.htlc.payment_hash[i]
                    &&& htlc.incoming_amount_msat == payload.htlc.amount_msat.msats
                    &&& htlc.outgoing_amount_msat == payload.onion.forward_msat.msats
                    &&& htlc.incoming_expiry == payload.htlc.cltv_expiry
                    &&& htlc.htlc_id == payload.htlc.id
                    &&& key == (htlc.incoming_chan_id, htlc.htlc_id)
                    &&& deadline.cltv_expiry == payload.htlc.cltv_expiry
                    &&& deadline.untold == 20 * payload.htlc.cltv_expiry_relative
                },
                Interception::Reply(reply) => {
                    &&& reply is Continue
                    &&& !(payload.onion.short_channel_id matches Some(outgoing)
                        && scid::scid_of_text(outgoing@) matches Some(short_channel_id)
                        && self.subscriptions@.contains_key(short_channel_id)
                        && scid::scid_of_text(payload.htlc.short_channel_id@) is Some)
                },
            },
    {
        let outgoing = match &payload.onion.short_channel_id {
            Some(outgoing) => outgoing,
            // This is a HTLC terminating at the gateway node. DO NOT intercept
            None => return Interception::Reply(HtlcReply::Continue),
        };
        let short_channel_id: u64 = match Self::convert_short_channel_id(outgoing.as_str()) {
            Ok(scid) => scid,
            Err(_) => return Interception::Reply(HtlcReply::Continue),
        };
        match self.subscriptions.get(&short_channel_id) {
            Some(subscription) => {
                let incoming = payload.htlc.short_channel_id.as_str();
                let incoming_chan_id: u64 = match Self::convert_short_channel_id(incoming) {
                    Ok(scid) => scid,
                    // Failed to parse incoming_chan_id, just forward the HTLC
                    Err(_) => return Interception::Reply(HtlcReply::Continue),
                };
                let response = RouteHtlcResponse {
                    action: Some(
                        RouteHtlcResponseAction::SubscribeResponse(
                            SubscribeInterceptHtlcsResponse {
                                payment_hash: slice_to_vec(payload.htlc.payment_hash.as_slice()),
                                incoming_amount_msat: payload.htlc.amount_msat.msats,
                                outgoing_amount_msat: payload.onion.forward_msat.msats,
                                incoming_expiry: payload.htlc.cltv_expiry,
                                short_channel_id,
                                incoming_chan_id,
                                htlc_id: payload.htlc.id,
                            },
                        ),
                    ),
                };
                Interception::Forward {
                    subscription,
                    response,
                    key: (incoming_chan_id, payload.htlc.id),
                    deadline: Deadline::of_htlc(&payload.htlc),
                }
            },
            // We have no subscription for this HTLC.
            // Ignore it by requesting the node to continue
            None => Interception::Reply(HtlcReply::Continue),
        }
    }

    /// Goes on with an HTLC after it was sent to the gateway, or could not be. The gateway has
    /// until the HTLC expires.
    pub fn forwarded(
        &mut self,
        key: (u64, u64),
        deadline: Deadline,
        forwarding: Forwarding<O>,
    ) -> (r: Waiting)
        ensures
            match forwarding {
                Forwarding::Sent(outcome) => {
                    &&& final(self)@ == old(self)@.forwarded(key, outcome)
                    &&& r@ == WaitingView::Await(deadline)
                    &&& r == (Waiting::Await { deadline })
                    &&& final(self).outcomes@ == old(self).outcomes@.insert(key, outcome)
                    &&& final(self).subscriptions@ == old(self).subscriptions@
                },
                Forwarding::Failed => {
                    &&& final(self)@ == old(self)@
                    &&& r@ == WaitingView::Reply(htlc::processing_failure())
                    &&& r matches Waiting::Reply(HtlcReply::Fail { failure_message })
                    &&& failure_message@ == "400f"@
                    &&& final(self).outcomes@ == old(self).outcomes@
                    &&& final(self).subscriptions@ == old(self).subscriptions@
                },
            },
    {
        match forwarding {
            Forwarding::Sent(outcome) => {
                self.outcomes.insert(key, outcome);
                Waiting::Await { deadline }
            },
            Forwarding::Failed => Waiting::Reply(htlc::htlc_processing_failure()),
        }
    }

    /// Takes out who waits for the outcome of an HTLC.
    pub(crate) fn take_outcome(&mut self, key: (u64, u64)) -> (r: Option<O>)
        ensures
            final(self)@ == old(self)@.completed(key),
            r == (if old(self)@.outcomes.contains_key(key) {
                Some(old(self)@.outcomes[key])
            } else {
                None
            }),
    {
        self.outcomes.remove(&key)
    }
}

} // verus!
