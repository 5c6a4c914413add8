//! What any call of the library gives back, and how one call bears on the next, in terms of the
//! fields that callers see.
use std::collections::VecDeque;

use vstd::prelude::*;
use vstd::utf8::*;

use crate::amount;
use crate::amount::Amount;
use crate::db;
use crate::db::DbKeyPrefix;
use crate::deadline::Deadline;
use crate::error;
use crate::error::{ClnExtensionError, Code, RpcError, Status};
use crate::htlc;
use crate::htlc::{HtlcAccepted, HtlcReply};
use crate::interceptor;
use crate::interceptor::{ClnHtlcInterceptor, Forwarding, Interception, Outcome, Waiting};
use crate::laws;
use crate::messages::{
    Action, CompleteHtlcsRequest, GetNodeInfoResponse, GetRouteHintsResponse, PayInvoiceRequest,
    PayInvoiceResponse, RouteHtlcRequest, RouteHtlcRequestAction, RouteHtlcResponse,
    RouteHtlcResponseAction,
};
use crate::node::{Channel, NodeId, PayRequest, Peer, Response};
use crate::route_hints;
use crate::route_hints::{Query, RouteHintSearch};
use crate::scid;
use crate::scid::ShortChannelId;
use crate::service::{ClnExtensionOpts, ClnRpcService, Completion, Configuration, Listen, RouteStep};
use crate::text;

verus! {

/// An HTLC is passed on exactly where it is to be forwarded over a readable channel that somebody
/// subscribed to, and comes from a readable channel. Whoever subscribed is told of it what the node
/// told, byte by byte and number by number. Any other HTLC goes on as if nothing had happened.
pub proof fn law_intercepted_htlc<S, O>(
    interceptor: &ClnHtlcInterceptor<S, O>,
    payload: &HtlcAccepted,
    result: Interception<'_, S>,
)
    requires
        call_ensures(
            ClnHtlcInterceptor::<S, O>::intercept_htlc,
            (interceptor, payload),
            result,
        ),
    ensures
        match result {
            Interception::Forward { subscription, response, key, deadline } => {
                &&& payload.onion.short_channel_id matches Some(outgoing)
                &&& response.action matches Some(RouteHtlcResponseAction::SubscribeResponse(htlc))
                &&& scid::scid_of_text(outgoing@) == Some(htlc.short_channel_id)
                &&& scid::scid_of_text(payload.htlc.short_channel_id@) == Some(
                    htlc.incoming_chan_id,
                )
                &&& interceptor.subscriptions@.contains_key(htlc.short_channel_id)
                &&& *subscription == interceptor.subscriptions@[htlc.short_channel_id]
                &&& htlc.payment_hash@.len() == 32
                &&& forall|i: int|
                    0 <= i < 32 ==> #[trigger] htlc.payment_hash@[i] == payload.htlc.payment_hash[i]
                &&& htlc.incoming_amount_msat == payload.htlc.amount_msat.msats
                &&& htlc.outgoing_amount_msat == payload.onion.forward_msat.msats
                &&& htlc.incoming_expiry == payload.htlc.cltv_expiry
                &&& htlc.htlc_id == payload.htlc.id
                &&& key == (htlc.incoming_chan_id, payload.htlc.id)
                &&& deadline.cltv_expiry == payload.htlc.cltv_expiry
                &&& deadline.untold == 20 * payload.htlc.cltv_expiry_relative
            },
            Interception::Reply(reply) => {
                &&& reply is Continue
                &&& match payload.onion.short_channel_id {
                    None => true,
                    Some(outgoing) => match scid::scid_of_text(outgoing@) {
                        None => true,
                        Some(id) => !interceptor.subscriptions@.contains_key(id)
                            || scid::scid_of_text(payload.htlc.short_channel_id@) is None,
                    },
                }
            },
        },
{
}

/// After a subscription, the HTLCs over that channel go to it. Other subscriptions, and whoever waits
/// for an outcome, are not touched.
pub proof fn law_subscription_gets_the_next_htlc<S, O>(
    interceptor: &mut ClnHtlcInterceptor<S, O>,
    short_channel_id: u64,
    sender: S,
    payload: &HtlcAccepted,
    result: Interception<'_, S>,
    other: u64,
)
    requires
        call_ensures(
            ClnHtlcInterceptor::<S, O>::subscribe,
            (interceptor, short_channel_id, sender),
            (),
        ),
        call_ensures(
            ClnHtlcInterceptor::<S, O>::intercept_htlc,
            (&*final(interceptor), payload),
            result,
        ),
    ensures
        ({
            &&& payload.onion.short_channel_id matches Some(outgoing)
            &&& scid::scid_of_text(outgoing@) == Some(short_channel_id)
            &&& scid::scid_of_text(payload.htlc.short_channel_id@) is Some
        }) ==> (result matches Interception::Forward { subscription, .. } && *subscription
            == sender),
        final(interceptor).outcomes@ == old(interceptor).outcomes@,
        other != short_channel_id ==> (final(interceptor).subscriptions@.contains_key(other)
            <==> old(interceptor).subscriptions@.contains_key(other)),
        other != short_channel_id && old(interceptor).subscriptions@.contains_key(other)
            ==> final(interceptor).subscriptions@[other] == old(interceptor).subscriptions@[other],
{
}

/// An HTLC that was sent is waited for until its deadline, and one that could not be sent is failed.
pub proof fn law_forwarded_htlc<S, O>(
    interceptor: &mut ClnHtlcInterceptor<S, O>,
    key: (u64, u64),
    deadline: Deadline,
    forwarding: Forwarding<O>,
    result: Waiting,
    other: (u64, u64),
)
    requires
        call_ensures(
            ClnHtlcInterceptor::<S, O>::forwarded,
            (interceptor, key, deadline, forwarding),
            result,
        ),
    ensures
        final(interceptor).subscriptions@ == old(interceptor).subscriptions@,
        match forwarding {
            Forwarding::Sent(outcome) => {
                &&& result == (Waiting::Await { deadline })
                &&& final(interceptor).outcomes@.contains_key(key)
                &&& final(interceptor).outcomes@[key] == outcome
            },
            Forwarding::Failed => {
                &&& result matches Waiting::Reply(HtlcReply::Fail { failure_message })
                &&& failure_message@ == "400f"@
                &&& final(interceptor).outcomes@ == old(interceptor).outcomes@
            },
        },
        other != key ==> (final(interceptor).outcomes@.contains_key(other) <==> old(interceptor).outcomes@.contains_key(other)),
        other != key && old(interceptor).outcomes@.contains_key(other) ==> final(interceptor).outcomes@[other] == old(interceptor).outcomes@[other],
{
}

/// What is made of an outcome that is told: who is handed which reply, and that they no longer wait
/// then. A preimage of 32 bytes claims the HTLC with two hexadecimal digits for each of its bytes,
/// whatever the bytes are.
pub proof fn law_completed_htlc<S, O>(
    request: CompleteHtlcsRequest,
    interceptors: &mut ClnHtlcInterceptor<S, O>,
    sender: S,
    result: Result<Completion<S, O>, Status>,
    other: (u64, u64),
)
    requires
        call_ensures(
            ClnRpcService::complete_htlc::<S, O>,
            (request, interceptors, sender),
            result,
        ),
    ensures
        ({
            let key = (request.incoming_chan_id, request.htlc_id);
            let waiting = old(interceptors).outcomes@;
            &&& result is Ok <==> waiting.contains_key(key) && request.action is Some
            &&& match result {
                Ok(completion) => {
                    &&& completion.outcome == waiting[key]
                    &&& completion.sender == sender
                    &&& match request.action {
                        Some(Action::Settle(settle)) if settle.preimage@.len() == 32 => {
                            &&& completion.reply matches HtlcReply::Resolve { payment_key }
                            &&& payment_key@.len() == 64
                            &&& forall|i: int|
                                #![trigger settle.preimage@[i]]
                                0 <= i < 32 ==> {
                                    let byte = settle.preimage@[i] as int;
                                    &&& payment_key@[2 * i] as int == if byte / 16 < 10 {
                                        0x30 + byte / 16
                                    } else {
                                        0x57 + byte / 16
                                    }
                                    &&& payment_key@[2 * i + 1] as int == if byte % 16 < 10 {
                                        0x30 + byte % 16
                                    } else {
                                        0x57 + byte % 16
                                    }
                                }
                        },
                        _ => {
                            &&& completion.reply matches HtlcReply::Fail { failure_message }
                            &&& failure_message@ == "400f"@
                        },
                    }
                },
                Err(status) => {
                    &&& status.code == Code::Internal
                    &&& status.message@ == if waiting.contains_key(key) {
                        "No action specified on this intercepted htlc"@
                    } else {
                        "No interceptor reference found for htlc"@
                    }
                },
            }
            &&& !final(interceptors).outcomes@.contains_key(key)
            &&& other != key ==> (final(interceptors).outcomes@.contains_key(other)
                <==> waiting.contains_key(other))
            &&& other != key && waiting.contains_key(other) ==> final(interceptors).outcomes@[other] == waiting[other]
            &&& final(interceptors).subscriptions@ == old(interceptors).subscriptions@
        }),
{
    let state = old(interceptors)@;
    laws::law_interceptor_contents(*old(interceptors));
    laws::law_completion_carries_the_reply(state, request, sender, result);
}

/// The outcome of an HTLC that was sent to the gateway reaches the one who waits for it, the first
/// time that it is told, and only then.
pub proof fn law_outcome_is_told_once<S, O>(
    interceptor: &mut ClnHtlcInterceptor<S, O>,
    key: (u64, u64),
    deadline: Deadline,
    outcome: O,
    waiting: Waiting,
    first: CompleteHtlcsRequest,
    told: &mut ClnHtlcInterceptor<S, O>,
    sender: S,
    answer: Result<Completion<S, O>, Status>,
    second: CompleteHtlcsRequest,
    again: &mut ClnHtlcInterceptor<S, O>,
    other: S,
    refusal: Result<Completion<S, O>, Status>,
)
    requires
        call_ensures(
            ClnHtlcInterceptor::<S, O>::forwarded,
            (interceptor, key, deadline, Forwarding::Sent(outcome)),
            waiting,
        ),
        *old(told) == *final(interceptor),
        (first.incoming_chan_id, first.htlc_id) == key,
        first.action is Some,
        call_ensures(ClnRpcService::complete_htlc::<S, O>, (first, told, sender), answer),
        *old(again) == *final(told),
        (second.incoming_chan_id, second.htlc_id) == key,
        call_ensures(ClnRpcService::complete_htlc::<S, O>, (second, again, other), refusal),
    ensures
        waiting is Await,
        answer matches Ok(completion) && completion.outcome == outcome && completion.sender
            == sender,
        refusal matches Err(status) && status.message@ == "No interceptor reference found for htlc"@,
        final(again).outcomes@ == final(told).outcomes@,
{
    assert(final(told).outcomes@.remove(key) =~= final(told).outcomes@);
}

/// An item on the stream of a gateway does what it asks for, and nothing that it does not ask for.
pub proof fn law_stream_item<S, O, E>(
    interceptors: &mut ClnHtlcInterceptor<S, O>,
    item: Result<RouteHtlcRequest, E>,
    sender: S,
    step: RouteStep<S, O>,
)
    requires
        call_ensures(
            ClnRpcService::route_htlcs::<S, O, E>,
            (interceptors, item, sender),
            step,
        ),
    ensures
        match item {
            Err(_) => step is Unreadable && final(interceptors)@ == old(interceptors)@,
            Ok(request) => match request.action {
                None => step is NoAction && final(interceptors)@ == old(interceptors)@,
                Some(RouteHtlcRequestAction::SubscribeRequest(subscribe)) => {
                    &&& step is Subscribed
                    &&& final(interceptors).outcomes@ == old(interceptors).outcomes@
                    &&& final(interceptors).subscriptions@
                        == old(interceptors).subscriptions@.insert(
                        subscribe.short_channel_id,
                        sender,
                    )
                },
                Some(RouteHtlcRequestAction::CompleteRequest(request)) => {
                    let key = (request.incoming_chan_id, request.htlc_id);
                    let waiting = old(interceptors).outcomes@;
                    &&& step matches RouteStep::Completed(result)
                    &&& result is Ok <==> waiting.contains_key(key) && request.action is Some
                    &&& result matches Ok(completion) ==> {
                        &&& completion.outcome == waiting[key]
                        &&& completion.sender == sender
                        &&& match request.action {
                            Some(Action::Settle(settle)) if settle.preimage@.len() == 32 => {
                                &&& completion.reply matches HtlcReply::Resolve { payment_key }
                                &&& payment_key@ == text::hex(settle.preimage@)
                            },
                            _ => {
                                &&& completion.reply matches HtlcReply::Fail { failure_message }
                                &&& failure_message@ == "400f"@
                            },
                        }
                    }
                    &&& result matches Err(status) ==> status.code == Code::Internal
                        && status.message@ == if waiting.contains_key(key) {
                        "No action specified on this intercepted htlc"@
                    } else {
                        "No interceptor reference found for htlc"@
                    }
                    &&& final(interceptors).outcomes@ == waiting.remove(key)
                    &&& final(interceptors).subscriptions@ == old(interceptors).subscriptions@
                },
            },
        },
{
    if let Ok(request) = item {
        if let Some(RouteHtlcRequestAction::CompleteRequest(request)) = request.action {
            if let RouteStep::Completed(result) = step {
                laws::law_interceptor_contents(*old(interceptors));
                laws::law_completion_carries_the_reply(
                    old(interceptors)@,
                    request,
                    sender,
                    result,
                );
            }
        }
    }
}

/// What is passed on of a reply is confirmed to the one who told the outcome, and to nobody else.
pub proof fn law_confirmed_outcome<S>(
    sent: bool,
    sender: S,
    result: Result<(S, RouteHtlcResponse), Status>,
)
    requires
        call_ensures(ClnRpcService::outcome_sent::<S>, (sent, sender), result),
    ensures
        result is Ok <==> sent,
        result matches Ok(message) ==> message.0 == sender
            && message.1.action matches Some(RouteHtlcResponseAction::CompleteResponse(_)),
        result matches Err(status) ==> status.code == Code::Internal && status.message@
            == "Failed to send htlc_accepted response to interceptor"@,
{
}

/// An outcome is passed on as it is. Without one, the HTLC is failed exactly where the chain is not
/// below the height at which it expires, or where the last reading that may fail has failed.
pub proof fn law_waited_for_htlc(deadline: Deadline, outcome: Outcome, result: Waiting)
    requires
        call_ensures(interceptor::outcome_reply, (deadline, outcome), result),
    ensures
        match outcome {
            Outcome::Received(reply) => result == Waiting::Reply(reply),
            Outcome::SenderDropped => result is Reply,
            Outcome::Pending { blockheight: Some(height) } => result is Reply <==> height
                >= deadline.cltv_expiry,
            Outcome::Pending { blockheight: None } => result is Reply <==> deadline.untold <= 1,
        },
        !(outcome is Received) && result is Reply ==> (result matches Waiting::Reply(
            HtlcReply::Fail { failure_message },
        ) && failure_message@ == "400f"@),
        result matches Waiting::Await { deadline: left } ==> {
            &&& outcome matches Outcome::Pending { blockheight }
            &&& left.cltv_expiry == deadline.cltv_expiry
            &&& left.untold == deadline.untold - if blockheight is None {
                1int
            } else {
                0
            }
        },
{
}

/// A short channel id that can be read is packed into one number, and one that cannot be read is
/// named in the error.
pub proof fn law_converted_scid<S, O>(scid: &str, result: Result<u64, String>)
    requires
        call_ensures(ClnHtlcInterceptor::<S, O>::convert_short_channel_id, (scid,), result),
    ensures
        match result {
            Ok(packed) => scid::scid_of_text(scid@) == Some(packed),
            Err(message) => {
                &&& scid::scid_of_text(scid@) is None
                &&& message@ == "Received invalid short channel id: "@ + error::str_debug(scid@)
            },
        },
{
}

/// The number that a short channel id is packed into takes it apart again.
pub proof fn law_packed_scid(id: ShortChannelId, packed: u64)
    requires
        call_ensures(scid::scid_to_u64, (id,), packed),
    ensures
        id.block < 0x100_0000 && id.txindex < 0x100_0000 ==> {
            &&& packed / 0x100_0000_0000 == id.block
            &&& packed / 0x1_0000 % 0x100_0000 == id.txindex
            &&& packed % 0x1_0000 == id.outnum
        },
{
    if id.block < 0x100_0000 && id.txindex < 0x100_0000 {
        let (b, t, o) = (id.block as u64, id.txindex as u64, id.outnum as u64);
        assert(packed / 0x100_0000_0000 == b && packed / 0x1_0000 % 0x100_0000 == t && packed
            % 0x1_0000 == o) by (bit_vector)
            requires
                packed == (b << 40) | (t << 16) | o,
                b < 0x100_0000,
                t < 0x100_0000,
                o < 0x1_0000,
        ;
    }
}

/// An amount field is read as the number before its unit, by both ways of reading it, and an error on
/// the field is handed on.
pub proof fn law_read_amount<E>(
    text: String,
    same: &str,
    err: E,
    number: Seq<u8>,
    unit: Seq<u8>,
    parsed: Option<Amount>,
    field: Result<Amount, E>,
    failed: Result<Amount, E>,
)
    requires
        encode_utf8(text@) == number + unit,
        unit.len() == 4,
        same@ == text@,
        call_ensures(amount::parse_amount, (same,), parsed),
        parsed is Some ==> call_ensures(amount::as_fedimint_amount::<E>, (Ok(text),), field),
        call_ensures(amount::as_fedimint_amount::<E>, (Err(err),), failed),
    ensures
        match text::decimal_u64(number) {
            Some(msats) => {
                &&& parsed == Some(Amount { msats })
                &&& field == Ok::<Amount, E>(Amount { msats })
            },
            None => parsed is None,
        },
        failed == Err::<Amount, E>(err),
{
    amount::law_unit_is_passed_over(text@, number, unit);
}

/// The service runs only where the plugin was started, at the node that started it. It listens where
/// the options say, or else where the plugin option says, unless that was left at its default.
pub proof fn law_started_service<A>(
    started: Result<Option<Configuration>, String>,
    opts: Option<ClnExtensionOpts<A>>,
    option: Option<String>,
    backtrace: &str,
    result: Result<(ClnRpcService, Listen<A>), ClnExtensionError>,
)
    requires
        call_ensures(ClnRpcService::new::<A>, (started, opts, option, backtrace), result),
    ensures
        match result {
            Ok((service, listen)) => {
                &&& started matches Ok(Some(config))
                &&& service.lightning_dir == config.lightning_dir
                &&& service.rpc_file == config.rpc_file
                &&& match listen {
                    Listen::Address(address) => opts matches Some(opts) && opts.listen == address,
                    Listen::Parse(text) => opts is None && option == Some(text) && text@
                        != "default-dont-use"@,
                    Listen::Missing => opts is None && (option matches Some(text) && text@
                        == "default-dont-use"@),
                    Listen::Unreachable => opts is None && option is None,
                }
            },
            Err(ClnExtensionError::Error(detail)) => match started {
                Ok(Some(_)) => false,
                Ok(None) => detail@ == "Failed to start cln plugin"@ + backtrace@,
                Err(err) => detail == err,
            },
            Err(_) => false,
        },
{
}

/// A connection is used as it is, and a failed one is told with its reason.
pub proof fn law_rpc_connection<C>(
    connected: Result<C, String>,
    backtrace: &str,
    result: Result<C, ClnExtensionError>,
)
    requires
        call_ensures(ClnRpcService::rpc_client::<C>, (connected, backtrace), result),
    ensures
        match connected {
            Ok(client) => result == Ok::<C, ClnExtensionError>(client),
            Err(err) => result matches Err(ClnExtensionError::Error(detail)) && detail@
                == "Could not connect to CLN RPC socket: "@ + err@ + backtrace@,
        },
{
}

/// What the node answers when asked for its identity is what the gateway is told: its key byte by
/// byte, and its alias. Every failure on the way is told to the gateway.
pub proof fn law_node_identity(
    reply: Result<Result<Response, RpcError>, ClnExtensionError>,
    info: Result<(NodeId, String), ClnExtensionError>,
    result: Result<GetNodeInfoResponse, Status>,
)
    requires
        call_ensures(ClnRpcService::info, (reply,), info),
        call_ensures(ClnRpcService::get_node_info, (info,), result),
    ensures
        match reply {
            Ok(Ok(Response::Getinfo { id, alias })) => {
                &&& info == Ok::<(NodeId, String), ClnExtensionError>((id, alias))
                &&& result matches Ok(response)
                &&& response.pub_key@.len() == 33
                &&& forall|i: int| 0 <= i < 33 ==> #[trigger] response.pub_key@[i] == id.0[i]
                &&& response.alias == alias
            },
            Ok(Ok(_)) => {
                &&& info == Err::<(NodeId, String), ClnExtensionError>(
                    ClnExtensionError::RpcWrongResponse,
                )
                &&& result matches Err(status)
                &&& status.code == Code::Internal
                &&& status.message@ == "Gateway CLN Extension, CLN RPC Wrong Response"@
            },
            Ok(Err(err)) => {
                &&& info == Err::<(NodeId, String), ClnExtensionError>(
                    ClnExtensionError::RpcError(err),
                )
                &&& result matches Err(status)
                &&& status.code == Code::Internal
                &&& status.message@ == ClnExtensionError::RpcError(err).display()
            },
            Err(err) => {
                &&& info == Err::<(NodeId, String), ClnExtensionError>(err)
                &&& result matches Err(status)
                &&& status.code == Code::Internal
                &&& status.message@ == err.display()
            },
        },
{
}

/// The invoice, the delay and the fee that the gateway names are what the node is asked to pay with,
/// the delay in sixteen bits. Everything else is left to the node.
pub proof fn law_payment_request<F>(request: PayInvoiceRequest<F>, result: PayRequest<F>)
    requires
        call_ensures(PayRequest::<F>::of_invoice, (request,), result),
    ensures
        result.bolt11 == request.invoice,
        result.maxfeepercent == Some(request.max_fee_percent),
        result.maxdelay matches Some(delay) && (request.max_delay - delay) % 0x1_0000 == 0,
        result.amount_msat is None,
        result.label is None,
        result.riskfactor is None,
        result.retry_for is None,
        result.exemptfee is None,
        result.localinvreqid is None,
        result.exclude is None,
        result.maxfee is None,
        result.description is None,
{
}

/// The gateway gets the preimage that the node paid for, byte by byte, or learns why there is none.
pub proof fn law_paid_invoice(
    reply: Result<Result<Response, RpcError>, ClnExtensionError>,
    result: Result<PayInvoiceResponse, Status>,
)
    requires
        call_ensures(ClnRpcService::pay_invoice, (reply,), result),
    ensures
        result is Ok <==> reply matches Ok(Ok(Response::Pay { .. })),
        match reply {
            Ok(Ok(Response::Pay { payment_preimage })) => {
                &&& result matches Ok(response)
                &&& response.preimage@.len() == 32
                &&& forall|i: int|
                    0 <= i < 32 ==> #[trigger] response.preimage@[i] == payment_preimage[i]
            },
            Ok(Ok(_)) => {
                &&& result matches Err(status)
                &&& status.code == Code::Internal
                &&& status.message@ == "Gateway CLN Extension, CLN RPC Wrong Response"@
            },
            Ok(Err(err)) => {
                &&& result matches Err(status)
                &&& status.code == Code::Internal
                &&& status.message@ == match err.code {
                    Some(code) => "Error code "@ + text::signed_decimal(code as int) + ": "@
                        + err.message@,
                    None => "Error: "@ + err.message@,
                }
            },
            Err(err) => {
                &&& result matches Err(status)
                &&& status.code == Code::Internal
                &&& status.message@ == err.display()
            },
        },
{
}

/// An error is shown as what it is: the detail of one that has a detail, the fields of one of the
/// node.
pub proof fn law_shown_error(err: &ClnExtensionError, result: String)
    requires
        call_ensures(ClnExtensionError::to_string, (err,), result),
    ensures
        match *err {
            ClnExtensionError::Error(detail) => result@ == "Gateway CLN Extension Error : "@
                + detail@,
            ClnExtensionError::RpcError(rpc) => result@ == "Gateway CLN Extension Error : "@ + (
            "RpcError { code: "@ + (match rpc.code {
                Some(code) => "Some("@ + text::signed_decimal(code as int) + ")"@,
                None => "None"@,
            }) + ", message: "@ + error::str_debug(rpc.message@) + " }"@),
            ClnExtensionError::RpcWrongResponse => result@
                == "Gateway CLN Extension, CLN RPC Wrong Response"@,
        },
{
    error::law_error_texts(*err);
}

/// A reply is told as what to do and what is needed for it.
pub proof fn law_told_reply(reply: HtlcReply, result: Vec<(String, String)>)
    requires
        call_ensures(HtlcReply::members, (reply,), result),
    ensures
        result@.len() == if reply is Continue {
            1int
        } else {
            2
        },
        result@[0].0@ == "result"@,
        match reply {
            HtlcReply::Continue => result@[0].1@ == "continue"@,
            HtlcReply::Resolve { payment_key } => {
                &&& result@[0].1@ == "resolve"@
                &&& result@[1].0@ == "payment_key"@
                &&& result@[1].1@ == payment_key@
            },
            HtlcReply::Fail { failure_message } => {
                &&& result@[0].1@ == "fail"@
                &&& result@[1].0@ == "failure_message"@
                &&& result@[1].1@ == failure_message@
            },
        },
{
    htlc::law_reply_members(reply, result@);
}

/// A search starts at the node with no route hints, and asks for its peers. Without a node there is no
/// search.
pub proof fn law_started_search(
    node_info: Result<(NodeId, String), ClnExtensionError>,
    result: Result<RouteHintSearch, Status>,
    search: &RouteHintSearch,
    query: Option<Query>,
)
    requires
        call_ensures(ClnRpcService::get_route_hints, (node_info,), result),
        result matches Ok(started) ==> started == *search,
        call_ensures(RouteHintSearch::query, (search,), query),
    ensures
        match node_info {
            Ok((node_id, _)) => {
                &&& result is Ok
                &&& search.node_id == node_id
                &&& search.route_hints@.len() == 0
                &&& query == Some(Query::ListPeers)
            },
            Err(err) => {
                &&& result matches Err(status)
                &&& status.code == Code::Internal
                &&& status.message@ == err.display()
            },
        },
{
}

/// The peers that the node tells set what it is asked about: their active channels, all of them, in
/// order.
pub proof fn law_search_goes_on_with_the_peers(
    search: &mut RouteHintSearch,
    peers: Vec<Peer>,
    result: Result<(), Status>,
)
    requires
        old(search).pending is None,
        call_ensures(
            RouteHintSearch::answer,
            (search, Ok(Ok(Response::ListPeers(peers)))),
            result,
        ),
    ensures
        result is Ok,
        final(search).node_id == old(search).node_id,
        final(search).pending matches Some(channels) && channels@ == route_hints::active(peers@),
        final(search).route_hints@.len() == old(search).route_hints@.len(),
{
    route_hints::law_peers_set_the_channels(*old(search), *final(search), peers);
}

/// The answer about a channel gives the route hint over it: one hop from the peer, by its key byte for
/// byte, on the terms of the first direction that leads to the node, whatever the terms are. Where no
/// direction leads to the node there is no hint. The hints that were there stay in their places.
pub proof fn law_search_goes_on_with_a_channel(
    search: &mut RouteHintSearch,
    pending: VecDeque<(NodeId, ShortChannelId)>,
    channels: Vec<Channel>,
    result: Result<(), Status>,
    k: int,
    h: int,
    p: int,
)
    requires
        old(search).pending == Some(pending),
        pending@.len() > 0,
        call_ensures(
            RouteHintSearch::answer,
            (search, Ok(Ok(Response::ListChannels(channels)))),
            result,
        ),
    ensures
        result is Ok,
        final(search).node_id == old(search).node_id,
        final(search).pending matches Some(left) && left@ == pending@.skip(1),
        (forall|j: int|
            0 <= j < channels@.len() ==> (#[trigger] channels@[j]).destination.0@ != old(search).node_id.0@) ==> final(search).route_hints@.len() == old(search).route_hints@.len(),
        0 <= k < channels@.len() && channels@[k].destination.0@ == old(search).node_id.0@ && (
        forall|j: int|
            0 <= j < k ==> (#[trigger] channels@[j]).destination.0@ != old(search).node_id.0@)
            ==> {
            let hops = final(search).route_hints@[old(search).route_hints@.len() as int].hops@;
            let (peer_id, id) = pending@[0];
            &&& final(search).route_hints@.len() == old(search).route_hints@.len() + 1
            &&& hops.len() == 1
            &&& hops[0].src_node_id@.len() == 33
            &&& forall|i: int| 0 <= i < 33 ==> #[trigger] hops[0].src_node_id@[i] == peer_id.0[i]
            &&& hops[0].short_channel_id == ((id.block as u64) << 40) | ((id.txindex as u64) << 16)
                | (id.outnum as u64)
            &&& hops[0].base_msat == channels@[k].base_fee_millisatoshi
            &&& hops[0].proportional_millionths == channels@[k].fee_per_millionth
            &&& hops[0].cltv_expiry_delta == channels@[k].delay
            &&& hops[0].htlc_minimum_msat == Some(channels@[k].htlc_minimum_msat)
            &&& hops[0].htlc_maximum_msat == channels@[k].htlc_maximum_msat
        },
        0 <= h < old(search).route_hints@.len() && 0 <= p < old(search).route_hints@[h].hops@.len()
            ==> {
            let before = old(search).route_hints@[h].hops@;
            let after = final(search).route_hints@[h].hops@;
            &&& final(search).route_hints@.len() >= old(search).route_hints@.len()
            &&& after.len() == before.len()
            &&& after[p].src_node_id@ == before[p].src_node_id@
            &&& after[p].short_channel_id == before[p].short_channel_id
            &&& after[p].base_msat == before[p].base_msat
            &&& after[p].proportional_millionths == before[p].proportional_millionths
            &&& after[p].cltv_expiry_delta == before[p].cltv_expiry_delta
            &&& after[p].htlc_minimum_msat == before[p].htlc_minimum_msat
            &&& after[p].htlc_maximum_msat == before[p].htlc_maximum_msat
        },
{
    let (before, after) = (*old(search), *final(search));
    route_hints::law_answer_adds_the_hint_over_the_channel(before, after, pending, channels, k);
    if 0 <= h < before.route_hints@.len() && 0 <= p < before.route_hints@[h].hops@.len() {
        let kept = after.route_hints@.take(before.route_hints@.len() as int);
        route_hints::law_contents_of_hints(before.route_hints@, kept, h, p);
        assert(kept[h] == after.route_hints@[h]);
    }
}

/// An answer to something else, an error of the node and a lost connection are told to the gateway, and
/// leave the search as it was.
pub proof fn law_search_is_refused(
    search: &mut RouteHintSearch,
    reply: Result<Result<Response, RpcError>, ClnExtensionError>,
    result: Result<(), Status>,
)
    requires
        call_ensures(RouteHintSearch::answer, (search, reply), result),
    ensures
        match reply {
            Ok(Ok(response)) => {
                let fits = match old(search).pending {
                    None => response is ListPeers,
                    Some(channels) => channels@.len() > 0 && response is ListChannels,
                };
                &&& result is Ok <==> fits
                &&& result matches Err(status) ==> status.code == Code::Internal && status.message@
                    == "Gateway CLN Extension, CLN RPC Wrong Response"@
            },
            Ok(Err(err)) => {
                &&& result matches Err(status)
                &&& status.code == Code::Internal
                &&& status.message@ == match err.code {
                    Some(code) => "Error code "@ + text::signed_decimal(code as int) + ": "@
                        + err.message@,
                    None => "Error: "@ + err.message@,
                }
            },
            Err(err) => {
                &&& result matches Err(status)
                &&& status.code == Code::Internal
                &&& status.message@ == err.display()
            },
        },
        result is Err ==> final(search)@ == old(search)@,
{
    if let Ok(Ok(response)) = reply {
        route_hints::law_only_the_right_answer_counts(*old(search), response);
    }
}

/// The search is over when no channel is left, and what it found is what the gateway gets.
pub proof fn law_finished_search(
    search: RouteHintSearch,
    query: Option<Query>,
    result: GetRouteHintsResponse,
)
    requires
        call_ensures(RouteHintSearch::query, (&search,), query),
        call_ensures(RouteHintSearch::finish, (search,), result),
    ensures
        query is None <==> (search.pending matches Some(channels) && channels@.len() == 0),
        query matches Some(Query::ListChannels { short_channel_id }) ==> (
        search.pending matches Some(channels) && channels@[0].1 == short_channel_id),
        result.route_hints == search.route_hints,
{
}

/// The first bytes of two kinds of records are the same only where the kinds are.
pub proof fn law_kinds_are_told_apart(
    a: &DbKeyPrefix,
    b: &DbKeyPrefix,
    a_byte: u8,
    b_byte: u8,
)
    requires
        call_ensures(DbKeyPrefix::as_u8, (a,), a_byte),
        call_ensures(DbKeyPrefix::as_u8, (b,), b_byte),
    ensures
        a_byte == b_byte <==> *a == *b,
{
}

/// There is nothing to do for a database at the first version.
pub proof fn law_no_migrations<F>(result: db::MigrationMap<F>)
    requires
        call_ensures(db::get_global_database_migrations::<F>, (), result),
    ensures
        result@.dom() == Set::<u64>::empty(),
{
}

} // verus!
