//! The requests of the gateway, and how they are answered.
use vstd::prelude::*;
use vstd::slice::*;
use vstd::string::*;

use crate::error;
use crate::error::{ClnExtensionError, RpcError, Status};
use crate::htlc;
use crate::htlc::HtlcReply;
use crate::interceptor::ClnHtlcInterceptor;
use crate::interceptor;
use crate::messages::{
    Action, CompleteHtlcsRequest, CompleteHtlcsResponse, GetNodeInfoResponse, PayInvoiceResponse,
    RouteHtlcRequest, RouteHtlcRequestAction, RouteHtlcResponse, RouteHtlcResponseAction,
};
use crate::node::{NodeId, Response};
use crate::text;

verus! {

/// How many messages may wait on the stream that goes back to the gateway.
pub const ROUTE_HTLCS_CAPACITY: usize = 100;

/// The options of the extension. `A` is a socket address.
pub struct ClnExtensionOpts<A> {
    /// Gateway CLN extension service listen address
    pub listen: A,
}

/// A client of the node.
pub struct ClnRpcClient {}

/// What the node tells of itself when it starts the plugin.
pub struct Configuration {
    pub lightning_dir: String,
    pub rpc_file: String,
}

/// The service that the gateway talks to. The RPC socket of the node is the file `rpc_file`,
/// seen from the directory `lightning_dir`.
pub struct ClnRpcService {
    pub lightning_dir: String,
    pub rpc_file: String,
}

/// Where the service listens.
pub enum Listen<A> {
    /// At an address that the options gave.
    Address(A),
    /// At the address that the text of the plugin option denotes.
    Parse(String),
    /// Nowhere: the plugin option was left at its default, which is no address.
    Missing,
    /// Nowhere: the plugin option has no text.
    Unreachable,
}

/// The default of the plugin option "listen". It is no valid address, so that the user has to
/// give one.
pub open spec fn listen_default() -> Seq<char> {
    "default-dont-use"@
}

/// The default of the plugin option "listen".
pub fn default_listen() -> (r: String)
    ensures
        r@ == listen_default(),
        r@ == "default-dont-use"@,
{
    "default-dont-use".to_owned()
}

/// An outcome that someone waits for. The reply is handed to them, and
/// [`ClnRpcService::outcome_sent`] says what the gateway is told.
pub struct Completion<S, O> {
    /// Who waits for the outcome.
    pub outcome: O,
    /// The reply that the outcome stands for.
    pub reply: HtlcReply,
    /// The stream that goes back to the gateway that told the outcome.
    pub sender: S,
}

/// What comes of an item on the stream of the gateway.
pub enum RouteStep<S, O> {
    /// The item could not be read, and is passed over.
    Unreadable,
    /// The gateway was subscribed.
    Subscribed,
    /// The gateway told an outcome: what it sets off, or why it is refused.
    Completed(Result<Completion<S, O>, Status>),
    /// The item asked for nothing, and is passed over.
    NoAction,
}

/// The reply that settles an HTLC: a preimage of 32 bytes claims it, anything else fails it.
pub open spec fn settlement(preimage: Seq<u8>) -> htlc::HtlcReplyView {
    if preimage.len() == 32 {
        htlc::HtlcReplyView::Resolve(text::hex(preimage))
    } else {
        htlc::processing_failure()
    }
}

/// The reply that an action of the gateway stands for.
pub open spec fn action_reply(action: Action) -> htlc::HtlcReplyView {
    match action {
        Action::Settle(settle) => settlement(settle.preimage@),
        Action::Cancel(_) => htlc::processing_failure(),
    }
}

/// The HTLC that an outcome is about.
pub open spec fn completion_key(request: CompleteHtlcsRequest) -> (u64, u64) {
    (request.incoming_chan_id, request.htlc_id)
}

/// What comes of an outcome: who waits for it and the reply they get, or the message of the
/// error.
pub open spec fn completion<S, O>(
    state: interceptor::InterceptorState<S, O>,
    request: CompleteHtlcsRequest,
) -> Result<(O, htlc::HtlcReplyView), Seq<char>> {
    let key = completion_key(request);
    if !state.outcomes.contains_key(key) {
        Err("No interceptor reference found for htlc"@)
    } else {
        match request.action {
            Some(action) => Ok((state.outcomes[key], action_reply(action))),
            None => Err("No action specified on this intercepted htlc"@),
        }
    }
}

/// Whether a result is what comes of an outcome that was told on a stream.
pub open spec fn is_completion<S, O>(
    r: Result<Completion<S, O>, Status>,
    expected: Result<(O, htlc::HtlcReplyView), Seq<char>>,
    sender: S,
) -> bool {
    match expected {
        Ok((outcome, reply)) => {
            &&& r matches Ok(completion)
            &&& completion.outcome == outcome
            &&& completion.reply@ == reply
            &&& completion.sender == sender
        },
        Err(message) => r matches Err(status) && status.is_internal(message),
    }
}

/// The message that confirms an outcome.
pub open spec fn complete_response() -> RouteHtlcResponse {
    RouteHtlcResponse {
        action: Some(RouteHtlcResponseAction::CompleteResponse(CompleteHtlcsResponse {  })),
    }
}

/// What the gateway is told after the reply was handed on, and on which stream, or the message
/// of the error.
pub open spec fn confirmation<S>(sent: bool, sender: S) -> Result<
    (S, RouteHtlcResponse),
    Seq<char>,
> {
    if sent {
        Ok((sender, complete_response()))
    } else {
        Err("Failed to send htlc_accepted response to interceptor"@)
    }
}

impl ClnRpcService {
    /// Sets up the service after the plugin was started, with the options of the extension
    /// where they could be read, and the text of the plugin option "listen" where it has one.
    /// `backtrace` is shown behind the message of an error; it is empty unless the environment
    /// asks for backtraces.
    pub fn new<A>(
        started: Result<Option<Configuration>, String>,
        opts: Option<ClnExtensionOpts<A>>,
        option: Option<String>,
        backtrace: &str,
    ) -> (r: Result<(ClnRpcService, Listen<A>), ClnExtensionError>)
        ensures
            match started {
                Ok(Some(config)) => {
                    &&& r matches Ok(up)
                    &&& up.0 == (ClnRpcService {
                        lightning_dir: config.lightning_dir,
                        rpc_file: config.rpc_file,
                    })
                    &&& up.1 == (match opts {
                        Some(opts) => Listen::Address(opts.listen),
                        None => match option {
                            Some(listen) => if listen@ == "default-dont-use"@ {
                                Listen::Missing
                            } else {
                                Listen::Parse(listen)
                            },
                            None => Listen::Unreachable,
                        },
                    })
                },
                Ok(None) => r matches Err(ClnExtensionError::Error(detail)) && detail@
                    == "Failed to start cln plugin"@ + backtrace@,
                Err(err) => r == Err::<(ClnRpcService, Listen<A>), ClnExtensionError>(
                    ClnExtensionError::Error(err),
                ),
            },
    {
        let config = match started {
            Ok(Some(config)) => config,
            Ok(None) => return Err(
                ClnExtensionError::Error("Failed to start cln plugin".to_owned().concat(backtrace)),
            ),
            Err(err) => return Err(ClnExtensionError::Error(err)),
        };
        let listen = match opts {
            Some(opts) => Listen::Address(opts.listen),
            None => match option {
                Some(listen) => if listen == default_listen() {
                    Listen::Missing
                } else {
                    Listen::Parse(listen)
                },
                None => Listen::Unreachable,
            },
        };
        let service = ClnRpcService {
            lightning_dir: config.lightning_dir,
            rpc_file: config.rpc_file,
        };
        Ok((service, listen))
    }

    /// Creates a new RPC client for a request, given what connecting to the socket came to.
    ///
    /// This operation is cheap enough to do it for each request since it merely
    /// connects to a UNIX domain socket without doing any further
    /// initialization.
    ///
    /// `backtrace` is shown behind the message of an error; it is empty unless the environment
    /// asks for backtraces.
    pub fn rpc_client<C>(connected: Result<C, String>, backtrace: &str) -> (r: Result<
        C,
        ClnExtensionError,
    >)
        ensures
            match connected {
                Ok(client) => r == Ok::<C, ClnExtensionError>(client),
                Err(err) => r matches Err(ClnExtensionError::Error(detail)) && detail@
                    == "Could not connect to CLN RPC socket: "@ + err@ + backtrace@,
            },
    {
        match connected {
            Ok(client) => Ok(client),
            Err(err) => Err(
                ClnExtensionError::Error(
                    "Could not connect to CLN RPC socket: ".to_owned().concat(err.as_str()).concat(
                        backtrace,
                    ),
                ),
            ),
        }
    }

    /// The public key and the alias of the node, given what it answered when asked for them, or
    /// why it could not be asked.
    pub fn info(reply: Result<Result<Response, RpcError>, ClnExtensionError>) -> (r: Result<
        (NodeId, String),
        ClnExtensionError,
    >)
        ensures
            r == (match reply {
                Ok(Ok(Response::Getinfo { id, alias })) => Ok((id, alias)),
                Ok(Ok(_)) => Err(ClnExtensionError::RpcWrongResponse),
                Ok(Err(err)) => Err(ClnExtensionError::RpcError(err)),
                Err(err) => Err(err),
            }),
    {
        match reply {
            Ok(Ok(Response::Getinfo { id, alias })) => Ok((id, alias)),
            Ok(Ok(_)) => Err(ClnExtensionError::RpcWrongResponse),
            Ok(Err(err)) => Err(ClnExtensionError::RpcError(err)),
            Err(err) => Err(err),
        }
    }

    /// Tells the gateway the identity of the node.
    pub fn get_node_info(info: Result<(NodeId, String), ClnExtensionError>) -> (r: Result<
        GetNodeInfoResponse,
        Status,
    >)
        ensures
            match info {
                Ok((pub_key, alias)) => r matches Ok(response) && response.pub_key@ == pub_key@
                    && response.pub_key@ == pub_key.0@ && response.alias == alias,
                Err(err) => r matches Err(status) && status.is_internal(err.display()),
            },
    {
        match info {
            Ok((pub_key, alias)) => Ok(
                GetNodeInfoResponse { pub_key: slice_to_vec(pub_key.0.as_slice()), alias },
            ),
            Err(err) => Err(Status::of_extension_error(&err)),
        }
    }

    /// Tells the gateway how paying an invoice went, given what the node answered when asked to
    /// pay it, or why it could not be asked.
    pub fn pay_invoice(reply: Result<Result<Response, RpcError>, ClnExtensionError>) -> (r: Result<
        PayInvoiceResponse,
        Status,
    >)
        ensures
            match reply {
                Ok(Ok(Response::Pay { payment_preimage })) => r matches Ok(response)
                    && response.preimage@ == payment_preimage@,
                Ok(Ok(_)) => r matches Err(status) && status.is_internal(error::wrong_response()),
                Ok(Err(err)) => r matches Err(status) && status.is_internal(
                    error::rpc_error_display(err.code, err.message@),
                ),
                Err(err) => r matches Err(status) && status.is_internal(err.display()),
            },
    {
        match reply {
            Ok(Ok(Response::Pay { payment_preimage })) => Ok(
                PayInvoiceResponse { preimage: slice_to_vec(payment_preimage.as_slice()) },
            ),
            Ok(Ok(_)) => Err(Status::of_extension_error(&ClnExtensionError::RpcWrongResponse)),
            Ok(Err(err)) => Err(Status::of_rpc_error(&err)),
            Err(err) => Err(Status::of_extension_error(&err)),
        }
    }

    /// Decides on an outcome that the gateway tells, and is to be answered with `sender`. Whoever
    /// waits for it is no longer registered then, also where the request names no action.
    pub fn complete_htlc<S, O>(
        complete_request: CompleteHtlcsRequest,
        interceptors: &mut ClnHtlcInterceptor<S, O>,
        sender: S,
    ) -> (r: Result<Completion<S, O>, Status>)
        ensures
            final(interceptors)@ == old(interceptors)@.completed(completion_key(complete_request)),
            is_completion(r, completion(old(interceptors)@, complete_request), sender),
            final(interceptors).subscriptions@ == old(interceptors).subscriptions@,
            final(interceptors).outcomes@ == old(interceptors).outcomes@.remove(
                (complete_request.incoming_chan_id, complete_request.htlc_id),
            ),
            match r {
                Ok(completion) => {
                    &&& old(interceptors).outcomes@.contains_key(
                        (complete_request.incoming_chan_id, complete_request.htlc_id),
                    )
                    &&& completion.outcome
                        == old(interceptors).outcomes@[(complete_request.incoming_chan_id, complete_request.htlc_id)]
                    &&& completion.sender == sender
                    &&& complete_request.action is Some
                    &&& match complete_request.action {
                        Some(Action::Settle(settle)) if settle.preimage@.len() == 32 => {
                            &&& completion.reply matches HtlcReply::Resolve { payment_key }
                            &&& payment_key@ == text::hex(settle.preimage@)
                        },
                        _ => {
                            &&& completion.reply matches HtlcReply::Fail { failure_message }
                            &&& failure_message@ == "400f"@
                        },
                    }
                },
                Err(status) => status.code == error::Code::Internal && status.message@ == (
                if old(interceptors).outcomes@.contains_key(
                    (complete_request.incoming_chan_id, complete_request.htlc_id),
                ) {
                    "No action specified on this intercepted htlc"@
                } else {
                    "No interceptor reference found for htlc"@
                }),
            },
            r is Ok <==> complete_request.action is Some
                && old(interceptors).outcomes@.contains_key(
                (complete_request.incoming_chan_id, complete_request.htlc_id),
            ),
    {
        let CompleteHtlcsRequest { action, incoming_chan_id, htlc_id } = complete_request;
        match interceptors.take_outcome((incoming_chan_id, htlc_id)) {
            Some(outcome) => {
                // Translate action request into a cln rpc response for
                // `htlc_accepted` event
                let reply = match action {
                    Some(Action::Settle(settle)) => {
                        if settle.preimage.len() == 32 {
                            HtlcReply::Resolve {
                                payment_key: text::to_hex(settle.preimage.as_slice()),
                            }
                        } else {
                            htlc::htlc_processing_failure()
                        }
                    },
                    Some(Action::Cancel(_)) => htlc::htlc_processing_failure(),
                    None => return Err(
                        Status::internal("No action specified on this intercepted htlc".to_owned()),
                    ),
                };
                Ok(Completion { outcome, reply, sender })
            },
            None => Err(Status::internal("No interceptor reference found for htlc".to_owned())),
        }
    }

    /// Goes on after the reply to an HTLC was handed to the one who waits for it, or could not
    /// be: what the gateway is told and on which stream, or how its request failed.
    pub fn outcome_sent<S>(sent: bool, sender: S) -> (r: Result<(S, RouteHtlcResponse), Status>)
        ensures
            match confirmation(sent, sender) {
                Ok(message) => r == Ok::<(S, RouteHtlcResponse), Status>(message),
                Err(message) => r matches Err(status) && status.is_internal(message),
            },
            match r {
                Ok((stream, response)) => {
                    &&& sent
                    &&& stream == sender
                    &&& response.action matches Some(RouteHtlcResponseAction::CompleteResponse(_))
                },
                Err(status) => {
                    &&& !sent
                    &&& status.code == error::Code::Internal
                    &&& status.message@ == "Failed to send htlc_accepted response to interceptor"@
                },
            },
    {
        if sent {
            let response = RouteHtlcResponse {
                action: Some(RouteHtlcResponseAction::CompleteResponse(CompleteHtlcsResponse {  })),
            };
            Ok((sender, response))
        } else {
            Err(Status::internal("Failed to send htlc_accepted response to interceptor".to_owned()))
        }
    }

    /// Takes one item from the stream of a gateway. A subscription goes to the sender of that
    /// gateway, and an outcome is confirmed with it.
    pub fn route_htlcs<S, O, E>(
        interceptors: &mut ClnHtlcInterceptor<S, O>,
        item: Result<RouteHtlcRequest, E>,
        gatewayd_sender: S,
    ) -> (r: RouteStep<S, O>)
        ensures
            match item {
                Ok(RouteHtlcRequest {
                    action: Some(RouteHtlcRequestAction::SubscribeRequest(request)),
                }) => {
                    &&& r is Subscribed
                    &&& final(interceptors)@ == old(interceptors)@.subscribed(
                        request.short_channel_id,
                        gatewayd_sender,
                    )
                    &&& final(interceptors).subscriptions@
                        == old(interceptors).subscriptions@.insert(
                        request.short_channel_id,
                        gatewayd_sender,
                    )
                    &&& final(interceptors).outcomes@ == old(interceptors).outcomes@
                },
                Ok(RouteHtlcRequest {
                    action: Some(RouteHtlcRequestAction::CompleteRequest(request)),
                }) => {
                    &&& r matches RouteStep::Completed(answer)
                    &&& is_completion(
                        answer,
                        completion(old(interceptors)@, request),
                        gatewayd_sender,
                    )
                    &&& final(interceptors)@ == old(interceptors)@.completed(
                        completion_key(request),
                    )
                    &&& final(interceptors).subscriptions@ == old(interceptors).subscriptions@
                    &&& final(interceptors).outcomes@ == old(interceptors).outcomes@.remove(
                        (request.incoming_chan_id, request.htlc_id),
                    )
                    &&& answer is Ok <==> request.action is Some
                        && old(interceptors).outcomes@.contains_key(
                        (request.incoming_chan_id, request.htlc_id),
                    )
                    &&& answer matches Ok(completion) ==> {
                        &&& completion.outcome
                            == old(interceptors).outcomes@[(request.incoming_chan_id, request.htlc_id)]
                        &&& completion.sender == gatewayd_sender
                        &&& match request.action {
                            Some(Action::Settle(settle)) if settle.preimage@.len() == 32 => {
                                &&& completion.reply matches HtlcReply::Resolve { payment_key }
                                &&& payment_key@ == text::hex(settle.preimage@)
                            },
                            _ => {
                                &&& completion.reply matches HtlcReply::Fail { failure_message }
                                &&& failure_message@ == "400f"@
                            },
                        }
                    }
                },
                Ok(RouteHtlcRequest { action: None }) => {
                    &&& r is NoAction
                    &&& final(interceptors)@ == old(interceptors)@
                },
                Err(_) => {
                    &&& r is Unreadable
                    &&& final(interceptors)@ == old(interceptors)@
                },
            },
    {
        match item {
            Ok(request) => match request.action {
                Some(RouteHtlcRequestAction::SubscribeRequest(subscribe_request)) => {
                    interceptors.subscribe(subscribe_request.short_channel_id, gatewayd_sender);
                    RouteStep::Subscribed
                },
                Some(RouteHtlcRequestAction::CompleteRequest(complete_request)) => {
                    RouteStep::Completed(
                        Self::complete_htlc(complete_request, interceptors, gatewayd_sender),
                    )
                },
                None => RouteStep::NoAction,
            },
            Err(_) => RouteStep::Unreadable,
        }
    }
}

} // verus!
