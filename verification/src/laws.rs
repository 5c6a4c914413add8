//! What holds of the interceptor over any course of events.
use vstd::prelude::*;

use crate::deadline::Deadline;
use crate::error::{Code, Status};
use crate::htlc;
use crate::htlc::{Htlc, HtlcAccepted, HtlcReply};
use crate::interceptor;
use crate::interceptor::{
    ClnHtlcInterceptor, InterceptorState, Outcome, Waiting, WaitingView,
};
use crate::messages::{
    Action, CompleteHtlcsRequest, RouteHtlcRequest, RouteHtlcRequestAction, RouteHtlcResponse,
    RouteHtlcResponseAction,
};
use crate::scid;
use crate::service;
use crate::service::Completion;
use crate::text;

verus! {

/// What changes an interceptor.
pub enum Event<S, O> {
    /// A gateway subscribed to a short channel id.
    Subscribed(u64, S),
    /// An HTLC was sent to the gateway.
    Forwarded((u64, u64), O),
    /// The gateway told the outcome of an HTLC.
    Completed((u64, u64)),
}

impl<S, O> Event<S, O> {
    /// Whether the event changes who waits for the outcome of an HTLC.
    pub open spec fn is_about(self, key: (u64, u64)) -> bool {
        match self {
            Event::Subscribed(_, _) => false,
            Event::Forwarded(k, _) => k == key,
            Event::Completed(k) => k == key,
        }
    }

    /// Whether the event changes who gets the HTLCs of a short channel id.
    pub open spec fn subscribes(self, short_channel_id: u64) -> bool {
        self matches Event::Subscribed(id, _) && id == short_channel_id
    }
}

impl<S, O> InterceptorState<S, O> {
    /// After one event.
    pub open spec fn after(self, event: Event<S, O>) -> Self {
        match event {
            Event::Subscribed(id, subscription) => self.subscribed(id, subscription),
            Event::Forwarded(key, outcome) => self.forwarded(key, outcome),
            Event::Completed(key) => self.completed(key),
        }
    }

    /// After a course of events.
    pub open spec fn run(self, events: Seq<Event<S, O>>) -> Self
        decreases events.len(),
    {
        if events.len() == 0 {
            self
        } else {
            self.run(events.drop_last()).after(events.last())
        }
    }
}

/// Whether the event at a position sent an HTLC to the gateway, with the given one waiting for
/// its outcome, and no later event is about that HTLC.
pub open spec fn latest_forward<S, O>(
    events: Seq<Event<S, O>>,
    key: (u64, u64),
    outcome: O,
    i: int,
) -> bool {
    &&& 0 <= i < events.len()
    &&& events[i] == Event::<S, O>::Forwarded(key, outcome)
    &&& forall|j: int| i < j < events.len() ==> !(#[trigger] events[j]).is_about(key)
}

/// Someone waits for the outcome of an HTLC exactly where it was sent to the gateway and its
/// outcome was not told since, and it is the one of the latest sending.
pub proof fn law_waiting_since_the_latest_forward<S, O>(
    events: Seq<Event<S, O>>,
    key: (u64, u64),
    outcome: O,
)
    ensures
        ({
            let outcomes = InterceptorState::<S, O>::init().run(events).outcomes;
            outcomes.contains_key(key) && outcomes[key] == outcome
        }) <==> exists|i: int| latest_forward(events, key, outcome, i),
    decreases events.len(),
{
    if events.len() > 0 {
        let front = events.drop_last();
        let last = events.last();
        law_waiting_since_the_latest_forward(front, key, outcome);
        assert(events[events.len() - 1] == last);
        if last == Event::<S, O>::Forwarded(key, outcome) {
            assert(latest_forward(events, key, outcome, events.len() - 1));
        } else if !last.is_about(key) {
            assert forall|i: int|
                latest_forward(front, key, outcome, i) <==> latest_forward(
                    events,
                    key,
                    outcome,
                    i,
                ) by {
                assert(forall|j: int| 0 <= j < front.len() ==> front[j] == #[trigger] events[j]);
                assert(forall|j: int| 0 <= j < front.len() ==> #[trigger] front[j] == events[j]);
            }
        }
    }
}

/// Whether the event at a position subscribed to a short channel id, and no later event did.
pub open spec fn latest_subscription<S, O>(
    events: Seq<Event<S, O>>,
    short_channel_id: u64,
    subscription: S,
    i: int,
) -> bool {
    &&& 0 <= i < events.len()
    &&& events[i] == Event::<S, O>::Subscribed(short_channel_id, subscription)
    &&& forall|j: int|
        i < j < events.len() ==> !(#[trigger] events[j]).subscribes(short_channel_id)
}

/// The HTLCs of a short channel id go to the latest subscription to it.
pub proof fn law_latest_subscription<S, O>(
    events: Seq<Event<S, O>>,
    short_channel_id: u64,
    subscription: S,
)
    ensures
        ({
            let subscriptions = InterceptorState::<S, O>::init().run(events).subscriptions;
            subscriptions.contains_key(short_channel_id) && subscriptions[short_channel_id]
                == subscription
        }) <==> exists|i: int| latest_subscription(events, short_channel_id, subscription, i),
    decreases events.len(),
{
    if events.len() > 0 {
        let front = events.drop_last();
        let last = events.last();
        law_latest_subscription(front, short_channel_id, subscription);
        assert(events[events.len() - 1] == last);
        if last == Event::<S, O>::Subscribed(short_channel_id, subscription) {
            assert(latest_subscription(events, short_channel_id, subscription, events.len() - 1));
        } else if !last.subscribes(short_channel_id) {
            assert forall|i: int|
                latest_subscription(front, short_channel_id, subscription, i)
                    <==> latest_subscription(events, short_channel_id, subscription, i) by {
                assert(forall|j: int| 0 <= j < front.len() ==> front[j] == #[trigger] events[j]);
                assert(forall|j: int| 0 <= j < front.len() ==> #[trigger] front[j] == events[j]);
            }
        }
    }
}

/// An HTLC that ends at this node, or whose channels cannot be read, is never passed to a
/// gateway, and neither is one whose channel nobody subscribed to.
pub proof fn law_only_subscribed_htlcs_are_intercepted<S, O>(
    state: InterceptorState<S, O>,
    payload: HtlcAccepted,
)
    ensures
        state.route(payload) is Some <==> {
            &&& payload.onion.short_channel_id matches Some(outgoing)
            &&& scid::scid_of_text(outgoing@) matches Some(id)
            &&& state.subscriptions.contains_key(id)
            &&& scid::scid_of_text(payload.htlc.short_channel_id@) is Some
        },
        InterceptorState::<S, O>::init().route(payload) is None,
{
}

/// After a subscription, an HTLC over that channel is passed to it.
pub proof fn law_subscription_takes_effect<S, O>(
    state: InterceptorState<S, O>,
    payload: HtlcAccepted,
    short_channel_id: u64,
    incoming_chan_id: u64,
    subscription: S,
)
    requires
        payload.onion.short_channel_id matches Some(outgoing) && scid::scid_of_text(outgoing@)
            == Some(short_channel_id),
        scid::scid_of_text(payload.htlc.short_channel_id@) == Some(incoming_chan_id),
    ensures
        state.subscribed(short_channel_id, subscription).route(payload) == Some(
            (short_channel_id, incoming_chan_id),
        ),
        state.subscribed(short_channel_id, subscription).subscriptions[short_channel_id]
            == subscription,
{
}

/// The outcome that the gateway tells of an HTLC that was sent to it reaches the one who waits
/// for it.
pub proof fn law_told_outcome_reaches_the_waiting<S, O>(
    state: InterceptorState<S, O>,
    outcome: O,
    request: CompleteHtlcsRequest,
    action: Action,
)
    requires
        request.action == Some(action),
    ensures
        service::completion(
            state.forwarded(service::completion_key(request), outcome),
            request,
        ) == Ok::<(O, htlc::HtlcReplyView), Seq<char>>((outcome, service::action_reply(action))),
{
}

/// The pair of ids that an HTLC is announced to the gateway with is the pair that its outcome
/// is told under.
pub proof fn law_announced_htlc_can_be_completed<S, O>(
    state: InterceptorState<S, O>,
    payload: HtlcAccepted,
    response: RouteHtlcResponse,
    short_channel_id: u64,
    incoming_chan_id: u64,
    outcome: O,
    request: CompleteHtlcsRequest,
    action: Action,
)
    requires
        interceptor::announces(response, payload, short_channel_id, incoming_chan_id),
        response.action matches Some(RouteHtlcResponseAction::SubscribeResponse(htlc))
            && request.incoming_chan_id == htlc.incoming_chan_id && request.htlc_id == htlc.htlc_id,
        request.action == Some(action),
    ensures
        service::completion(
            state.forwarded((incoming_chan_id, payload.htlc.id), outcome),
            request,
        ) == Ok::<(O, htlc::HtlcReplyView), Seq<char>>((outcome, service::action_reply(action))),
{
    law_told_outcome_reaches_the_waiting(state, outcome, request, action);
}

/// The messages that one item on the stream of a gateway sets off, each with the stream that it
/// goes out on. `sent` says whether the reply could be handed to the one who waits for it, where
/// there is one.
pub open spec fn messages_after<S, O>(
    state: InterceptorState<S, O>,
    request: RouteHtlcRequest,
    gatewayd_sender: S,
    sent: bool,
) -> Seq<(S, RouteHtlcResponse)> {
    match request.action {
        Some(RouteHtlcRequestAction::CompleteRequest(request)) => match service::completion(
            state,
            request,
        ) {
            Ok(_) => match service::confirmation(sent, gatewayd_sender) {
                Ok(message) => seq![message],
                Err(_) => Seq::empty(),
            },
            Err(_) => Seq::empty(),
        },
        _ => Seq::empty(),
    }
}

/// An outcome is confirmed once, on the stream that it was told on, and nowhere else: not on the
/// stream that the HTLC was announced on, where that is another. The one who waits for the
/// outcome gets it.
pub proof fn law_outcome_is_confirmed_where_it_was_told<S, O>(
    state: InterceptorState<S, O>,
    payload: HtlcAccepted,
    response: RouteHtlcResponse,
    short_channel_id: u64,
    incoming_chan_id: u64,
    outcome: O,
    request: CompleteHtlcsRequest,
    action: Action,
    told_on: S,
)
    requires
        interceptor::announces(response, payload, short_channel_id, incoming_chan_id),
        response.action matches Some(RouteHtlcResponseAction::SubscribeResponse(htlc))
            && request.incoming_chan_id == htlc.incoming_chan_id && request.htlc_id == htlc.htlc_id,
        request.action == Some(action),
    ensures
        ({
            let waiting = state.forwarded((incoming_chan_id, payload.htlc.id), outcome);
            let item = RouteHtlcRequest {
                action: Some(RouteHtlcRequestAction::CompleteRequest(request)),
            };
            let messages = messages_after(waiting, item, told_on, true);
            &&& service::completion(waiting, request) == Ok::<
                (O, htlc::HtlcReplyView),
                Seq<char>,
            >((outcome, service::action_reply(action)))
            &&& messages == seq![(told_on, service::complete_response())]
            &&& forall|announced_on: S, message: RouteHtlcResponse|
                announced_on != told_on ==> !#[trigger] messages.contains((announced_on, message))
        }),
{
    law_announced_htlc_can_be_completed(
        state,
        payload,
        response,
        short_channel_id,
        incoming_chan_id,
        outcome,
        request,
        action,
    );
}

/// Only an outcome that reached the one who waits for it is confirmed. Nothing else on the stream
/// of a gateway is answered.
pub proof fn law_only_delivered_outcomes_are_confirmed<S, O>(
    state: InterceptorState<S, O>,
    request: RouteHtlcRequest,
    gatewayd_sender: S,
    sent: bool,
)
    ensures
        messages_after(state, request, gatewayd_sender, sent).len() <= 1,
        messages_after(state, request, gatewayd_sender, sent).len() == 1 <==> {
            &&& sent
            &&& request.action matches Some(RouteHtlcRequestAction::CompleteRequest(told))
            &&& told.action is Some
            &&& state.outcomes.contains_key(service::completion_key(told))
        },
{
}

/// What comes of what is known, one time after the other, of the outcome of an HTLC.
pub open spec fn wait(deadline: Deadline, course: Seq<Outcome>) -> WaitingView
    decreases course.len(),
{
    if course.len() == 0 {
        WaitingView::Await(deadline)
    } else {
        match interceptor::answered(deadline, course[0]) {
            WaitingView::Await(deadline) => wait(deadline, course.drop_first()),
            reply => reply,
        }
    }
}

/// Whether there is no outcome yet, and no height was read at which the HTLC has expired.
pub open spec fn in_time(deadline: Deadline, outcome: Outcome) -> bool {
    &&& outcome matches Outcome::Pending { blockheight }
    &&& blockheight matches Some(height) ==> !deadline.expired(height)
}

/// How often the height of the chain could not be read.
pub open spec fn untold(course: Seq<Outcome>) -> nat
    decreases course.len(),
{
    if course.len() == 0 {
        0
    } else {
        untold(course.drop_first()) + if course[0] == (Outcome::Pending { blockheight: None }) {
            1nat
        } else {
            0
        }
    }
}

/// Whether there is still time after a course: no outcome, no height at which the HTLC has expired,
/// and failed readings left, where there were any.
pub open spec fn still_time(deadline: Deadline, course: Seq<Outcome>) -> bool {
    &&& forall|i: int| 0 <= i < course.len() ==> in_time(deadline, #[trigger] course[i])
    &&& untold(course) == 0 || untold(course) < deadline.untold
}

/// The wait goes on exactly as long as there is still time, and readings that succeed do not
/// shorten it.
pub proof fn law_wait_goes_on_while_there_is_time(deadline: Deadline, course: Seq<Outcome>)
    ensures
        still_time(deadline, course) ==> wait(deadline, course) == WaitingView::Await(
            Deadline {
                cltv_expiry: deadline.cltv_expiry,
                untold: (deadline.untold - untold(course)) as u64,
            },
        ),
        !still_time(deadline, course) ==> wait(deadline, course) is Reply,
    decreases course.len(),
{
    if course.len() > 0 {
        let first = course[0];
        let rest = course.drop_first();
        assert(forall|i: int| 0 <= i < rest.len() ==> #[trigger] rest[i] == course[i + 1]);
        assert(forall|i: int| 1 <= i < course.len() ==> #[trigger] course[i] == rest[i - 1]);
        if let WaitingView::Await(left) = interceptor::answered(deadline, first) {
            law_wait_goes_on_while_there_is_time(left, rest);
            assert(in_time(deadline, first));
            assert(still_time(deadline, course) <==> still_time(left, rest)) by {
                assert(forall|o: Outcome| in_time(deadline, o) <==> in_time(left, o));
                if still_time(left, rest) {
                    assert forall|i: int| 0 <= i < course.len() implies in_time(
                        deadline,
                        #[trigger] course[i],
                    ) by {
                        if i > 0 {
                            assert(in_time(left, rest[i - 1]));
                        }
                    }
                }
                if still_time(deadline, course) {
                    assert forall|i: int| 0 <= i < rest.len() implies in_time(
                        left,
                        #[trigger] rest[i],
                    ) by {
                        assert(in_time(deadline, course[i + 1]));
                    }
                }
            }
        } else if still_time(deadline, course) {
            assert(in_time(deadline, first));
        }
    }
}

/// An outcome that the gateway tells while there is still time is the reply, however long it took.
/// The automatic failure comes with the first height that is read at which the HTLC has expired.
pub proof fn law_gateway_has_until_the_expiry(
    deadline: Deadline,
    course: Seq<Outcome>,
    told: HtlcReply,
    blockheight: u32,
)
    requires
        still_time(deadline, course),
        deadline.expired(blockheight),
    ensures
        wait(deadline, course) is Await,
        wait(deadline, course.push(Outcome::Received(told))) == WaitingView::Reply(told@),
        wait(deadline, course.push(Outcome::Pending { blockheight: Some(blockheight) }))
            == WaitingView::Reply(htlc::processing_failure()),
{
    law_wait_goes_on_while_there_is_time(deadline, course);
    lemma_wait_push(deadline, course, Outcome::Received(told));
    lemma_wait_push(deadline, course, Outcome::Pending { blockheight: Some(blockheight) });
}

/// The wait ends also where the height of the chain cannot be read: every course with as many
/// failed readings as fit in the time to the expiry has a reply, and at least one is enough where
/// none fits. Without an outcome, that reply is the automatic failure.
pub proof fn law_wait_ends_without_a_height(deadline: Deadline, course: Seq<Outcome>)
    requires
        untold(course) >= 1,
        untold(course) >= deadline.untold,
    ensures
        wait(deadline, course) is Reply,
        (forall|i: int| 0 <= i < course.len() ==> #[trigger] course[i] is Pending) ==> wait(
            deadline,
            course,
        ) == WaitingView::Reply(htlc::processing_failure()),
{
    law_wait_goes_on_while_there_is_time(deadline, course);
    if forall|i: int| 0 <= i < course.len() ==> #[trigger] course[i] is Pending {
        lemma_pending_fails(deadline, course);
    }
}

/// Readings alone never claim an HTLC, nor let it go on.
proof fn lemma_pending_fails(deadline: Deadline, course: Seq<Outcome>)
    requires
        forall|i: int| 0 <= i < course.len() ==> #[trigger] course[i] is Pending,
    ensures
        wait(deadline, course) matches WaitingView::Reply(reply) ==> reply
            == htlc::processing_failure(),
    decreases course.len(),
{
    if course.len() > 0 {
        assert(course[0] is Pending);
        if let WaitingView::Await(left) = interceptor::answered(deadline, course[0]) {
            let rest = course.drop_first();
            assert(forall|i: int| 0 <= i < rest.len() ==> #[trigger] rest[i] == course[i + 1]);
            lemma_pending_fails(left, rest);
        }
    }
}

/// What comes of one thing more, while the wait goes on.
proof fn lemma_wait_push(deadline: Deadline, course: Seq<Outcome>, next: Outcome)
    requires
        wait(deadline, course) is Await,
    ensures
        wait(deadline, course.push(next)) == (match wait(deadline, course) {
            WaitingView::Await(left) => interceptor::answered(left, next),
            reply => reply,
        }),
    decreases course.len(),
{
    if course.len() == 0 {
        reveal_with_fuel(wait, 2);
    } else {
        if let WaitingView::Await(left) = interceptor::answered(deadline, course[0]) {
            lemma_wait_push(left, course.drop_first(), next);
            assert(course.push(next).drop_first() =~= course.drop_first().push(next));
        }
        assert(course.push(next)[0] == course[0]);
    }
}

/// The outcome of an HTLC is taken once. Whatever the gateway tells of it after that is refused,
/// and changes nothing.
pub proof fn law_outcome_is_taken_once<S, O>(
    state: InterceptorState<S, O>,
    first: CompleteHtlcsRequest,
    second: CompleteHtlcsRequest,
)
    requires
        service::completion_key(first) == service::completion_key(second),
    ensures
        service::completion(state.completed(service::completion_key(first)), second) == Err::<
            (O, htlc::HtlcReplyView),
            Seq<char>,
        >("No interceptor reference found for htlc"@),
        state.completed(service::completion_key(first)).completed(
            service::completion_key(second),
        ) == state.completed(service::completion_key(first)),
{
    let key = service::completion_key(first);
    assert(state.outcomes.remove(key).remove(key) =~= state.outcomes.remove(key));
}

/// The outcome of one HTLC does not touch another, nor the subscriptions.
pub proof fn law_outcomes_are_independent<S, O>(
    state: InterceptorState<S, O>,
    first: CompleteHtlcsRequest,
    second: CompleteHtlcsRequest,
)
    requires
        service::completion_key(first) != service::completion_key(second),
    ensures
        service::completion(state.completed(service::completion_key(first)), second)
            == service::completion(state, second),
        state.completed(service::completion_key(first)).subscriptions == state.subscriptions,
{
}

/// An HTLC is claimed exactly where the gateway settles it with a preimage of 32 bytes, and
/// then with the preimage in hexadecimal; in every other case it is failed.
pub proof fn law_only_a_preimage_claims(action: Action)
    ensures
        match service::action_reply(action) {
            htlc::HtlcReplyView::Resolve(payment_key) => {
                &&& action matches Action::Settle(settle)
                &&& settle.preimage@.len() == 32
                &&& payment_key == text::hex(settle.preimage@)
                &&& payment_key.len() == 64
            },
            reply => {
                &&& reply == htlc::processing_failure()
                &&& action matches Action::Settle(settle) ==> settle.preimage@.len() != 32
            },
        },
{
}

/// Different preimages are never told to the node as the same payment key.
pub proof fn law_hex_is_injective(a: Seq<u8>, b: Seq<u8>)
    requires
        text::hex(a) == text::hex(b),
    ensures
        a == b,
{
    let (x, y) = (text::hex(a), text::hex(b));
    assert(x.len() == 2 * a.len() && y.len() == 2 * b.len());
    assert forall|i: int| 0 <= i < a.len() implies a[i] == b[i] by {
        assert(x[2 * i] == y[2 * i]);
        assert(x[2 * i + 1] == y[2 * i + 1]);
        assert((2 * i) / 2 == i && (2 * i) % 2 == 0);
        assert((2 * i + 1) / 2 == i && (2 * i + 1) % 2 == 1);
        lemma_hex_char(a[i] as int / 16, b[i] as int / 16);
        lemma_hex_char(a[i] as int % 16, b[i] as int % 16);
    }
    assert(a =~= b);
}

/// Different digits have different characters.
proof fn lemma_hex_char(d: int, e: int)
    requires
        0 <= d < 16,
        0 <= e < 16,
        text::hex_char(d) == text::hex_char(e),
    ensures
        d == e,
{
    assert(text::hex_char(d) as int == if d < 10 { 0x30 + d } else { 0x57 + d });
    assert(text::hex_char(e) as int == if e < 10 { 0x30 + e } else { 0x57 + e });
}

/// The gateway is told of an HTLC exactly what the node told of it: the payment hash byte by byte,
/// the amounts, the expiry, the channels and the id, each in its place.
pub proof fn law_announcement_is_faithful(
    response: RouteHtlcResponse,
    payload: HtlcAccepted,
    short_channel_id: u64,
    incoming_chan_id: u64,
)
    ensures
        interceptor::announces(response, payload, short_channel_id, incoming_chan_id) <==> {
            &&& response.action matches Some(RouteHtlcResponseAction::SubscribeResponse(htlc))
            &&& htlc.payment_hash@.len() == 32
            &&& forall|i: int|
                0 <= i < 32 ==> #[trigger] htlc.payment_hash@[i] == payload.htlc.payment_hash[i]
            &&& htlc.incoming_amount_msat == payload.htlc.amount_msat.msats
            &&& htlc.outgoing_amount_msat == payload.onion.forward_msat.msats
            &&& htlc.incoming_expiry == payload.htlc.cltv_expiry
            &&& htlc.short_channel_id == short_channel_id
            &&& htlc.incoming_chan_id == incoming_chan_id
            &&& htlc.htlc_id == payload.htlc.id
        },
{
    if let Some(RouteHtlcResponseAction::SubscribeResponse(htlc)) = response.action {
        if htlc.payment_hash@.len() == 32 && forall|i: int|
            0 <= i < 32 ==> #[trigger] htlc.payment_hash@[i] == payload.htlc.payment_hash[i] {
            assert(htlc.payment_hash@ =~= payload.htlc.payment_hash@);
        }
    }
}

/// An HTLC goes over the channels that it names itself, and no other.
pub proof fn law_route_is_that_of_the_htlc<S, O>(
    state: InterceptorState<S, O>,
    payload: HtlcAccepted,
    short_channel_id: u64,
    incoming_chan_id: u64,
)
    ensures
        state.route(payload) == Some((short_channel_id, incoming_chan_id)) <==> {
            &&& payload.onion.short_channel_id matches Some(outgoing)
            &&& scid::scid_of_text(outgoing@) == Some(short_channel_id)
            &&& scid::scid_of_text(payload.htlc.short_channel_id@) == Some(incoming_chan_id)
            &&& state.subscriptions.contains_key(short_channel_id)
        },
{
}

/// The contents of an interceptor are its two maps.
pub proof fn law_interceptor_contents<S, O>(interceptor: ClnHtlcInterceptor<S, O>)
    ensures
        interceptor@.subscriptions == interceptor.subscriptions@,
        interceptor@.outcomes == interceptor.outcomes@,
        InterceptorState::<S, O>::init().subscriptions.dom() == Set::<u64>::empty(),
        InterceptorState::<S, O>::init().outcomes.dom() == Set::<(u64, u64)>::empty(),
{
}

/// What each step changes, and that it changes nothing else.
pub proof fn law_steps_change_one_entry<S, O>(
    state: InterceptorState<S, O>,
    short_channel_id: u64,
    subscription: S,
    key: (u64, u64),
    outcome: O,
    other_id: u64,
    other_key: (u64, u64),
)
    ensures
        state.subscribed(short_channel_id, subscription).subscriptions.contains_key(
            short_channel_id,
        ),
        state.subscribed(short_channel_id, subscription).subscriptions[short_channel_id]
            == subscription,
        state.subscribed(short_channel_id, subscription).outcomes == state.outcomes,
        other_id != short_channel_id ==> {
            let subscriptions = state.subscribed(short_channel_id, subscription).subscriptions;
            &&& subscriptions.contains_key(other_id) == state.subscriptions.contains_key(other_id)
            &&& subscriptions[other_id] == state.subscriptions[other_id]
        },
        state.forwarded(key, outcome).outcomes.contains_key(key),
        state.forwarded(key, outcome).outcomes[key] == outcome,
        state.forwarded(key, outcome).subscriptions == state.subscriptions,
        !state.completed(key).outcomes.contains_key(key),
        state.completed(key).subscriptions == state.subscriptions,
        other_key != key ==> {
            let forwarded = state.forwarded(key, outcome).outcomes;
            let completed = state.completed(key).outcomes;
            &&& forwarded.contains_key(other_key) == state.outcomes.contains_key(other_key)
            &&& completed.contains_key(other_key) == state.outcomes.contains_key(other_key)
            &&& state.outcomes.contains_key(other_key) ==> forwarded[other_key]
                == state.outcomes[other_key] && completed[other_key] == state.outcomes[other_key]
        },
{
}

/// What is handed to the one who waits for an HTLC. A settlement with a preimage of 32 bytes claims
/// it, with two hexadecimal digits for each byte of the preimage; any other settlement and every
/// cancellation fails it. Where nobody waits, or nothing is asked for, there is only an error.
pub proof fn law_completion_carries_the_reply<S, O>(
    state: InterceptorState<S, O>,
    request: CompleteHtlcsRequest,
    sender: S,
    result: Result<Completion<S, O>, Status>,
)
    requires
        service::is_completion(result, service::completion(state, request), sender),
    ensures
        match result {
            Ok(completion) => {
                &&& state.outcomes.contains_key((request.incoming_chan_id, request.htlc_id))
                &&& completion.outcome == state.outcomes[(
                    request.incoming_chan_id,
                    request.htlc_id,
                )]
                &&& completion.sender == sender
                &&& request.action is Some
                &&& match request.action {
                    Some(Action::Settle(settle)) if settle.preimage@.len() == 32 => {
                        &&& completion.reply matches HtlcReply::Resolve { payment_key }
                        &&& payment_key@.len() == 64
                        &&& forall|i: int|
                            #![trigger settle.preimage@[i]]
                            0 <= i < 32 ==> {
                                let byte = settle.preimage@[i] as int;
                                &&& payment_key@[2 * i] as int == if byte / 16 < 10 {
                                    0x30 + byte / 16
                                } else {
                                    0x57 + byte / 16
                                }
                                &&& payment_key@[2 * i + 1] as int == if byte % 16 < 10 {
                                    0x30 + byte % 16
                                } else {
                                    0x57 + byte % 16
                                }
                            }
                    },
                    _ => {
                        &&& completion.reply matches HtlcReply::Fail { failure_message }
                        &&& failure_message@ == "400f"@
                    },
                }
            },
            Err(status) => {
                &&& status.code == Code::Internal
                &&& if state.outcomes.contains_key((request.incoming_chan_id, request.htlc_id)) {
                    &&& request.action is None
                    &&& status.message@ == "No action specified on this intercepted htlc"@
                } else {
                    status.message@ == "No interceptor reference found for htlc"@
                }
            },
        },
{
    htlc::law_processing_failure();
    if let Some(Action::Settle(settle)) = request.action {
        if settle.preimage@.len() == 32 {
            assert forall|i: int| #![trigger settle.preimage@[i]] 0 <= i < 32 implies {
                let byte = settle.preimage@[i] as int;
                let key = text::hex(settle.preimage@);
                &&& key[2 * i] as int == if byte / 16 < 10 {
                    0x30 + byte / 16
                } else {
                    0x57 + byte / 16
                }
                &&& key[2 * i + 1] as int == if byte % 16 < 10 {
                    0x30 + byte % 16
                } else {
                    0x57 + byte % 16
                }
            } by {
                text::law_hex_digits(settle.preimage@, i);
            }
        }
    }
}

/// An outcome that was handed on is confirmed on the stream of the one who told it; one that could
/// not be handed on is an error.
pub proof fn law_confirmation<S>(sent: bool, sender: S)
    ensures
        match service::confirmation(sent, sender) {
            Ok((stream, response)) => {
                &&& sent
                &&& stream == sender
                &&& response.action matches Some(RouteHtlcResponseAction::CompleteResponse(_))
            },
            Err(message) => {
                &&& !sent
                &&& message == "Failed to send htlc_accepted response to interceptor"@
            },
        },
{
}

/// The contents of what is done next are its fields.
pub proof fn law_waiting_contents(waiting: Waiting)
    ensures
        match waiting {
            Waiting::Await { deadline } => waiting@ == WaitingView::Await(deadline),
            Waiting::Reply(reply) => waiting@ == WaitingView::Reply(reply@),
        },
{
}

/// An HTLC that the gateway has not answered for is failed exactly at a height that is not below its
/// expiry, or where no further reading may fail. Whatever the gateway answered is passed on as it
/// is.
pub proof fn law_htlc_is_failed_exactly_at_its_expiry(
    htlc: Htlc,
    deadline: Deadline,
    blockheight: u32,
    told: HtlcReply,
    waiting: Waiting,
)
    requires
        deadline.cltv_expiry == htlc.cltv_expiry,
    ensures
        Deadline::of(htlc).cltv_expiry == htlc.cltv_expiry,
        Deadline::of(htlc).untold == 20 * htlc.cltv_expiry_relative,
        waiting@ == interceptor::answered(
            deadline,
            Outcome::Pending { blockheight: Some(blockheight) },
        ) ==> if blockheight >= htlc.cltv_expiry {
            waiting matches Waiting::Reply(HtlcReply::Fail { failure_message })
                && failure_message@ == "400f"@
        } else {
            waiting == (Waiting::Await { deadline })
        },
        waiting@ == interceptor::answered(deadline, Outcome::Pending { blockheight: None }) ==> if deadline.untold
            <= 1 {
            waiting matches Waiting::Reply(HtlcReply::Fail { failure_message })
                && failure_message@ == "400f"@
        } else {
            waiting matches Waiting::Await { deadline: left } && left.cltv_expiry
                == htlc.cltv_expiry && left.untold == deadline.untold - 1
        },
        waiting@ == interceptor::answered(deadline, Outcome::Received(told)) ==> (
        waiting matches Waiting::Reply(reply) && match told {
            HtlcReply::Continue => reply is Continue,
            HtlcReply::Resolve { payment_key: key } => {
                &&& reply matches HtlcReply::Resolve { payment_key }
                &&& payment_key@ == key@
            },
            HtlcReply::Fail { failure_message: message } => {
                &&& reply matches HtlcReply::Fail { failure_message }
                &&& failure_message@ == message@
            },
        }),
        waiting@ == interceptor::answered(deadline, Outcome::SenderDropped) ==> (
        waiting matches Waiting::Reply(HtlcReply::Fail { failure_message }) && failure_message@
            == "400f"@),
{
    htlc::law_processing_failure();
}

} // verus!
