use cln_extension::amount::Amount;
use cln_extension::deadline::{Deadline, BLOCKHEIGHT_INTERVAL_SECS, BLOCK_SECS};
use cln_extension::htlc::{
    htlc_processing_failure, Htlc, HtlcAccepted, HtlcReply, Onion, FAILURE_CODE,
};
use cln_extension::interceptor::{
    outcome_reply, ClnHtlcInterceptor, Forwarding, Interception, Outcome, Waiting,
};
use cln_extension::messages::{
    Action, Cancel, CompleteHtlcsRequest, RouteHtlcRequest, RouteHtlcRequestAction,
    RouteHtlcResponseAction, Settle, SubscribeInterceptHtlcsRequest,
};
use cln_extension::service::{ClnRpcService, RouteStep};

const DEADLINE: Deadline = Deadline { cltv_expiry: 144, untold: 800 };

type Interceptor = ClnHtlcInterceptor<&'static str, &'static str>;

const CHANNEL: u64 = 1_099_511_758_851;
const INCOMING: u64 = (4 << 40) | (5 << 16) | 6;

fn payload(outgoing: Option<&str>, incoming: &str) -> HtlcAccepted {
    HtlcAccepted {
        htlc: Htlc {
            amount_msat: Amount { msats: 1_005 },
            cltv_expiry: 144,
            cltv_expiry_relative: 40,
            payment_hash: [0xab; 32],
            short_channel_id: incoming.to_string(),
            id: 77,
        },
        onion: Onion {
            short_channel_id: outgoing.map(|s| s.to_string()),
            forward_msat: Amount { msats: 1_000 },
        },
    }
}

fn members(reply: HtlcReply) -> Vec<(String, String)> {
    reply.members()
}

fn pairs(expected: &[(&str, &str)]) -> Vec<(String, String)> {
    expected.iter().map(|(a, b)| (a.to_string(), b.to_string())).collect()
}

fn failure() -> Vec<(String, String)> {
    pairs(&[("result", "fail"), ("failure_message", "400f")])
}

fn is_continue(interception: Interception<'_, &'static str>) -> bool {
    matches!(interception, Interception::Reply(HtlcReply::Continue))
}

fn complete(interceptor: &mut Interceptor, action: Option<Action>) -> Result<(&'static str, HtlcReply), String> {
    let request = CompleteHtlcsRequest { action, incoming_chan_id: INCOMING, htlc_id: 77 };
    ClnRpcService::complete_htlc(request, interceptor, "teller")
        .map(|completion| {
            assert_eq!(completion.sender, "teller");
            (completion.outcome, completion.reply)
        })
        .map_err(|status| status.message)
}

fn waiting() -> Interceptor {
    let mut interceptor = Interceptor::new();
    interceptor.subscribe(CHANNEL, "gateway");
    match interceptor.forwarded((INCOMING, 77), DEADLINE, Forwarding::Sent("hook")) {
        Waiting::Await { deadline } => assert_eq!(deadline, DEADLINE),
        Waiting::Reply(reply) => panic!("{reply:?}"),
    }
    interceptor
}

#[test]
fn reply_members() {
    assert_eq!(members(HtlcReply::Continue), pairs(&[("result", "continue")]));
    assert_eq!(
        members(HtlcReply::Resolve { payment_key: "00ff".to_string() }),
        pairs(&[("result", "resolve"), ("payment_key", "00ff")])
    );
    assert_eq!(members(htlc_processing_failure()), failure());
}

#[test]
fn new_interceptor_is_empty() {
    let interceptor = Interceptor::new();
    assert!(interceptor.subscriptions.is_empty());
    assert!(interceptor.outcomes.is_empty());
    assert!(is_continue(interceptor.intercept_htlc(&payload(Some("1x2x3"), "4x5x6"))));
}

#[test]
fn subscribed_htlc_is_announced() {
    let mut interceptor = Interceptor::new();
    interceptor.subscribe(CHANNEL, "gateway");
    match interceptor.intercept_htlc(&payload(Some("1x2x3"), "4x5x6")) {
        Interception::Forward { subscription, response, key, deadline } => {
            assert_eq!(*subscription, "gateway");
            assert_eq!(deadline, DEADLINE);
            assert_eq!(key, (INCOMING, 77));
            match response.action {
                Some(RouteHtlcResponseAction::SubscribeResponse(htlc)) => {
                    assert_eq!(htlc.payment_hash, vec![0xab; 32]);
                    assert_eq!(htlc.incoming_amount_msat, 1_005);
                    assert_eq!(htlc.outgoing_amount_msat, 1_000);
                    assert_eq!(htlc.incoming_expiry, 144);
                    assert_eq!(htlc.short_channel_id, CHANNEL);
                    assert_eq!(htlc.incoming_chan_id, INCOMING);
                    assert_eq!(htlc.htlc_id, 77);
                }
                other => panic!("{other:?}"),
            }
        }
        Interception::Reply(reply) => panic!("{reply:?}"),
    }
    assert!(interceptor.outcomes.is_empty());
}

#[test]
fn other_htlcs_continue() {
    let mut interceptor = Interceptor::new();
    interceptor.subscribe(CHANNEL, "gateway");
    // It ends at this node.
    assert!(is_continue(interceptor.intercept_htlc(&payload(None, "4x5x6"))));
    // The outgoing channel cannot be read.
    assert!(is_continue(interceptor.intercept_htlc(&payload(Some("1x2"), "4x5x6"))));
    // Nobody subscribed to the outgoing channel.
    assert!(is_continue(interceptor.intercept_htlc(&payload(Some("1x2x4"), "4x5x6"))));
    // The incoming channel cannot be read.
    assert!(is_continue(interceptor.intercept_htlc(&payload(Some("1x2x3"), "4x5"))));
}

#[test]
fn latest_subscription_counts() {
    let mut interceptor = Interceptor::new();
    interceptor.subscribe(CHANNEL, "first");
    interceptor.subscribe(CHANNEL + 1, "other");
    interceptor.subscribe(CHANNEL, "second");
    match interceptor.intercept_htlc(&payload(Some("1x2x3"), "4x5x6")) {
        Interception::Forward { subscription, .. } => assert_eq!(*subscription, "second"),
        Interception::Reply(reply) => panic!("{reply:?}"),
    }
}

#[test]
fn closed_subscription_fails_the_htlc() {
    let mut interceptor = Interceptor::new();
    match interceptor.forwarded((INCOMING, 77), DEADLINE, Forwarding::Failed) {
        Waiting::Reply(reply) => assert_eq!(members(reply), failure()),
        Waiting::Await { .. } => panic!("nothing was sent"),
    }
    assert!(interceptor.outcomes.is_empty());
}

fn reply(waiting: Waiting) -> Option<Vec<(String, String)>> {
    match waiting {
        Waiting::Reply(reply) => Some(members(reply)),
        Waiting::Await { .. } => None,
    }
}

fn pending(blockheight: Option<u32>) -> Option<Vec<(String, String)>> {
    reply(outcome_reply(DEADLINE, Outcome::Pending { blockheight }))
}

/// Waits through readings of the height of the chain, and tells what is left of the deadline.
fn wait(mut deadline: Deadline, heights: &[Option<u32>]) -> Option<Deadline> {
    for blockheight in heights {
        match outcome_reply(deadline, Outcome::Pending { blockheight: *blockheight }) {
            Waiting::Await { deadline: left } => deadline = left,
            Waiting::Reply(reply) => {
                assert_eq!(members(reply), failure());
                return None;
            }
        }
    }
    Some(deadline)
}

#[test]
fn failure_message_is_the_error_code() {
    assert_eq!(FAILURE_CODE, 16399);
    match htlc_processing_failure() {
        HtlcReply::Fail { failure_message } => {
            assert_eq!(failure_message, "400f");
            assert_eq!(u16::from_str_radix(&failure_message, 16), Ok(16399));
        }
        other => panic!("{other:?}"),
    }
}

#[test]
fn outcome_replies() {
    let resolve = || HtlcReply::Resolve { payment_key: "aa".to_string() };
    let resolved = Some(pairs(&[("result", "resolve"), ("payment_key", "aa")]));
    assert_eq!(reply(outcome_reply(DEADLINE, Outcome::Received(resolve()))), resolved);
    assert_eq!(reply(outcome_reply(DEADLINE, Outcome::SenderDropped)), Some(failure()));
}

#[test]
fn gateway_has_until_the_expiry() {
    // However often there is nothing yet, the HTLC is not failed before it expires.
    assert_eq!(wait(DEADLINE, &[Some(143); 10_000]), Some(DEADLINE));
    assert_eq!(pending(Some(0)), None);
    let left = wait(DEADLINE, &[Some(100), None, None, Some(143)]).unwrap();
    assert_eq!(left, Deadline { cltv_expiry: 144, untold: 798 });
    let resolve = HtlcReply::Resolve { payment_key: "bb".to_string() };
    assert_eq!(
        reply(outcome_reply(left, Outcome::Received(resolve))),
        Some(pairs(&[("result", "resolve"), ("payment_key", "bb")]))
    );
    assert_eq!(pending(Some(144)), Some(failure()));
    assert_eq!(pending(Some(145)), Some(failure()));
}

#[test]
fn wait_ends_without_a_height() {
    assert_eq!(
        wait(DEADLINE, &[None; 799]),
        Some(Deadline { cltv_expiry: 144, untold: 1 })
    );
    assert_eq!(wait(DEADLINE, &[None; 800]), None);
    // Heights in between do not make the wait longer.
    let mixed: Vec<Option<u32>> = (0..1_600).map(|i| if i % 2 == 0 { None } else { Some(100) }).collect();
    assert!(wait(DEADLINE, &mixed[..1_598]).is_some());
    assert_eq!(wait(DEADLINE, &mixed), None);
    let none_left = Deadline { cltv_expiry: 144, untold: 0 };
    assert_eq!(wait(none_left, &[Some(1), Some(2)]), Some(none_left));
    assert_eq!(wait(none_left, &[None]), None);
}

#[test]
fn deadline_of_an_htlc() {
    assert_eq!((BLOCKHEIGHT_INTERVAL_SECS, BLOCK_SECS), (30, 600));
    let mut htlc = payload(None, "4x5x6").htlc;
    assert_eq!(Deadline::of_htlc(&htlc), DEADLINE);
    htlc.cltv_expiry_relative = u32::MAX;
    assert_eq!(Deadline::of_htlc(&htlc).untold, 85_899_345_900);
}

#[test]
fn settled_htlc_is_claimed() {
    let mut interceptor = waiting();
    let mut preimage = vec![0u8; 32];
    preimage[0] = 0x01;
    preimage[1] = 0xab;
    preimage[31] = 0xff;
    let (outcome, reply) = complete(&mut interceptor, Some(Action::Settle(Settle { preimage }))).unwrap();
    assert_eq!(outcome, "hook");
    let key = format!("01ab{}ff", "00".repeat(29));
    assert_eq!(members(reply), pairs(&[("result", "resolve"), ("payment_key", &key)]));
    assert!(interceptor.outcomes.is_empty());
    assert_eq!(interceptor.subscriptions.get(&CHANNEL), Some(&"gateway"));
}

#[test]
fn preimage_of_another_length_fails_the_htlc() {
    for len in [0, 31, 33] {
        let mut interceptor = waiting();
        let preimage = vec![7u8; len];
        let (outcome, reply) = complete(&mut interceptor, Some(Action::Settle(Settle { preimage }))).unwrap();
        assert_eq!(outcome, "hook");
        assert_eq!(members(reply), failure());
    }
}

#[test]
fn canceled_htlc_is_failed() {
    let mut interceptor = waiting();
    let cancel = Action::Cancel(Cancel { reason: "no liquidity".to_string() });
    let (outcome, reply) = complete(&mut interceptor, Some(cancel)).unwrap();
    assert_eq!(outcome, "hook");
    assert_eq!(members(reply), failure());
}

#[test]
fn outcome_without_action_is_refused_and_forgotten() {
    let mut interceptor = waiting();
    assert_eq!(
        complete(&mut interceptor, None).unwrap_err(),
        "No action specified on this intercepted htlc"
    );
    assert!(interceptor.outcomes.is_empty());
}

#[test]
fn outcome_is_taken_once() {
    let mut interceptor = waiting();
    let settle = || Some(Action::Settle(Settle { preimage: vec![1; 32] }));
    assert!(complete(&mut interceptor, settle()).is_ok());
    assert_eq!(
        complete(&mut interceptor, settle()).unwrap_err(),
        "No interceptor reference found for htlc"
    );
}

#[test]
fn outcomes_are_kept_apart() {
    let mut interceptor = waiting();
    interceptor.forwarded((INCOMING, 78), DEADLINE, Forwarding::Sent("another hook"));
    interceptor.forwarded((INCOMING + 1, 77), DEADLINE, Forwarding::Sent("a third hook"));
    let cancel = || Some(Action::Cancel(Cancel { reason: String::new() }));
    assert_eq!(complete(&mut interceptor, cancel()).unwrap().0, "hook");
    assert_eq!(interceptor.outcomes.get(&(INCOMING, 78)), Some(&"another hook"));
    assert_eq!(interceptor.outcomes.get(&(INCOMING + 1, 77)), Some(&"a third hook"));
    assert_eq!(interceptor.outcomes.len(), 2);
}

#[test]
fn later_htlc_takes_the_place_of_an_earlier_one() {
    let mut interceptor = waiting();
    interceptor.forwarded((INCOMING, 77), DEADLINE, Forwarding::Sent("newer hook"));
    let cancel = Some(Action::Cancel(Cancel { reason: String::new() }));
    assert_eq!(complete(&mut interceptor, cancel).unwrap().0, "newer hook");
    assert!(interceptor.outcomes.is_empty());
}

#[test]
fn outcome_after_the_expiry_cannot_be_delivered() {
    // The hook has given up, but is still registered.
    let mut interceptor = waiting();
    assert_eq!(pending(Some(144)), Some(failure()));
    let settle = Some(Action::Settle(Settle { preimage: vec![1; 32] }));
    assert!(complete(&mut interceptor, settle).is_ok());
    let status = ClnRpcService::outcome_sent(false, "teller").unwrap_err();
    assert_eq!(status.message, "Failed to send htlc_accepted response to interceptor");
}

#[test]
fn delivered_outcome_is_confirmed() {
    let (sender, response) = ClnRpcService::outcome_sent(true, "teller").unwrap();
    assert_eq!(sender, "teller");
    assert!(matches!(response.action, Some(RouteHtlcResponseAction::CompleteResponse(_))));
}

#[test]
fn route_stream_items() {
    let mut interceptor = Interceptor::new();
    let step = ClnRpcService::route_htlcs(&mut interceptor, Err::<RouteHtlcRequest, _>("reset"), "gateway");
    assert!(matches!(step, RouteStep::Unreadable));
    let step = ClnRpcService::route_htlcs(
        &mut interceptor,
        Ok::<_, String>(RouteHtlcRequest { action: None }),
        "gateway",
    );
    assert!(matches!(step, RouteStep::NoAction));
    assert!(interceptor.subscriptions.is_empty());

    let subscribe = RouteHtlcRequestAction::SubscribeRequest(SubscribeInterceptHtlcsRequest {
        short_channel_id: 9,
    });
    let step = ClnRpcService::route_htlcs(
        &mut interceptor,
        Ok::<_, String>(RouteHtlcRequest { action: Some(subscribe) }),
        "gateway",
    );
    assert!(matches!(step, RouteStep::Subscribed));
    assert_eq!(interceptor.subscriptions.get(&9), Some(&"gateway"));

    interceptor.forwarded((3, 4), DEADLINE, Forwarding::Sent("hook"));
    let request = |htlc_id| RouteHtlcRequest {
        action: Some(RouteHtlcRequestAction::CompleteRequest(CompleteHtlcsRequest {
            action: Some(Action::Cancel(Cancel { reason: String::new() })),
            incoming_chan_id: 3,
            htlc_id,
        })),
    };
    match ClnRpcService::route_htlcs(&mut interceptor, Ok::<_, String>(request(5)), "gateway") {
        RouteStep::Completed(Err(status)) => {
            assert_eq!(status.message, "No interceptor reference found for htlc");
        }
        _ => panic!("nobody waits"),
    }
    match ClnRpcService::route_htlcs(&mut interceptor, Ok::<_, String>(request(4)), "gateway") {
        RouteStep::Completed(Ok(completion)) => {
            assert_eq!(completion.outcome, "hook");
            assert_eq!(members(completion.reply), failure());
            assert_eq!(completion.sender, "gateway");
        }
        _ => panic!("the hook waits"),
    }
}

#[test]
fn different_preimages_have_different_keys() {
    let mut keys = Vec::new();
    for byte in 0..=255u8 {
        let mut interceptor = waiting();
        let mut preimage = vec![0x5a; 32];
        preimage[13] = byte;
        match complete(&mut interceptor, Some(Action::Settle(Settle { preimage }))) {
            Ok((_, HtlcReply::Resolve { payment_key })) => {
                assert_eq!(payment_key.len(), 64);
                assert_eq!(payment_key[26..28], format!("{byte:02x}"));
                keys.push(payment_key);
            }
            other => panic!("{other:?}"),
        }
    }
    keys.sort();
    keys.dedup();
    assert_eq!(keys.len(), 256);
}

#[test]
fn announced_htlc_can_be_completed() {
    let mut interceptor = Interceptor::new();
    interceptor.subscribe(CHANNEL, "gateway");
    let (response, key) = match interceptor.intercept_htlc(&payload(Some("1x2x3"), "4x5x6")) {
        Interception::Forward { response, key, .. } => (response, key),
        Interception::Reply(reply) => panic!("{reply:?}"),
    };
    assert!(matches!(
        interceptor.forwarded(key, DEADLINE, Forwarding::Sent("hook")),
        Waiting::Await { deadline: DEADLINE }
    ));
    let announced = match response.action {
        Some(RouteHtlcResponseAction::SubscribeResponse(htlc)) => htlc,
        other => panic!("{other:?}"),
    };
    let request = CompleteHtlcsRequest {
        action: Some(Action::Settle(Settle { preimage: vec![0x0f; 32] })),
        incoming_chan_id: announced.incoming_chan_id,
        htlc_id: announced.htlc_id,
    };
    let item = RouteHtlcRequest {
        action: Some(RouteHtlcRequestAction::CompleteRequest(request)),
    };
    // Another gateway than the one that the HTLC was announced to tells the outcome.
    let told = ClnRpcService::route_htlcs(&mut interceptor, Ok::<_, String>(item), "teller");
    let completion = match told {
        RouteStep::Completed(Ok(completion)) => completion,
        _ => panic!("the hook waits"),
    };
    assert_eq!(completion.outcome, "hook");
    let key = "0f".repeat(32);
    assert_eq!(
        reply(outcome_reply(DEADLINE, Outcome::Received(completion.reply))),
        Some(pairs(&[("result", "resolve"), ("payment_key", key.as_str())]))
    );
    let (sender, response) = ClnRpcService::outcome_sent(true, completion.sender).unwrap();
    assert_eq!(sender, "teller");
    assert!(matches!(response.action, Some(RouteHtlcResponseAction::CompleteResponse(_))));
}
