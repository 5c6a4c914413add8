//! The `htlc_accepted` hook of core-lightning: what the node tells of an HTLC, and what it
//! is answered.
// See: https://github.com/ElementsProject/lightning/blob/master/doc/PLUGINS.md#htlc_accepted
use vstd::prelude::*;

use crate::amount::Amount;
use crate::text;

verus! {

#[derive(Clone, Debug)]
pub struct Htlc {
    pub amount_msat: Amount,
    pub cltv_expiry: u32,
    pub cltv_expiry_relative: u32,
    pub payment_hash: [u8; 32],
    /// The short channel id of the incoming channel
    pub short_channel_id: String,
    /// The ID of the HTLC
    pub id: u64,
}

#[derive(Clone, Debug)]
pub struct Onion {
    /// The short channel id of the outgoing channel; none where the HTLC ends at this node
    pub short_channel_id: Option<String>,
    pub forward_msat: Amount,
}

#[derive(Clone, Debug)]
pub struct HtlcAccepted {
    pub htlc: Htlc,
    pub onion: Onion,
}

/// What the node is told to do with an HTLC.
#[derive(Debug)]
pub enum HtlcReply {
    /// Go on as if the HTLC had not been intercepted.
    Continue,
    /// Claim the HTLC with the preimage of its payment hash, in hexadecimal.
    Resolve { payment_key: String },
    /// Fail the HTLC.
    Fail { failure_message: String },
}

/// The contents of an [`HtlcReply`].
pub enum HtlcReplyView {
    Continue,
    Resolve(Seq<char>),
    Fail(Seq<char>),
}

impl View for HtlcReply {
    type V = HtlcReplyView;

    open spec fn view(&self) -> HtlcReplyView {
        match self {
            HtlcReply::Continue => HtlcReplyView::Continue,
            HtlcReply::Resolve { payment_key } => HtlcReplyView::Resolve(payment_key@),
            HtlcReply::Fail { failure_message } => HtlcReplyView::Fail(failure_message@),
        }
    }
}

impl HtlcReplyView {
    /// The members of the JSON object that tells the node, names and string values, in order.
    pub open spec fn members(self) -> Seq<(Seq<char>, Seq<char>)> {
        match self {
            HtlcReplyView::Continue => seq![("result"@, "continue"@)],
            HtlcReplyView::Resolve(payment_key) => seq![
                ("result"@, "resolve"@),
                ("payment_key"@, payment_key),
            ],
            HtlcReplyView::Fail(failure_message) => seq![
                ("result"@, "fail"@),
                ("failure_message"@, failure_message),
            ],
        }
    }
}

/// The contents of a list of named strings.
pub open spec fn named_strings(members: Seq<(String, String)>) -> Seq<(Seq<char>, Seq<char>)> {
    members.map_values(|m: (String, String)| (m.0@, m.1@))
}

impl HtlcReply {
    /// The members of the JSON object that tells the node, names and string values.
    pub fn members(self) -> (r: Vec<(String, String)>)
        ensures
            named_strings(r@) == self@.members(),
    {
        let mut r: Vec<(String, String)> = Vec::new();
        match self {
            HtlcReply::Continue => {
                r.push(("result".to_owned(), "continue".to_owned()));
            },
            HtlcReply::Resolve { payment_key } => {
                r.push(("result".to_owned(), "resolve".to_owned()));
                r.push(("payment_key".to_owned(), payment_key));
            },
            HtlcReply::Fail { failure_message } => {
                r.push(("result".to_owned(), "fail".to_owned()));
                r.push(("failure_message".to_owned(), failure_message));
            },
        }
        assert(named_strings(r@) =~= self@.members());
        r
    }
}

/// The error code that fails an HTLC.
///
/// BOLT 4: <https://github.com/lightning/bolts/blob/master/04-onion-routing.md#failure-messages>
/// 16399 error code reports unknown payment details.
pub const FAILURE_CODE: u16 = 16399;

/// The failure message that consists of an error code alone: its two bytes, the higher one
/// first, in hexadecimal.
pub open spec fn failure_message(code: u16) -> Seq<char> {
    text::hex(seq![(code / 256) as u8, (code % 256) as u8])
}

/// The reply to an HTLC that could not be processed.
pub open spec fn processing_failure() -> HtlcReplyView {
    HtlcReplyView::Fail(failure_message(FAILURE_CODE))
}

/// Fails an HTLC that could not be processed, with unknown payment details as the reason.
pub fn htlc_processing_failure() -> (r: HtlcReply)
    ensures
        r@ == processing_failure(),
        r@ == HtlcReplyView::Fail(text::hex(seq![0x40u8, 0x0fu8])),
        r@ == HtlcReplyView::Fail("400f"@),
{
    let bytes: [u8; 2] = [(FAILURE_CODE / 256) as u8, (FAILURE_CODE % 256) as u8];
    proof {
        reveal_strlit("400f");
        assert(bytes@ =~= seq![0x40u8, 0x0fu8]);
        assert(text::hex(bytes@) =~= "400f"@);
    }
    HtlcReply::Fail { failure_message: text::to_hex(bytes.as_slice()) }
}

/// An HTLC that could not be processed is failed with unknown payment details.
pub proof fn law_processing_failure()
    ensures
        processing_failure() == HtlcReplyView::Fail("400f"@),
{
    reveal_strlit("400f");
    assert(failure_message(FAILURE_CODE) =~= "400f"@);
}

/// The contents of a reply are those of its fields.
pub proof fn law_reply_contents(reply: HtlcReply)
    ensures
        match reply {
            HtlcReply::Continue => reply@ == HtlcReplyView::Continue,
            HtlcReply::Resolve { payment_key } => reply@ == HtlcReplyView::Resolve(payment_key@),
            HtlcReply::Fail { failure_message } => reply@ == HtlcReplyView::Fail(failure_message@),
        },
{
}

/// What the node is told: first what to do, then what it needs for that.
pub proof fn law_reply_members(reply: HtlcReply, members: Seq<(String, String)>)
    requires
        named_strings(members) == reply@.members(),
    ensures
        members.len() >= 1,
        members[0].0@ == "result"@,
        match reply {
            HtlcReply::Continue => members.len() == 1 && members[0].1@ == "continue"@,
            HtlcReply::Resolve { payment_key } => {
                &&& members.len() == 2
                &&& members[0].1@ == "resolve"@
                &&& members[1].0@ == "payment_key"@
                &&& members[1].1@ == payment_key@
            },
            HtlcReply::Fail { failure_message } => {
                &&& members.len() == 2
                &&& members[0].1@ == "fail"@
                &&& members[1].0@ == "failure_message"@
                &&& members[1].1@ == failure_message@
            },
        },
{
    let named = named_strings(members);
    assert(named.len() == members.len());
    assert(forall|i: int|
        0 <= i < members.len() ==> #[trigger] named[i] == (members[i].0@, members[i].1@));
    assert(named[0] == (members[0].0@, members[0].1@));
    if members.len() > 1 {
        assert(named[1] == (members[1].0@, members[1].1@));
    }
}

} // verus!
