//! Short channel ids: the position on the chain of the output that funds a channel.
use std::str::FromStr;

use vstd::prelude::*;
use vstd::utf8::*;

use crate::text;

verus! {

/// The position of the output that funds a channel: the block, the transaction in the
/// block and the output of the transaction.
#[derive(Clone, Copy, Debug, PartialEq, Eq, Structural)]
pub struct ShortChannelId {
    pub block: u32,
    pub txindex: u32,
    pub outnum: u16,
}

impl ShortChannelId {
    /// Whether the parts have the widths that a short channel id has room for: 24 bits
    /// for the block and for the transaction index, 16 for the output.
    pub open spec fn wf(self) -> bool {
        &&& self.block < 0x100_0000
        &&& self.txindex < 0x100_0000
    }
}

/// Three numbers laid over each other as the parts of a short channel id. A number that
/// is too wide for its part runs into the part above it.
pub open spec fn overlay(block: u64, txindex: u64, outnum: u64) -> u64 {
    (block << 40) | (txindex << 16) | outnum
}

/// The short channel id that a packed number stands for.
pub open spec fn unpack(v: u64) -> ShortChannelId {
    ShortChannelId {
        block: ((v / 0x100_0000_0000) % 0x100_0000) as u32,
        txindex: ((v / 0x1_0000) % 0x100_0000) as u32,
        outnum: (v % 0x1_0000) as u16,
    }
}

/// The text before and after the first letter `x`.
pub open spec fn split_x(s: Seq<u8>) -> Option<(Seq<u8>, Seq<u8>)> {
    match s.index_of_first(0x78u8) {
        Some(i) => Some((s.take(i), s.skip(i + 1))),
        None => None,
    }
}

/// The three decimal numbers of a text of the form `<block>x<txindex>x<outnum>`.
pub open spec fn scid_numbers(s: Seq<u8>) -> Option<(u64, u64, u64)> {
    match split_x(s) {
        Some((block, rest)) => match split_x(rest) {
            Some((txindex, outnum)) => match (
                text::decimal_u64(block),
                text::decimal_u64(txindex),
                text::decimal_u64(outnum),
            ) {
                (Some(b), Some(t), Some(o)) => Some((b, t, o)),
                _ => None,
            },
            None => None,
        },
        None => None,
    }
}

/// The packed number that the text of a short channel id denotes.
pub open spec fn scid_of_text(scid: Seq<char>) -> Option<u64> {
    match scid_numbers(encode_utf8(scid)) {
        Some((b, t, o)) => Some(overlay(b, t, o)),
        None => None,
    }
}

/// Calls `from_str` of `cln_rpc::primitives::ShortChannelId`, and reads the parts of what
/// it returns with `block`, `txindex` and `outnum`. The text is split at every letter `x`,
/// each piece has to be a `u64` in decimal, and there have to be three of them. They are
/// shifted into their places without a look at their width, and the parts are cut out of
/// the number that this gives. Why a text is refused is not told apart.
#[verifier::external_body]
pub(crate) fn parse_short_channel_id(scid: &str) -> (r: Option<ShortChannelId>)
    ensures
        r == (match scid_of_text(scid@) {
            Some(v) => Some(unpack(v)),
            None => None,
        }),
{
    match cln_rpc::primitives::ShortChannelId::from_str(scid) {
        Ok(id) => Some(
            ShortChannelId { block: id.block(), txindex: id.txindex(), outnum: id.outnum() },
        ),
        Err(_) => None,
    }
}

/// Packs a short channel id into one number.
pub fn scid_to_u64(scid: ShortChannelId) -> (r: u64)
    ensures
        r == overlay(scid.block as u64, scid.txindex as u64, scid.outnum as u64),
        r == ((scid.block as u64) << 40) | ((scid.txindex as u64) << 16) | (scid.outnum as u64),
        scid.block < 0x100_0000 && scid.txindex < 0x100_0000 ==> r == scid.block * 0x100_0000_0000
            + scid.txindex * 0x1_0000 + scid.outnum,
        scid.wf() ==> r == scid.block * 0x100_0000_0000 + scid.txindex * 0x1_0000 + scid.outnum,
{
    let mut scid_num: u64 = scid.outnum as u64;
    scid_num |= (scid.txindex as u64) << 16;
    scid_num |= (scid.block as u64) << 40;
    proof {
        let b = scid.block as u64;
        let t = scid.txindex as u64;
        let o = scid.outnum as u64;
        assert((o | (t << 16)) | (b << 40) == (b << 40) | (t << 16) | o) by (bit_vector);
        if scid.wf() {
            lemma_overlay(b, t, o);
        }
    }
    scid_num
}

/// Numbers that fit their parts are added up at their places.
proof fn lemma_overlay(b: u64, t: u64, o: u64)
    requires
        b < 0x100_0000,
        t < 0x100_0000,
        o < 0x1_0000,
    ensures
        overlay(b, t, o) == b * 0x100_0000_0000 + t * 0x1_0000 + o,
{
    assert((b << 40) | (t << 16) | o == b * 0x100_0000_0000 + t * 0x1_0000 + o) by (bit_vector)
        requires
            b < 0x100_0000,
            t < 0x100_0000,
            o < 0x1_0000,
    ;
}

/// Packing gives back the number that was unpacked.
pub proof fn law_pack_unpack(v: u64)
    ensures
        unpack(v).wf(),
        overlay(
            unpack(v).block as u64,
            unpack(v).txindex as u64,
            unpack(v).outnum as u64,
        ) == v,
{
    let b = (v / 0x100_0000_0000) % 0x100_0000;
    let t = (v / 0x1_0000) % 0x100_0000;
    let o = v % 0x1_0000;
    assert((b << 40) | (t << 16) | o == v) by (bit_vector)
        requires
            b == (v / 0x100_0000_0000) % 0x100_0000,
            t == (v / 0x1_0000) % 0x100_0000,
            o == v % 0x1_0000,
    ;
}

/// Unpacking gives back the short channel id that was packed.
pub proof fn law_unpack_pack(scid: ShortChannelId)
    requires
        scid.wf(),
    ensures
        unpack(overlay(scid.block as u64, scid.txindex as u64, scid.outnum as u64)) == scid,
{
    let b = scid.block as u64;
    let t = scid.txindex as u64;
    let o = scid.outnum as u64;
    let v = overlay(b, t, o);
    assert((v / 0x100_0000_0000) % 0x100_0000 == b && (v / 0x1_0000) % 0x100_0000 == t && v % 0x1_0000
        == o) by (bit_vector)
        requires
            v == (b << 40) | (t << 16) | o,
            b < 0x100_0000,
            t < 0x100_0000,
            o < 0x1_0000,
    ;
}

/// Two short channel ids are never packed into the same number.
pub proof fn law_pack_injective(a: ShortChannelId, b: ShortChannelId)
    requires
        a.wf(),
        b.wf(),
        overlay(a.block as u64, a.txindex as u64, a.outnum as u64) == overlay(
            b.block as u64,
            b.txindex as u64,
            b.outnum as u64,
        ),
    ensures
        a == b,
{
    law_unpack_pack(a);
    law_unpack_pack(b);
}

/// The usual text of a short channel id.
pub open spec fn scid_text(scid: ShortChannelId) -> Seq<char> {
    text::decimal(scid.block as nat) + seq!['x'] + text::decimal(scid.txindex as nat) + seq!['x'] + text::decimal(
        scid.outnum as nat,
    )
}

/// The bytes of two ASCII texts, one after the other.
proof fn lemma_encode_concat(a: Seq<char>, b: Seq<char>)
    requires
        is_ascii_chars(a),
        is_ascii_chars(b),
    ensures
        is_ascii_chars(a + b),
        encode_utf8(a + b) == encode_utf8(a) + encode_utf8(b),
{
    let text = a + b;
    assert forall|i: int| 0 <= i < text.len() implies '\0' <= #[trigger] text[i] <= '\u{7f}' by {
        if i < a.len() {
            assert(text[i] == a[i]);
        } else {
            assert(text[i] == b[i - a.len()]);
        }
    }
    is_ascii_chars_encode_utf8(text);
    is_ascii_chars_encode_utf8(a);
    is_ascii_chars_encode_utf8(b);
    let joined = encode_utf8(a) + encode_utf8(b);
    assert forall|i: int| 0 <= i < text.len() implies encode_utf8(text)[i] == joined[i] by {
        assert(encode_utf8(text)[i] == text[i] as u8);
        if i < a.len() {
            assert(text[i] == a[i]);
            assert(encode_utf8(a)[i] == a[i] as u8);
        } else {
            assert(text[i] == b[i - a.len()]);
            assert(encode_utf8(b)[i - a.len()] == b[i - a.len()] as u8);
        }
    }
    assert(encode_utf8(text) =~= joined);
}

/// Where a text without the letter `x` comes first, the split gives it back.
proof fn lemma_split_x(head: Seq<u8>, tail: Seq<u8>)
    requires
        !head.contains(0x78u8),
    ensures
        split_x(head + seq![0x78u8] + tail) == Some((head, tail)),
{
    let s = head + seq![0x78u8] + tail;
    s.index_of_first_ensures(0x78u8);
    assert(s[head.len() as int] == 0x78u8);
    assert(s.contains(0x78u8));
    let i = s.index_of_first(0x78u8).unwrap();
    if i < head.len() {
        assert(s[i] == head[i]);
        assert(head.contains(head[i]));
    }
    assert(i == head.len());
    assert(s.take(i) =~= head);
    assert(s.skip(i + 1) =~= tail);
}

/// The usual text of a short channel id reads back as that id.
pub proof fn law_scid_text_round_trip(scid: ShortChannelId)
    requires
        scid.wf(),
    ensures
        scid_of_text(scid_text(scid)) == Some(
            overlay(scid.block as u64, scid.txindex as u64, scid.outnum as u64),
        ),
        scid_of_text(scid_text(scid)) == Some(
            (scid.block * 0x100_0000_0000 + scid.txindex * 0x1_0000 + scid.outnum) as u64,
        ),
{
    let block = text::decimal(scid.block as nat);
    let txindex = text::decimal(scid.txindex as nat);
    let outnum = text::decimal(scid.outnum as nat);
    text::lemma_decimal_bytes(scid.block as nat);
    text::lemma_decimal_bytes(scid.txindex as nat);
    text::lemma_decimal_bytes(scid.outnum as nat);
    text::lemma_decimal_round_trip(scid.block as u64);
    text::lemma_decimal_round_trip(scid.txindex as u64);
    text::lemma_decimal_round_trip(scid.outnum as u64);
    let x = seq!['x'];
    assert(is_ascii_chars(x));
    is_ascii_chars_encode_utf8(x);
    assert(encode_utf8(x)[0] == x[0] as u8);
    assert(encode_utf8(x) =~= seq![0x78u8]);
    lemma_encode_concat(block, x);
    lemma_encode_concat(block + x, txindex);
    lemma_encode_concat(block + x + txindex, x);
    lemma_encode_concat(block + x + txindex + x, outnum);
    let (b, t, o) = (encode_utf8(block), encode_utf8(txindex), encode_utf8(outnum));
    let rest = t + seq![0x78u8] + o;
    let bytes = encode_utf8(scid_text(scid));
    assert(bytes =~= b + seq![0x78u8] + rest);
    assert(!b.contains(0x78u8)) by {
        assert(forall|i: int| 0 <= i < b.len() ==> text::is_digit(#[trigger] b[i]));
    }
    assert(!t.contains(0x78u8)) by {
        assert(forall|i: int| 0 <= i < t.len() ==> text::is_digit(#[trigger] t[i]));
    }
    lemma_split_x(b, rest);
    lemma_split_x(t, o);
    lemma_overlay(scid.block as u64, scid.txindex as u64, scid.outnum as u64);
}

/// A text is a short channel id exactly where it is three numbers with the letter `x` between them,
/// and the numbers are shifted to their places, block, transaction and output.
pub proof fn law_scid_is_three_numbers(
    scid: Seq<char>,
    block: Seq<u8>,
    txindex: Seq<u8>,
    outnum: Seq<u8>,
)
    requires
        encode_utf8(scid) == block + seq![0x78u8] + txindex + seq![0x78u8] + outnum,
        !block.contains(0x78u8),
        !txindex.contains(0x78u8),
    ensures
        scid_of_text(scid) == (match (
            text::decimal_u64(block),
            text::decimal_u64(txindex),
            text::decimal_u64(outnum),
        ) {
            (Some(b), Some(t), Some(o)) => Some((b << 40) | (t << 16) | o),
            _ => None,
        }),
{
    let rest = txindex + seq![0x78u8] + outnum;
    assert(encode_utf8(scid) =~= block + seq![0x78u8] + rest);
    lemma_split_x(block, rest);
    lemma_split_x(txindex, outnum);
}

/// A text with fewer than two letters `x` is no short channel id.
pub proof fn law_scid_needs_two_separators(scid: Seq<char>)
    requires
        forall|i: int, j: int|
            #![trigger encode_utf8(scid)[i], encode_utf8(scid)[j]]
            0 <= i < j < encode_utf8(scid).len() ==> !(encode_utf8(scid)[i] == 0x78
                && encode_utf8(scid)[j] == 0x78),
    ensures
        scid_of_text(scid) is None,
{
    let s = encode_utf8(scid);
    s.index_of_first_ensures(0x78u8);
    if let Some(i) = s.index_of_first(0x78u8) {
        let rest = s.skip(i + 1);
        rest.index_of_first_ensures(0x78u8);
        if let Some(j) = rest.index_of_first(0x78u8) {
            assert(rest[j] == s[i + 1 + j]);
            assert(s[i] == 0x78);
        }
    }
}

} // verus!
