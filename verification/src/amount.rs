//! Amounts in millisatoshi.
use vstd::prelude::*;
use vstd::slice::*;
use vstd::utf8::*;

use crate::text;

verus! {

/// An amount in millisatoshi.
#[derive(Clone, Copy, Debug, PartialEq, Eq, Structural)]
pub struct Amount {
    pub msats: u64,
}

impl Amount {
    pub fn from_msats(msats: u64) -> (r: Amount)
        ensures
            r == (Amount { msats }),
    {
        Amount { msats }
    }
}

/// The amount that a text with a unit suffix of four bytes denotes. The suffix itself is
/// not looked at.
pub open spec fn suffixed_amount(amount: Seq<char>) -> Option<Amount> {
    let bytes = encode_utf8(amount);
    if bytes.len() < 4 {
        None
    } else {
        match text::decimal_u64(bytes.take(bytes.len() - 4)) {
            Some(msats) => Some(Amount { msats }),
            None => None,
        }
    }
}

/// Reads an amount whose text ends in a unit of four bytes.
pub fn parse_amount(amount: &str) -> (r: Option<Amount>)
    ensures
        r == suffixed_amount(amount@),
{
    let bytes = amount.as_bytes();
    if bytes.len() < 4 {
        return None;
    }
    let end: usize = bytes.len() - 4;
    let digits = slice_subrange(bytes, 0, end);
    assert(digits@ =~= bytes@.take(end as int));
    match text::parse_u64(digits) {
        Some(msats) => Some(Amount::from_msats(msats)),
        None => None,
    }
}

/// The core-lightning `htlc_accepted` event's `amount` field has a "msat"
/// suffix
///
/// Takes what reading the field as a string gave, and hands its error on.
pub fn as_fedimint_amount<E>(amount: Result<String, E>) -> (r: Result<Amount, E>)
    requires
        amount matches Ok(text) ==> suffixed_amount(text@) is Some,
    ensures
        match amount {
            Ok(text) => r matches Ok(a) && suffixed_amount(text@) == Some(a),
            Err(e) => r == Err::<Amount, E>(e),
        },
{
    match amount {
        Ok(text) => match parse_amount(text.as_str()) {
            Some(a) => Ok(a),
            None => {
                assert(false);
                Ok(Amount::from_msats(0))
            },
        },
        Err(e) => Err(e),
    }
}

/// Every amount, written in decimal with the suffix "msat", reads back as itself.
pub proof fn law_msat_round_trip(msats: u64)
    ensures
        suffixed_amount(text::decimal(msats as nat) + "msat"@) == Some(Amount { msats }),
{
    reveal_strlit("msat");
    let number = text::decimal(msats as nat);
    let text = number + "msat"@;
    text::lemma_decimal_bytes(msats as nat);
    text::lemma_decimal_round_trip(msats);
    assert(is_ascii_chars("msat"@));
    assert forall|i: int| 0 <= i < text.len() implies '\0' <= #[trigger] text[i] <= '\u{7f}' by {
        if i < number.len() {
            assert(text[i] == number[i]);
        } else {
            assert(text[i] == "msat"@[i - number.len()]);
        }
    }
    is_ascii_chars_encode_utf8(text);
    is_ascii_chars_encode_utf8(number);
    let bytes = encode_utf8(text);
    assert(bytes.take(bytes.len() - 4) =~= encode_utf8(number)) by {
        assert forall|i: int| 0 <= i < number.len() implies bytes[i] == #[trigger] encode_utf8(
            number,
        )[i] by {
            assert(text[i] == number[i]);
            assert(bytes[i] == text[i] as u8);
        }
    }
}

/// The last four bytes of a text are passed over, whatever they are, and what stands before them is
/// the number. A text that is too short for that is no amount.
pub proof fn law_unit_is_passed_over(text: Seq<char>, number: Seq<u8>, unit: Seq<u8>)
    requires
        unit.len() == 4,
    ensures
        encode_utf8(text) == number + unit ==> (match text::decimal_u64(number) {
            Some(v) => suffixed_amount(text) matches Some(amount) && amount.msats == v,
            None => suffixed_amount(text) is None,
        }),
        encode_utf8(text).len() < 4 ==> suffixed_amount(text) is None,
{
    let bytes = encode_utf8(text);
    if bytes == number + unit {
        assert(bytes.take(bytes.len() - 4) =~= number);
    }
}

} // verus!
