use std::str::FromStr;

use cln_extension::interceptor::{invalid_scid_text, ClnHtlcInterceptor};
use cln_extension::scid::{scid_to_u64, ShortChannelId};

type Interceptor = ClnHtlcInterceptor<(), ()>;

fn convert(scid: &str) -> Option<u64> {
    Interceptor::convert_short_channel_id(scid).ok()
}

#[test]
fn scid_is_packed() {
    let scid = ShortChannelId { block: 1, txindex: 2, outnum: 3 };
    assert_eq!(scid_to_u64(scid), 1_099_511_758_851);
    let widest = ShortChannelId { block: 0xff_ffff, txindex: 0xff_ffff, outnum: 0xffff };
    assert_eq!(scid_to_u64(widest), u64::MAX);
    let none = ShortChannelId { block: 0, txindex: 0, outnum: 0 };
    assert_eq!(scid_to_u64(none), 0);
}

#[test]
fn scid_too_wide_runs_over() {
    let scid = ShortChannelId { block: 0x100_0001, txindex: 0x100_0000, outnum: 0 };
    assert_eq!(scid_to_u64(scid), 1 << 40);
}

#[test]
fn scid_text_is_read() {
    assert_eq!(convert("1x2x3"), Some(1_099_511_758_851));
    assert_eq!(convert("539268x845x1"), Some(592_931_436_542_885_889));
    assert_eq!(convert("0x0x0"), Some(0));
    assert_eq!(convert("16777215x16777215x65535"), Some(u64::MAX));
}

#[test]
fn scid_text_parts_run_over() {
    assert_eq!(convert("0x0x65536"), convert("0x1x0"));
    assert_eq!(convert("0x16777216x0"), convert("1x0x0"));
    assert_eq!(convert("16777216x0x0"), Some(0));
    assert_eq!(convert("+1x+2x+3"), convert("1x2x3"));
}

#[test]
fn scid_text_that_cannot_be_read() {
    for text in [
        "", "x", "xx", "1x2", "1x2x", "x1x2", "1xx3", "1x2x3x4", "1:2:3", "1X2X3", "a1x2x3",
        "1x-2x3", "1x2x18446744073709551616", " 1x2x3", "1x2x\u{e9}",
    ] {
        assert_eq!(convert(text), None, "{text:?}");
    }
}

#[test]
fn scid_error_quotes_the_text() {
    let refused = |scid| Interceptor::convert_short_channel_id(scid).unwrap_err();
    assert_eq!(refused("1x2"), "Received invalid short channel id: \"1x2\"");
    assert_eq!(refused("a\"b\n"), "Received invalid short channel id: \"a\\\"b\\n\"");
    assert_eq!(invalid_scid_text("<id>"), "Received invalid short channel id: <id>");
}

#[test]
fn scid_text_round_trip() {
    for (block, txindex, outnum) in [(0, 0, 0), (7, 8, 9), (800_000, 2_345, 1), (0xff_ffff, 0xff_ffff, 0xffff)] {
        let scid = ShortChannelId { block, txindex, outnum };
        let packed = u64::from(block) * (1 << 40) + u64::from(txindex) * (1 << 16) + u64::from(outnum);
        assert_eq!(scid_to_u64(scid), packed);
        assert_eq!(convert(&format!("{block}x{txindex}x{outnum}")), Some(packed));
    }
}

#[test]
fn scid_packing_is_injective() {
    let ids = [(1, 0, 0), (0, 1, 0), (0, 0, 1), (1, 1, 0), (0, 1, 1), (1, 0, 1)];
    for a in ids {
        for b in ids {
            let pa = scid_to_u64(ShortChannelId { block: a.0, txindex: a.1, outnum: a.2 });
            let pb = scid_to_u64(ShortChannelId { block: b.0, txindex: b.1, outnum: b.2 });
            assert_eq!(pa == pb, a == b);
        }
    }
}

#[test]
fn scid_agrees_with_the_node() {
    let theirs = cln_rpc::primitives::ShortChannelId::from_str("700000x12x34").unwrap();
    let ours = ShortChannelId {
        block: theirs.block(),
        txindex: theirs.txindex(),
        outnum: theirs.outnum(),
    };
    assert_eq!(ours, ShortChannelId { block: 700_000, txindex: 12, outnum: 34 });
    assert_eq!(convert("700000x12x34"), Some(scid_to_u64(ours)));
}
