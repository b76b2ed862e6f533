use clog::scid::ShortChannelId;
use clog::scid::parse_short_channel_id;
use clog::text::bytes_to_hex;
use clog::text::str_eq;
use clog::text::u64_to_dec;

#[test]
fn parses_canonical_short_channel_id() {
    let sc = parse_short_channel_id("700000x1x0").unwrap();
    assert_eq!(sc.block, 700000);
    assert_eq!(sc.txindex, 1);
    assert_eq!(sc.outnum, 0);
}

#[test]
fn parses_zero_components() {
    let sc = parse_short_channel_id("0x0x0").unwrap();
    assert_eq!(sc.block, 0);
    assert_eq!(sc.txindex, 0);
    assert_eq!(sc.outnum, 0);
}

#[test]
fn parses_maximal_components() {
    let sc = parse_short_channel_id("16777215x16777215x65535").unwrap();
    assert_eq!(sc.block, 16777215);
    assert_eq!(sc.txindex, 16777215);
    assert_eq!(sc.outnum, 65535);
}

#[test]
fn rejects_out_of_range_components() {
    assert!(parse_short_channel_id("16777216x1x0").is_none());
    assert!(parse_short_channel_id("1x16777216x0").is_none());
    assert!(parse_short_channel_id("1x1x65536").is_none());
}

#[test]
fn rejects_malformed_ids() {
    assert!(parse_short_channel_id("").is_none());
    assert!(parse_short_channel_id("700000x1").is_none());
    assert!(parse_short_channel_id("700000x1x0x3").is_none());
    assert!(parse_short_channel_id("x1x2").is_none());
    assert!(parse_short_channel_id("1x2x").is_none());
    assert!(parse_short_channel_id("1xx2").is_none());
    assert!(parse_short_channel_id("70a000x1x0").is_none());
    assert!(parse_short_channel_id("700000:1:0").is_none());
    assert!(parse_short_channel_id("-1x1x0").is_none());
    assert!(parse_short_channel_id("+1x1x0").is_none());
}

#[test]
fn accepts_leading_zeros() {
    let sc = parse_short_channel_id("007x01x00").unwrap();
    assert_eq!(sc.block, 7);
    assert_eq!(sc.txindex, 1);
    assert_eq!(sc.outnum, 0);
}

#[test]
fn packs_key_like_the_wire_format() {
    let sc = ShortChannelId { block: 700000, txindex: 1, outnum: 0 };
    assert_eq!(sc.to_key(), (700000u64 << 40) | (1u64 << 16));
    let sc2 = ShortChannelId { block: 700000, txindex: 1, outnum: 1 };
    assert_ne!(sc.to_key(), sc2.to_key());
}

#[test]
fn renders_decimals() {
    assert_eq!(u64_to_dec(0), "0");
    assert_eq!(u64_to_dec(7), "7");
    assert_eq!(u64_to_dec(100100), "100100");
    assert_eq!(u64_to_dec(u64::MAX), "18446744073709551615");
}

#[test]
fn renders_hex() {
    assert_eq!(bytes_to_hex(&vec![]), "");
    assert_eq!(bytes_to_hex(&vec![0x00, 0x1f, 0xab, 0xff]), "001fabff");
}

#[test]
fn compares_strings() {
    assert!(str_eq("", ""));
    assert!(str_eq("settled", "settled"));
    assert!(!str_eq("settled", "local_failed"));
    assert!(!str_eq("settled", "settled "));
}
