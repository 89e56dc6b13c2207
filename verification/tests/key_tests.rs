use databend_common::kv_api_key::decode_id;
use databend_common::kv_api_key::escape;
use databend_common::kv_api_key::parse_u64_str;
use databend_common::kv_api_key::split_key;
use databend_common::kv_api_key::unescape;
use databend_common::kv_api_key::unescape_name;
use databend_common::kv_api_key::KVApiKeyError;
use databend_common::kv_api_key::ParseIdError;
use databend_common::share::ShareAccountNameIdent;
use databend_common::share::ShareId;
use databend_common::share::ShareIdToName;
use databend_common::share::ShareNameIdent;
use databend_common::share_api_keys::ShareIdGen;

#[test]
fn escape_keeps_plain_characters_and_escapes_the_rest() {
    assert_eq!(escape("abc_XYZ_019"), "abc_XYZ_019");
    assert_eq!(escape("a/b"), "a%2fb");
    assert_eq!(escape("a b%"), "a%20b%25");
    assert_eq!(escape("é"), "%c3%a9");
    assert_eq!(escape(""), "");
}

#[test]
fn unescape_undoes_escape() {
    for name in ["a/b", "tenant-1", "é/ü", "", "100%"] {
        let e = escape(name);
        assert_eq!(unescape(&e).unwrap(), name);
        assert_eq!(unescape_name(&e).unwrap(), name);
    }
}

#[test]
fn unescape_of_bytes_that_are_not_utf8_fails() {
    match unescape("%ff") {
        Err(KVApiKeyError::FromUtf8Error) => {}
        other => panic!("unexpected {:?}", other),
    }
}

#[test]
fn parse_u64_str_follows_the_std_rules() {
    assert_eq!(parse_u64_str("0"), Ok(0));
    assert_eq!(parse_u64_str("+42"), Ok(42));
    assert_eq!(parse_u64_str("18446744073709551615"), Ok(u64::MAX));
    assert_eq!(parse_u64_str(""), Err(ParseIdError::Empty));
    assert_eq!(parse_u64_str("+"), Err(ParseIdError::InvalidDigit));
    assert_eq!(parse_u64_str("-1"), Err(ParseIdError::InvalidDigit));
    assert_eq!(parse_u64_str("12a"), Err(ParseIdError::InvalidDigit));
    assert_eq!(parse_u64_str("18446744073709551616"), Err(ParseIdError::PosOverflow));
    for s in ["0", "+7", "", "x", "99999999999999999999"] {
        assert_eq!(parse_u64_str(s).ok(), s.parse::<u64>().ok());
    }
}

#[test]
fn decode_id_names_the_segment_and_the_reason() {
    assert_eq!(decode_id("123").unwrap(), 123);
    match decode_id("1x") {
        Err(KVApiKeyError::InvalidId { s, reason }) => {
            assert_eq!(s, "1x");
            assert_eq!(reason, "invalid digit found in string");
        }
        other => panic!("unexpected {:?}", other),
    }
    match decode_id("") {
        Err(KVApiKeyError::InvalidId { reason, .. }) => {
            assert_eq!(reason, "cannot parse integer from empty string");
        }
        other => panic!("unexpected {:?}", other),
    }
}

#[test]
fn split_key_splits_at_every_slash() {
    assert_eq!(split_key("a/b/c"), vec!["a", "b", "c"]);
    assert_eq!(split_key("a//"), vec!["a", "", ""]);
    assert_eq!(split_key(""), vec![""]);
}

#[test]
fn share_id_gen_key() {
    assert_eq!(ShareIdGen {}.to_key(), "__fd_id_gen/share_id");
}

#[test]
fn share_name_key_round_trip() {
    let n = ShareNameIdent { tenant: "tenant/1".to_string(), share_name: "share 1".to_string() };
    let k = n.to_key();
    assert_eq!(k, "__fd_share/tenant%2f1/share%201");
    let back = ShareNameIdent::from_key(&k).unwrap();
    assert_eq!(back.tenant, "tenant/1");
    assert_eq!(back.share_name, "share 1");
}

#[test]
fn share_id_keys_round_trip() {
    let k = ShareId { share_id: 42 }.to_key();
    assert_eq!(k, "__fd_share_id/42");
    assert_eq!(ShareId::from_key(&k).unwrap().share_id, 42);
    let k = ShareIdToName { share_id: 7 }.to_key();
    assert_eq!(k, "__fd_share_id_to_name/7");
    assert_eq!(ShareIdToName::from_key(&k).unwrap().share_id, 7);
    let a = ShareAccountNameIdent { account: "acc/x".to_string(), share_id: 9 };
    let k = a.to_key();
    assert_eq!(k, "__fd_share_account_id/acc%2fx/9");
    let back = ShareAccountNameIdent::from_key(&k).unwrap();
    assert_eq!(back.account, "acc/x");
    assert_eq!(back.share_id, 9);
}

#[test]
fn share_key_errors() {
    match ShareId::from_key("__fd_share/42") {
        Err(KVApiKeyError::InvalidSegment { i, expect, got }) => {
            assert_eq!(i, 0);
            assert_eq!(expect, "__fd_share_id");
            assert_eq!(got, "__fd_share");
        }
        other => panic!("unexpected {:?}", other),
    }
    match ShareId::from_key("__fd_share_id/1/2") {
        Err(KVApiKeyError::WrongNumberOfSegments { expect, got }) => {
            assert_eq!(expect, 2);
            assert_eq!(got, "__fd_share_id/1/2");
        }
        other => panic!("unexpected {:?}", other),
    }
    match ShareId::from_key("__fd_share_id/abc") {
        Err(KVApiKeyError::InvalidId { s, .. }) => assert_eq!(s, "abc"),
        other => panic!("unexpected {:?}", other),
    }
    match ShareNameIdent::from_key("__fd_share/t/%ff") {
        Err(KVApiKeyError::FromUtf8Error) => {}
        other => panic!("unexpected {:?}", other),
    }
}
