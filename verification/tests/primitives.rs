use myso_salt_service::json::{InvalidJson, JsonValue};
use myso_salt_service::models::{
    deserialize_audience, ActionType, AudienceError, GetSaltRequest, OAuthProviderConfig,
};
use myso_salt_service::numeral::{
    decimal_text, read_i32, read_i64, read_natural, read_sixteen_bytes, signed_decimal_text,
};
use myso_salt_service::text::{
    ascii_lowercase, blank, comes_before, comma_items, contains, split_commas, split_on,
    starts_with, trim, trim_end_slashes, white_space,
};

fn parsed(text: &str) -> JsonValue {
    JsonValue::parse(text.as_bytes()).unwrap()
}

#[test]
fn white_space_is_that_of_unicode() {
    for n in 0..=0x10FFFFu32 {
        if let Some(c) = char::from_u32(n) {
            assert_eq!(white_space(c), c.is_whitespace(), "{:x}", n);
        }
    }
}

#[test]
fn trimming() {
    for s in ["", " ", "a", " a ", "\u{3000}a b\u{a0}", "\u{200b}a", "é \t"] {
        assert_eq!(trim(s), s.trim());
        assert_eq!(blank(s), s.trim().is_empty());
    }
    for s in ["", "/", "a/", "a//b//", "/a"] {
        assert_eq!(trim_end_slashes(s), s.trim_end_matches('/'));
    }
}

#[test]
fn splitting() {
    for s in ["", ",", "a", "a,b", ",a,,b,", "é,ü"] {
        let expected: Vec<String> = s.split(',').map(str::to_string).collect();
        assert_eq!(split_on(s, ','), expected);
    }
    assert_eq!(split_commas(" a ,b, "), vec!["a", "b", ""]);
    assert_eq!(comma_items(" a ,b, "), vec!["a", "b"]);
}

#[test]
fn searching_and_comparing() {
    for (s, n) in [("abc", "b"), ("abc", ""), ("", ""), ("ab", "abc"), ("aab", "ab"), ("é", "é")] {
        assert_eq!(contains(s, n), s.contains(n));
        assert_eq!(starts_with(s, n), s.starts_with(n));
    }
    let words = ["", "a", "ab", "b", "Z", "é", "\u{ffff}", "\u{10000}"];
    for a in words {
        for b in words {
            assert_eq!(comes_before(a, b), a < b);
        }
    }
    assert_eq!(ascii_lowercase("AbZÉ1"), "AbZÉ1".to_ascii_lowercase());
}

#[test]
fn decimal_numerals() {
    for n in [0, 9, 10, 99, 100, 12345678901234567890, u128::MAX] {
        assert_eq!(decimal_text(n), n.to_string());
    }
    for n in [0, -1, i64::MIN, i64::MAX, 1800] {
        assert_eq!(signed_decimal_text(n), n.to_string());
    }
}

#[test]
fn reading_numerals() {
    for s in ["", "+", "-", "0", "+7", "-7", "007", "12a", " 1", "2147483647", "2147483648"] {
        assert_eq!(read_i32(s), s.parse::<i32>().ok(), "{}", s);
        assert_eq!(read_i64(s), s.parse::<i64>().ok(), "{}", s);
        assert_eq!(read_natural(s, 65535).map(|v| v as u16), s.parse::<u16>().ok(), "{}", s);
    }
    for s in ["-2147483648", "-2147483649", "-0", "+-1"] {
        assert_eq!(read_i32(s), s.parse::<i32>().ok(), "{}", s);
    }
    for s in ["-9223372036854775808", "-9223372036854775809", "9223372036854775808"] {
        assert_eq!(read_i64(s), s.parse::<i64>().ok(), "{}", s);
    }
    assert_eq!(read_natural("99999999999999999999999999", u64::MAX), None);
    assert_eq!(read_natural("18446744073709551615", u64::MAX), Some(u64::MAX));
}

#[test]
fn sixteen_bytes_are_big_endian() {
    let mut bytes = [0u8; 16];
    for (i, b) in bytes.iter_mut().enumerate() {
        *b = (17 * i + 3) as u8;
    }
    assert_eq!(read_sixteen_bytes(&bytes), u128::from_be_bytes(bytes));
    assert_eq!(read_sixteen_bytes(&[255u8; 16]), u128::MAX);
}

#[test]
fn json_is_read_as_it_is_written() {
    let value = parsed(r#"{"n":null,"b":true,"t":"xé","i":-12,"u":18446744073709551615,"f":1.0,"e":1e3,"a":[1,"y"]}"#);
    assert!(matches!(value.get("n"), Some(JsonValue::Null)));
    assert_eq!(value.get("b").unwrap().as_bool(), Some(true));
    assert_eq!(value.get_str("t"), Some("xé"));
    assert_eq!(value.get("i").unwrap().as_i64(), Some(-12));
    assert_eq!(value.get("u").unwrap().as_i64(), None);
    assert_eq!(value.get("f").unwrap().as_i64(), None);
    assert_eq!(value.get("e").unwrap().as_i64(), None);
    assert_eq!(value.get("t").unwrap().as_i64(), None);
    assert_eq!(value.get("t").unwrap().as_bool(), None);
    assert_eq!(value.get_str("i"), None);
    assert!(value.get("missing").is_none());
    assert!(value.get("a").unwrap().get("0").is_none());
    match value.get("a") {
        Some(JsonValue::Array(items)) => {
            assert_eq!(items[0].as_i64(), Some(1));
            assert_eq!(items[1].as_str(), Some("y"));
        }
        other => panic!("{:?}", other),
    }
    assert_eq!(JsonValue::parse(b"{").unwrap_err(), InvalidJson);
    // Of members with the same name the last one counts in a parsed document.
    assert_eq!(parsed(r#"{"k":"1","k":"2"}"#).get_str("k"), Some("2"));
}

#[test]
fn integers_are_those_of_serde_json() {
    for text in ["0", "-0", "1", "-1", "9223372036854775807", "9223372036854775808", "-9223372036854775808", "-9223372036854775809", "1.5", "1e2", "1E400"] {
        let outside = serde_json::from_str::<serde_json::Value>(text);
        match JsonValue::parse(text.as_bytes()) {
            Ok(value) => assert_eq!(value.as_i64(), outside.unwrap().as_i64(), "{}", text),
            Err(_) => assert!(outside.is_err(), "{}", text),
        }
    }
}

#[test]
fn audiences() {
    assert_eq!(deserialize_audience(&parsed(r#""a""#)), Ok("a".to_string()));
    assert_eq!(deserialize_audience(&parsed(r#"["a","b"]"#)), Ok("a".to_string()));
    assert_eq!(deserialize_audience(&parsed(r#"["a",1]"#)), Ok("a".to_string()));
    assert_eq!(deserialize_audience(&parsed("[]")), Err(AudienceError::EmptyArray));
    assert_eq!(
        deserialize_audience(&parsed("[1]")),
        Err(AudienceError::FirstNotText { found: "integer `1`".into() })
    );
    assert_eq!(
        deserialize_audience(&parsed("null")),
        Err(AudienceError::NotAudience { found: "null".into() })
    );
}

struct Audience;

impl<'de> serde::de::Visitor<'de> for Audience {
    type Value = String;

    fn expecting(&self, formatter: &mut std::fmt::Formatter) -> std::fmt::Result {
        formatter.write_str("a string or array of strings")
    }
}

#[test]
fn audience_errors_are_worded_like_those_of_serde() {
    let values = ["null", "true", "false", "1", "-5", "18446744073709551615", "1.5", "1e30", "-0", "{}", r#"{"a":1}"#];
    for text in values {
        let outside: serde_json::Value = serde_json::from_str(text).unwrap();
        let expected = serde::Deserializer::deserialize_any(outside.clone(), Audience).unwrap_err();
        let e = deserialize_audience(&parsed(text)).unwrap_err();
        assert_eq!(e.message(), expected.to_string());
        let expected = serde_json::from_value::<String>(outside).unwrap_err();
        let e = deserialize_audience(&parsed(&format!("[{}]", text))).unwrap_err();
        assert_eq!(e.message(), expected.to_string());
    }
    let e = deserialize_audience(&parsed("[[]]")).unwrap_err();
    assert_eq!(e.message(), "invalid type: sequence, expected a string");
    assert_eq!(AudienceError::EmptyArray.message(), "audience array is empty");
    assert_eq!(parsed(r#""a\"b""#).describe(), r#"string "a\"b""#);
}

#[test]
fn salt_requests() {
    let jwt = GetSaltRequest::Jwt { jwt: "j".into() };
    assert!(jwt.is_jwt());
    assert_eq!(jwt.token(), "j");
    assert_eq!(jwt.provider(), None);
    let provider = GetSaltRequest::Provider { provider: "p".into(), token: "t".into() };
    assert!(!provider.is_jwt());
    assert_eq!(provider.token(), "t");
    assert_eq!(provider.provider(), Some("p"));
}

#[test]
fn action_names() {
    assert_eq!(ActionType::Create.as_str(), "CREATE");
    assert_eq!(ActionType::Read.as_str(), "READ");
    assert_eq!(ActionType::Rotate.as_str(), "ROTATE");
    assert_eq!(ActionType::Error.as_str(), "ERROR");
}

#[test]
fn provider_endpoints() {
    let google = OAuthProviderConfig::google();
    assert_eq!(google.issuer, "https://accounts.google.com");
    assert_eq!(google.jwks_uri, "https://www.googleapis.com/oauth2/v3/certs");
    assert_eq!(google.token_endpoint.as_deref(), Some("https://oauth2.googleapis.com/token"));
    let facebook = OAuthProviderConfig::facebook();
    assert_eq!(facebook.userinfo_endpoint.as_deref(), Some("https://graph.facebook.com/me"));
    assert_eq!(OAuthProviderConfig::apple().userinfo_endpoint, None);
    let twitch = OAuthProviderConfig::twitch();
    assert_eq!(twitch.issuer, "https://id.twitch.tv/oauth2");
    let own = OAuthProviderConfig::mysocial("i".into(), "j".into());
    assert_eq!((own.issuer.as_str(), own.jwks_uri.as_str()), ("i", "j"));
    assert!(own.token_endpoint.is_none() && own.userinfo_endpoint.is_none());
}
