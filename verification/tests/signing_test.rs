use rust_plurk::form::{param, parse_body, percent_text, serialize_params};
use rust_plurk::oauth1::Oauth1;
use rust_plurk::params::{param_le_exec, sort_params};
use rust_plurk::secret::Secret;

const URL: &str = "https://www.example.com/API/foo";

fn fixture() -> Oauth1 {
    let secret = Secret::new("c1", "c2", None, None).update_token("t3", "t4");
    Oauth1::with_nonce_and_timestamp(secret, "aabbcc123", "1191242096")
}

fn pairs(items: &[(&str, &str)]) -> Vec<(String, String)> {
    items.iter().map(|(k, v)| (k.to_string(), v.to_string())).collect()
}

#[test]
fn signing_twice_gives_the_same_header() {
    let first = fixture().sign("POST", URL, "a=1&b=2&ooo=345").to_header();
    let second = fixture().sign("POST", URL, "a=1&b=2&ooo=345").to_header();
    assert_eq!(first, second);
}

#[test]
fn with_nonce_and_timestamp_matches_the_setters() {
    let secret = Secret::new("c1", "c2", None, None).update_token("t3", "t4");
    let by_setters = Oauth1::new(secret)
        .test_set_nonce("aabbcc123")
        .test_set_timestamp("1191242096")
        .sign("POST", URL, "")
        .to_header();
    assert_eq!(by_setters, fixture().sign("POST", URL, "").to_header());
}

#[test]
fn signature_base_encodes_twice_and_raises_the_method() {
    let base = Oauth1::signature_base(
        "post",
        "https://example.com/a b~*",
        &pairs(&[("k é", "v+&=~*")]),
    );
    assert_eq!(
        base,
        "POST&https%3A%2F%2Fexample.com%2Fa%20b~%2A&k%2B%25C3%25A9%3Dv%252B%2526%253D%257E%2A"
    );
}

#[test]
fn percent_text_leaves_only_unreserved_bytes() {
    assert_eq!(percent_text("a b~*-._é/+=%"), "a%20b~%2A-._%C3%A9%2F%2B%3D%25");
    assert_eq!(percent_text("AZaz09"), "AZaz09");
    assert_eq!(percent_text("\u{0}\u{7f}"), "%00%7F");
    assert_eq!(percent_text(""), "");
}

#[test]
fn url_is_percent_encoded_in_the_base_string() {
    let url = "https://www.example.com/~user/a b*";
    let params = fixture().signing_params(&pairs(&[("a", "1")]));
    assert_eq!(
        Oauth1::signature_base("POST", url, &params),
        "POST&https%3A%2F%2Fwww.example.com%2F~user%2Fa%20b%2A&a%3D1%26oauth_consumer_key%3Dc1\
         %26oauth_nonce%3Daabbcc123%26oauth_signature_method%3DHMAC-SHA1\
         %26oauth_timestamp%3D1191242096%26oauth_token%3Dt3%26oauth_version%3D1.0"
    );
    let header = fixture().sign("POST", url, "a=1").to_header();
    assert!(header.starts_with("OAuth realm=\"https://www.example.com/~user/a b*\", "));
    assert!(header.contains("oauth_signature=\"vCGHET3vUWbbvnSXKnSPzXyqvUI%3D\""));
}

#[test]
fn star_space_and_tilde_in_parameters() {
    let body = pairs(&[("a", "*"), ("b*", " ~")]);
    let params = fixture().signing_params(&body);
    assert_eq!(
        Oauth1::signature_base("POST", URL, &params),
        "POST&https%3A%2F%2Fwww.example.com%2FAPI%2Ffoo&a%3D%2A%26b%2A%3D%2B%257E\
         %26oauth_consumer_key%3Dc1%26oauth_nonce%3Daabbcc123%26oauth_signature_method%3DHMAC-SHA1\
         %26oauth_timestamp%3D1191242096%26oauth_token%3Dt3%26oauth_version%3D1.0"
    );
    let header = fixture().sign_with_params("POST", URL, &body).to_header();
    assert!(header.contains("oauth_signature=\"PgHWi2qbvToA6%2BhOQ55ECVQ6ghY%3D\""));
}

#[test]
fn signature_is_a_percent_encoded_tag_of_twenty_bytes() {
    let header = fixture().sign("POST", URL, "a=1&b=2&ooo=345").to_header();
    let start = header.find("oauth_signature=\"").unwrap() + "oauth_signature=\"".len();
    let end = start + header[start..].find('"').unwrap();
    let signature = &header[start..end];
    assert!(!signature.contains('+') && !signature.contains('/') && !signature.contains('='));
    let plain = signature.replace("%2B", "+").replace("%2F", "/").replace("%3D", "=");
    assert_eq!(plain.len(), 28);
    assert!(plain.ends_with('=') && !plain.ends_with("=="));
}

#[test]
fn timestamp_text_writes_the_seconds() {
    assert_eq!(Oauth1::timestamp_text(Some(1191242096)), "1191242096");
    assert_eq!(Oauth1::timestamp_text(Some(0)), "0");
    assert_eq!(Oauth1::timestamp_text(None), "0");
}

#[test]
fn signature_base_of_no_parameters() {
    assert_eq!(Oauth1::signature_base("GET", "http://h/", &Vec::new()), "GET&http%3A%2F%2Fh%2F&");
}

#[test]
fn method_is_signed_in_upper_case() {
    let header = fixture().sign("post", URL, "a=1&b=2&ooo=345").to_header();
    assert!(header.contains("oauth_signature=\"Q4dy5DkLybAOoGz0qcqW58mTUPc%3D\""));
}

#[test]
fn encode_tag_is_base64_then_escaped() {
    assert_eq!(Oauth1::encode_tag(&[]), "");
    assert_eq!(Oauth1::encode_tag(&[0xfb]), "%2Bw%3D%3D");
    assert_eq!(Oauth1::encode_tag(&[0xfb, 0xff]), "%2B%2F8%3D");
    assert_eq!(Oauth1::encode_tag(b"any carnal pleas"), "YW55IGNhcm5hbCBwbGVhcw%3D%3D");
    assert_eq!(Oauth1::encode_tag(b"any carnal pleasu"), "YW55IGNhcm5hbCBwbGVhc3U%3D");
    assert_eq!(Oauth1::encode_tag(b"any carnal pleasur"), "YW55IGNhcm5hbCBwbGVhc3Vy");
}

#[test]
fn signing_params_sorts_by_name_then_value() {
    let params = fixture().signing_params(&pairs(&[("a", "2"), ("a", "1"), ("B", "x")]));
    assert_eq!(
        serialize_params(&params),
        "B=x&a=1&a=2&oauth_consumer_key=c1&oauth_nonce=aabbcc123&\
         oauth_signature_method=HMAC-SHA1&oauth_timestamp=1191242096&oauth_token=t3&\
         oauth_version=1.0"
    );
    let header = fixture().sign("POST", URL, "a=2&a=1&B=x").to_header();
    assert!(header.contains("oauth_signature=\"ow8mxPJ7SYkY470UQoy%2FkC2YH7M%3D\""));
}

#[test]
fn body_order_does_not_change_the_signature() {
    let one = fixture().sign("POST", URL, "a=1&b=2&ooo=345").to_header();
    let other = fixture().sign("POST", URL, "ooo=345&b=2&a=1").to_header();
    assert_eq!(one, other);
}

#[test]
fn caller_value_replaces_the_generated_one() {
    let body = pairs(&[("a", "1"), ("oauth_nonce", "zzz")]);
    let params = fixture().signing_params(&body);
    let nonces: Vec<&(String, String)> = params.iter().filter(|p| p.0 == "oauth_nonce").collect();
    assert_eq!(nonces, vec![&("oauth_nonce".to_string(), "zzz".to_string())]);
    let header = fixture().sign_with_params("POST", URL, &body).to_header();
    assert_eq!(
        header,
        "OAuth realm=\"https://www.example.com/API/foo\", \
         oauth_consumer_key=\"c1\", \
         oauth_nonce=\"zzz\", \
         oauth_signature=\"KZG%2BE%2FM8oKvb%2FsRZioH9%2BW4kZR8%3D\", \
         oauth_signature_method=\"HMAC-SHA1\", \
         oauth_timestamp=\"1191242096\", \
         oauth_token=\"t3\", \
         oauth_version=\"1.0\""
    );
}

#[test]
fn unknown_oauth_parameter_is_signed_but_not_shown() {
    let body = pairs(&[("a", "1"), ("oauth_unknown", "112")]);
    let params = fixture().signing_params(&body);
    assert!(params.contains(&("oauth_unknown".to_string(), "112".to_string())));
    let with = fixture().sign_with_params("POST", URL, &body).to_header();
    let without = fixture().sign("POST", URL, "a=1").to_header();
    assert_ne!(with, without);
    assert!(!with.contains("oauth_unknown"));
    assert_eq!(with, fixture().sign("POST", URL, "a=1&oauth_unknown=112").to_header());
}

#[test]
fn callback_is_promoted_from_the_body() {
    let set = fixture().test_set_callback("oob").sign("POST", URL, "a=1").to_header();
    let supplied = fixture().sign("POST", URL, "a=1&oauth_callback=oob").to_header();
    assert_eq!(set, supplied);
    assert!(set.contains("oauth_callback=\"oob\""));
}

#[test]
fn verifier_is_promoted_from_the_body() {
    let set = fixture().test_set_verifier("5566").sign("POST", URL, "a=1").to_header();
    let supplied = fixture().sign("POST", URL, "a=1&oauth_verifier=5566").to_header();
    assert_eq!(set, supplied);
}

#[test]
fn escaped_input_is_decoded_before_it_is_signed() {
    let header = fixture().sign("POST", URL, "a=%7E").to_header();
    assert!(header.contains("oauth_signature=\"LDO6HFYsJq6auAKw%2FmWq14zobcI%3D\""));
    assert_eq!(header, fixture().sign_with_params("POST", URL, &pairs(&[("a", "~")])).to_header());
}

#[test]
fn transmitted_body_drops_oauth_parameters() {
    let body = pairs(&[
        ("oauth_verifier", "1"),
        ("a", "1"),
        ("oauth_", ""),
        ("oauth", "kept"),
        ("xoauth_y", "kept"),
        ("OAUTH_z", "kept"),
    ]);
    assert_eq!(
        Oauth1::transmitted_body(&body),
        pairs(&[("a", "1"), ("oauth", "kept"), ("xoauth_y", "kept"), ("OAUTH_z", "kept")])
    );
    assert_eq!(Oauth1::transmitted_body(&Vec::new()), Vec::new());
}

#[test]
fn get_value_by_key_takes_the_first() {
    let data = pairs(&[("a", "1"), ("b", "2"), ("a", "3")]);
    assert_eq!(Oauth1::get_value_by_key("a", &data), Some("1".to_string()));
    assert_eq!(Oauth1::get_value_by_key("b", &data), Some("2".to_string()));
    assert_eq!(Oauth1::get_value_by_key("c", &data), None);
    assert_eq!(Oauth1::get_value_by_key("a", &Vec::new()), None);
}

#[test]
fn to_query_pair_is_in_name_order() {
    let own = fixture().test_set_verifier("v").test_set_callback("cb").to_query_pair();
    assert_eq!(
        own,
        pairs(&[
            ("oauth_callback", "cb"),
            ("oauth_consumer_key", "c1"),
            ("oauth_nonce", "aabbcc123"),
            ("oauth_signature_method", "HMAC-SHA1"),
            ("oauth_timestamp", "1191242096"),
            ("oauth_token", "t3"),
            ("oauth_verifier", "v"),
            ("oauth_version", "1.0"),
        ])
    );
    let secret = Secret::new("c1", "c2", None, None);
    let bare = Oauth1::with_nonce_and_timestamp(secret, "n", "1").to_query_pair();
    assert_eq!(
        bare,
        pairs(&[
            ("oauth_consumer_key", "c1"),
            ("oauth_nonce", "n"),
            ("oauth_signature_method", "HMAC-SHA1"),
            ("oauth_timestamp", "1"),
            ("oauth_version", "1.0"),
        ])
    );
}

#[test]
fn header_of_an_unsigned_request() {
    let secret = Secret::new("c1", "c2", None, None);
    let header = Oauth1::with_nonce_and_timestamp(secret, "n", "1").to_header();
    assert_eq!(
        header,
        "OAuth oauth_consumer_key=\"c1\", oauth_nonce=\"n\", oauth_signature=\"\", \
         oauth_signature_method=\"HMAC-SHA1\", oauth_timestamp=\"1\", oauth_version=\"1.0\""
    );
}

#[test]
fn nonce_is_ten_letters_and_digits() {
    let nonce = Oauth1::gen_nonce(10);
    assert_eq!(nonce.chars().count(), 10);
    assert!(nonce.chars().all(|c| c.is_ascii_alphanumeric()));
    assert_eq!(Oauth1::gen_nonce(0), "");
    assert_eq!(Oauth1::gen_nonce(33).len(), 33);
}

#[test]
fn timestamp_is_the_time_in_seconds() {
    let stamp = Oauth1::gen_timestamp();
    assert!(stamp.chars().all(|c| c.is_ascii_digit()));
    let seconds: u64 = stamp.parse().unwrap();
    assert!(seconds > 1_600_000_000);
}

#[test]
fn new_request_carries_the_credential() {
    let secret = Secret::new("c1", "c2", Some("t1"), Some("t2"));
    let own = Oauth1::new(secret).to_query_pair();
    assert_eq!(own.len(), 6);
    assert_eq!(own[0], param("oauth_consumer_key", "c1"));
    assert_eq!(own[1].1.len(), 10);
    assert_eq!(own[2], param("oauth_signature_method", "HMAC-SHA1"));
    assert_eq!(own[4], param("oauth_token", "t1"));
    assert_eq!(own[5], param("oauth_version", "1.0"));
}

#[test]
fn parse_body_decodes_pairs() {
    assert_eq!(
        parse_body("a=1&b=2+3&c=%26&d"),
        pairs(&[("a", "1"), ("b", "2 3"), ("c", "&"), ("d", "")])
    );
    assert_eq!(parse_body(""), Vec::new());
}

#[test]
fn serialize_params_escapes_both_sides() {
    assert_eq!(
        serialize_params(&pairs(&[("a b", "c&d"), ("é", "~"), ("", "")])),
        "a+b=c%26d&%C3%A9=%7E&="
    );
    assert_eq!(serialize_params(&Vec::new()), "");
}

#[test]
fn sort_params_uses_byte_order() {
    let sorted = sort_params(&pairs(&[
        ("é", "1"),
        ("aa", "a"),
        ("a", "b"),
        ("a", ""),
        ("Z", "9"),
        ("a", "a"),
        ("a", "b"),
    ]));
    assert_eq!(
        sorted,
        pairs(&[
            ("Z", "9"),
            ("a", ""),
            ("a", "a"),
            ("a", "b"),
            ("a", "b"),
            ("aa", "a"),
            ("é", "1"),
        ])
    );
    assert_eq!(sort_params(&Vec::new()), Vec::new());
}

#[test]
fn param_le_exec_compares_name_then_value() {
    assert!(param_le_exec(&param("a", "2"), &param("b", "1")));
    assert!(!param_le_exec(&param("b", "1"), &param("a", "2")));
    assert!(param_le_exec(&param("a", "1"), &param("a", "2")));
    assert!(!param_le_exec(&param("a", "2"), &param("a", "1")));
    assert!(param_le_exec(&param("a", "1"), &param("a", "1")));
}
