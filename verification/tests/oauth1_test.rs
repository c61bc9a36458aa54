use rust_plurk::oauth1::Oauth1;
use rust_plurk::secret::Secret;

#[test]
fn test_request() {
    let secret = Secret::new("c1", "c2", None, None);
    let oauth = Oauth1::new(secret)
        .test_set_nonce("aabbcc123")
        .test_set_timestamp("1191242096")
        .test_set_callback("oob")
        .sign("POST", "https://www.example.com/API/foo", "a=1&b=2&ooo=345")
        .to_header();
    assert_eq!(
        oauth,
        "OAuth realm=\"https://www.example.com/API/foo\", \
        oauth_callback=\"oob\", \
        oauth_consumer_key=\"c1\", \
        oauth_nonce=\"aabbcc123\", \
        oauth_signature=\"qam71izC3bro%2FDWpwJq9PYwgZu4%3D\", \
        oauth_signature_method=\"HMAC-SHA1\", \
        oauth_timestamp=\"1191242096\", \
        oauth_version=\"1.0\""
    );
}

#[test]
fn test_verify() {
    let secret = Secret::new("c1", "c2", None, None).update_token("t1", "t2");
    let oauth = Oauth1::new(secret)
        .test_set_nonce("aabbcc123")
        .test_set_timestamp("1191242096")
        .test_set_verifier("5566")
        .sign("POST", "https://www.example.com/API/foo", "a=1&b=2&ooo=345")
        .to_header();
    assert_eq!(
        oauth,
        "OAuth realm=\"https://www.example.com/API/foo\", \
        oauth_consumer_key=\"c1\", \
        oauth_nonce=\"aabbcc123\", \
        oauth_signature=\"KRfqrNw25YTQUi9SvV6%2Fguq9YUQ%3D\", \
        oauth_signature_method=\"HMAC-SHA1\", \
        oauth_timestamp=\"1191242096\", \
        oauth_token=\"t1\", \
        oauth_verifier=\"5566\", \
        oauth_version=\"1.0\""
    );
}

#[test]
fn test_auto_parse_oauth_param() {
    let secret = Secret::new("c1", "c2", None, None).update_token("t1", "t2");
    let oauth = Oauth1::new(secret)
        .test_set_nonce("aabbcc123")
        .test_set_timestamp("1191242096")
        .sign(
            "POST",
            "https://www.example.com/API/foo",
            "a=1&b=2&ooo=345&oauth_verifier=5566",
        )
        .to_header();
    assert_eq!(
        oauth,
        "OAuth realm=\"https://www.example.com/API/foo\", \
        oauth_consumer_key=\"c1\", \
        oauth_nonce=\"aabbcc123\", \
        oauth_signature=\"KRfqrNw25YTQUi9SvV6%2Fguq9YUQ%3D\", \
        oauth_signature_method=\"HMAC-SHA1\", \
        oauth_timestamp=\"1191242096\", \
        oauth_token=\"t1\", \
        oauth_verifier=\"5566\", \
        oauth_version=\"1.0\""
    );
}

#[test]
fn test_access() {
    let secret = Secret::new("c1", "c2", None, None).update_token("t3", "t4");
    let oauth = Oauth1::new(secret)
        .test_set_nonce("aabbcc123")
        .test_set_timestamp("1191242096")
        .sign("POST", "https://www.example.com/API/foo", "a=1&b=2&ooo=345")
        .to_header();
    assert_eq!(
        oauth,
        "OAuth realm=\"https://www.example.com/API/foo\", \
               oauth_consumer_key=\"c1\", \
               oauth_nonce=\"aabbcc123\", \
               oauth_signature=\"Q4dy5DkLybAOoGz0qcqW58mTUPc%3D\", \
               oauth_signature_method=\"HMAC-SHA1\", \
               oauth_timestamp=\"1191242096\", \
               oauth_token=\"t3\", \
               oauth_version=\"1.0\""
    );
}

#[test]
fn test_query() {
    let secret = Secret::new("c1", "c2", None, None).update_token("t3", "t4");
    let oauth = Oauth1::new(secret)
        .test_set_nonce("aabbcc123")
        .test_set_timestamp("1191242096")
        .sign(
            "POST",
            "https://www.example.com/API/foo",
            "a=1&b=2&ooo=345+",
        )
        .to_header();
    assert_eq!(
        oauth,
        "OAuth realm=\"https://www.example.com/API/foo\", \
               oauth_consumer_key=\"c1\", \
               oauth_nonce=\"aabbcc123\", \
               oauth_signature=\"DGrj27ipWXGB5Qv0aQ0hJenC6%2B4%3D\", \
               oauth_signature_method=\"HMAC-SHA1\", \
               oauth_timestamp=\"1191242096\", \
               oauth_token=\"t3\", \
               oauth_version=\"1.0\""
    );
}

#[test]
fn test_extra_oauth_param() {
    let secret = Secret::new("c1", "c2", None, None).update_token("t3", "t4");
    let oauth = Oauth1::new(secret)
        .test_set_nonce("aabbcc123")
        .test_set_timestamp("1191242096")
        .sign(
            "POST",
            "https://www.example.com/API/foo",
            "a=1&b=2&ooo=345+&oauth_unknown=112",
        )
        .to_header();
    assert_eq!(
        oauth,
        "OAuth realm=\"https://www.example.com/API/foo\", \
               oauth_consumer_key=\"c1\", \
               oauth_nonce=\"aabbcc123\", \
               oauth_signature=\"odO8x3BWLT9SdokzdGG99%2BOZb84%3D\", \
               oauth_signature_method=\"HMAC-SHA1\", \
               oauth_timestamp=\"1191242096\", \
               oauth_token=\"t3\", \
               oauth_version=\"1.0\""
    );
}

#[test]
fn test_clean() {
    let secret = Secret::new("c1", "c2", None, None).update_token("t3", "t4");
    let oauth = Oauth1::new(secret)
        .test_set_nonce("aabbcc123")
        .test_set_timestamp("1191242096")
        .sign("POST", "https://www.example.com/API/foo", "")
        .to_header();
    assert_eq!(
        oauth,
        "OAuth realm=\"https://www.example.com/API/foo\", \
               oauth_consumer_key=\"c1\", \
               oauth_nonce=\"aabbcc123\", \
               oauth_signature=\"wStrZYCwsImMLtk4CwB3whzGoOA%3D\", \
               oauth_signature_method=\"HMAC-SHA1\", \
               oauth_timestamp=\"1191242096\", \
               oauth_token=\"t3\", \
               oauth_version=\"1.0\""
    );
}
