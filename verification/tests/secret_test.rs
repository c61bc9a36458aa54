use rust_plurk::secret::{Secret, SecretError};

#[test]
fn test_secret_unauthed() {
    let secret = Secret::new("c1", "c2", None, None);
    let res = secret.describe();
    assert_eq!(res, "Consumer Key: c1\nConsumer Secret: c2");
    assert_eq!(secret.get_consumer_key(), "c1");
    assert_eq!(secret.get_token_key(), None);
    assert_eq!(secret.get_sign_secret(), "c2&");
}

#[test]
fn test_secret_authed() {
    let secret = Secret::new("c1", "c2", None, None).update_token("t1", "t2");
    let res = secret.describe();
    assert_eq!(
        res,
        "Consumer Key: c1\nConsumer Secret: c2\nToken Key: t1\nToken Secret: t2"
    );
    assert_eq!(secret.get_token_key(), Some(String::from("t1")));
    assert_eq!(secret.get_sign_secret(), "c2&t2");
    let mut secret = secret;
    secret.update_token_mut("t3", "t4");
    let res = secret.describe();
    assert_eq!(
        res,
        "Consumer Key: c1\nConsumer Secret: c2\nToken Key: t3\nToken Secret: t4"
    );
}

#[test]
fn test_error() {
    let res = SecretError::IOError(String::from("abc")).describe();
    assert_eq!(res, "IO Error: abc");

    let res = SecretError::TOMLError(String::from("abc")).describe();
    assert_eq!(res, "TOML Error: abc");
}

#[test]
fn token_needs_both_parts() {
    assert_eq!(Secret::new("c1", "c2", Some("t1"), None).get_token_key(), None);
    assert_eq!(Secret::new("c1", "c2", None, Some("t2")).get_token_key(), None);
    let full = Secret::new("c1", "c2", Some("t1"), Some("t2"));
    assert_eq!(full.get_token_key(), Some("t1".to_string()));
    assert_eq!(full.get_token_secret(), Some("t2".to_string()));
    assert_eq!(full.get_consumer_secret(), "c2");
    assert_eq!(full.get_sign_secret(), "c2&t2");
}

#[test]
fn sign_secret_is_not_escaped() {
    let secret = Secret::new("k", "a&b c", Some("t"), Some("d%e"));
    assert_eq!(secret.get_sign_secret(), "a&b c&d%e");
}

#[test]
fn parts_round_trip() {
    for secret in [
        Secret::new("c1", "c2", None, None),
        Secret::new("c1", "c2", Some("t1"), Some("t2")),
    ] {
        let key = secret.get_token_key();
        let token_secret = secret.get_token_secret();
        let again = Secret::new(
            &secret.get_consumer_key(),
            &secret.get_consumer_secret(),
            key.as_deref(),
            token_secret.as_deref(),
        );
        assert_eq!(again.describe(), secret.describe());
        assert_eq!(again.get_sign_secret(), secret.get_sign_secret());
        assert_eq!(again.get_token_key(), secret.get_token_key());
    }
}

#[test]
fn clone_keeps_the_credential() {
    let secret = Secret::new("c1", "c2", Some("t1"), Some("t2"));
    assert_eq!(secret.clone().describe(), secret.describe());
}
