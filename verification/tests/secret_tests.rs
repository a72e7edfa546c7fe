use bender_config::config::Config;
use bender_config::secret::{appsecret_ok, fresh_uuid_string, salt_from_secret};

#[test]
fn generated_appsecret_is_well_formed() {
    let s = Config::generate_appsecret();
    assert!(appsecret_ok(&s));
    assert_eq!(s.len(), 256);
}

#[test]
fn two_appsecrets_differ() {
    assert_ne!(Config::generate_appsecret(), Config::generate_appsecret());
}

#[test]
fn appsecret_check_rejects_bad_tokens() {
    assert!(!appsecret_ok("short"));
    let with_space = format!("{} {}", "a".repeat(128), "b".repeat(127));
    assert_eq!(with_space.len(), 256);
    assert!(!appsecret_ok(&with_space));
}

#[test]
fn salt_of_empty_secret_is_known_digest() {
    // the 512-bit hash of the empty string, in lowercase hexadecimal
    let expected = "786a02f742015903c6c6fd852552d272912f4740e15847618a86e217f71f5419\
d25e1031afee585313896444934eb04b903a685b1448b755d56f701afe9be2ce";
    assert_eq!(salt_from_secret(""), expected);
}

#[test]
fn salt_is_128_lowercase_hex_characters() {
    let salt = salt_from_secret("a secret token");
    assert_eq!(salt.len(), 128);
    assert!(salt.chars().all(|c| c.is_ascii_digit() || ('a'..='f').contains(&c)));
    // stable: the same secret yields the same salt
    assert_eq!(salt, salt_from_secret("a secret token"));
    // and another secret yields another salt
    assert_ne!(salt, salt_from_secret("another token"));
}

#[test]
fn fresh_identifiers_have_the_hyphenated_form_and_differ() {
    let a = fresh_uuid_string();
    let b = fresh_uuid_string();
    assert_ne!(a, b);
    for s in [&a, &b] {
        assert_eq!(s.len(), 36);
        let bytes = s.as_bytes();
        for (i, c) in bytes.iter().enumerate() {
            if i == 8 || i == 13 || i == 18 || i == 23 {
                assert_eq!(*c, b'-');
            } else {
                assert!(c.is_ascii_digit() || (b'a'..=b'f').contains(c));
            }
        }
    }
}
