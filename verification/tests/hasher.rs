use argon2::password_hash::Error;
use cr8s::hasher::{
    accepted, hash_password, hash_with_salt, hashed, verify_password, HashFailure,
};

#[test]
fn hash_verifies_its_password() {
    let hash = hash_password("s3cret".to_string()).unwrap();
    assert!(verify_password("s3cret", &hash));
}

#[test]
fn hash_refuses_other_passwords() {
    let hash = hash_password("s3cret".to_string()).unwrap();
    assert!(!verify_password("s3cre", &hash));
    assert!(!verify_password("S3cret", &hash));
    assert!(!verify_password("", &hash));
}

#[test]
fn hashing_twice_gives_two_hashes_that_both_verify() {
    let first = hash_password("1234".to_string()).unwrap();
    let second = hash_password("1234".to_string()).unwrap();
    assert_ne!(first, second);
    assert!(verify_password("1234", &first));
    assert!(verify_password("1234", &second));
}

#[test]
fn hash_is_self_describing_and_hides_the_password() {
    let hash = hash_password("hunter42".to_string()).unwrap();
    assert!(hash.starts_with("$argon2id$v=19$"), "hash {:?}", hash);
    assert_eq!(hash.split('$').count(), 6);
    assert!(!hash.contains("hunter42"));
    assert_ne!(hash, "hunter42");
}

#[test]
fn empty_and_non_ascii_passwords_round_trip() {
    let empty = hash_password(String::new()).unwrap();
    assert!(verify_password("", &empty));
    assert!(!verify_password(" ", &empty));
    let accented = hash_password("pässwörd✓".to_string()).unwrap();
    assert!(verify_password("pässwörd✓", &accented));
    assert!(!verify_password("password", &accented));
}

#[test]
fn malformed_stored_hash_is_refused() {
    assert!(!verify_password("s3cret", ""));
    assert!(!verify_password("s3cret", "s3cret"));
    assert!(!verify_password("s3cret", "not a hash"));
    assert!(!verify_password("s3cret", "$argon2id$v=19$m=19456,t=2,p=1$"));
    assert!(!verify_password("s3cret", "$unknown$v=1$abc$def"));
    assert!(!verify_password("", ""));
}

#[test]
fn truncated_or_tampered_hash_is_refused() {
    let stored = "$argon2id$v=19$m=19456,t=2,p=1$c29tZXNhbHRzb21lc2FsdA$";
    assert!(!verify_password("anything", stored));
    let hash = hash_password("alice".to_string()).unwrap();
    let mut tampered = hash.clone();
    let last = tampered.pop().unwrap();
    tampered.push(if last == 'A' { 'B' } else { 'A' });
    assert!(!verify_password("alice", &tampered));
    assert!(verify_password("alice", &hash));
}

#[test]
fn outcomes_of_the_hasher_are_mapped() {
    assert_eq!(hashed(Ok("$x".to_string())), Ok("$x".to_string()));
    assert_eq!(hashed(Err(Error::Password)), Err(HashFailure));
    assert_eq!(hashed(Err(Error::Crypto)), Err(HashFailure));
    assert!(accepted(Ok(())));
    assert!(!accepted(Err(Error::Password)));
    assert!(!accepted(Err(Error::PhcStringField)));
    assert!(!accepted(Err(Error::Algorithm)));
}

#[test]
fn hash_under_a_given_salt_is_pinned() {
    assert_eq!(
        hash_with_salt("s3cret", "c29tZXNhbHRzb21lc2FsdA"),
        Ok("$argon2id$v=19$m=19456,t=2,p=1$c29tZXNhbHRzb21lc2FsdA$/5OY/UwI/nwBHPfDH7jM5pQNdXeey07S4f4dAW1/Wbo"
            .to_string())
    );
}

#[test]
fn hash_under_a_given_salt_is_a_function_of_password_and_salt() {
    let salt = "c29tZXNhbHRzb21lc2FsdA";
    let first = hash_with_salt("s3cret", salt).unwrap();
    let second = hash_with_salt("s3cret", salt).unwrap();
    assert_eq!(first, second);
    assert_ne!(first, hash_with_salt("s3cre7", salt).unwrap());
    assert_ne!(first, hash_with_salt("s3cret", "b3RoZXJzYWx0b3RoZXJzYWx0").unwrap());
}

#[test]
fn hash_under_a_given_salt_carries_the_salt_and_verifies() {
    let salt = "c29tZXNhbHRzb21lc2FsdA";
    let hash = hash_with_salt("s3cret", salt).unwrap();
    assert!(hash.starts_with("$argon2id$v=19$m=19456,t=2,p=1$c29tZXNhbHRzb21lc2FsdA$"));
    assert!(verify_password("s3cret", &hash));
    assert!(!verify_password("s3cre7", &hash));
}

#[test]
fn salt_that_cannot_be_read_fails_the_hash() {
    assert_eq!(hash_with_salt("s3cret", ""), Err(HashFailure));
    assert_eq!(hash_with_salt("s3cret", "abc"), Err(HashFailure));
    assert_eq!(hash_with_salt("s3cret", "not base64!!"), Err(HashFailure));
    assert_eq!(hash_with_salt("s3cret", "c29tZQ"), Err(HashFailure));
}

#[test]
fn fresh_hash_is_under_a_salt_of_its_own() {
    let hash = hash_password("s3cret".to_string()).unwrap();
    let parts: Vec<&str> = hash.split('$').collect();
    assert_eq!(parts.len(), 6);
    assert_eq!(parts[1], "argon2id");
    assert_eq!(parts[2], "v=19");
    assert_eq!(parts[3], "m=19456,t=2,p=1");
    assert_eq!(parts[4].len(), 22);
    assert_eq!(hash_with_salt("s3cret", parts[4]), Ok(hash.clone()));
    let other = hash_password("s3cret".to_string()).unwrap();
    assert_ne!(other.split('$').nth(4), Some(parts[4]));
}

#[test]
fn stored_hash_with_a_parallelism_out_of_bounds_is_refused() {
    let stored = "$argon2id$v=19$m=4294967295,t=1,p=536870912$c29tZXNhbHQ$aGFzaGhhc2hoYXNo";
    assert!(!verify_password("s3cret", stored));
    assert!(!verify_password("", stored));
    let larger = "$argon2id$v=19$m=4294967295,t=1,p=4294967295$c29tZXNhbHQ$aGFzaGhhc2hoYXNo";
    assert!(!verify_password("s3cret", larger));
}

#[test]
fn stored_hash_with_a_parallelism_that_argon2_rejects_is_refused() {
    let just_below = "$argon2id$v=19$m=4294967295,t=1,p=536870911$c29tZXNhbHQ$aGFzaGhhc2hoYXNo";
    assert!(!verify_password("s3cret", just_below));
    let too_many = "$argon2id$v=19$m=4294967295,t=1,p=16777216$c29tZXNhbHQ$aGFzaGhhc2hoYXNo";
    assert!(!verify_password("s3cret", too_many));
}
