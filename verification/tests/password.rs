use flashquiz::password::{hasher, initialise, initialise_argon, verify, Argon};

fn context() -> Argon {
    Argon { salt: "c29tZXNhbHRzb21lc2FsdA".to_string() }
}

#[test]
fn hash_is_a_phc_string_of_the_salt() {
    let hash = hasher("correct horse".to_string(), context()).unwrap();
    assert!(hash.starts_with("$argon2id$v=19$m=19456,t=2,p=1$c29tZXNhbHRzb21lc2FsdA$"));
    assert_ne!(hash, "correct horse");
}

#[test]
fn hashing_is_a_function_of_password_and_salt() {
    let one = hasher("pw".to_string(), context()).unwrap();
    let two = hasher("pw".to_string(), context()).unwrap();
    assert_eq!(one, two);
    let other = hasher("pw2".to_string(), context()).unwrap();
    assert_ne!(one, other);
    let salted = hasher("pw".to_string(), Argon { salt: "b3RoZXJzYWx0b3RoZXJzYQ".to_string() });
    assert_ne!(one, salted.unwrap());
}

#[test]
fn unreadable_salt_fails_the_hashing() {
    let r = hasher("pw".to_string(), Argon { salt: "no".to_string() });
    assert!(r.is_err());
    let r = hasher("pw".to_string(), Argon { salt: "not a salt!".to_string() });
    assert!(r.is_err());
}

#[test]
fn right_password_is_accepted() {
    let hash = hasher("open sesame".to_string(), context()).unwrap();
    assert_eq!(verify("open sesame".to_string(), hash, context()), Ok(true));
}

#[test]
fn wrong_password_is_rejected() {
    let hash = hasher("open sesame".to_string(), context()).unwrap();
    assert_eq!(verify("open barley".to_string(), hash, context()), Ok(false));
}

#[test]
fn stored_text_that_is_no_hash_is_an_error() {
    let r = verify("pw".to_string(), "plainly not a hash".to_string(), context());
    assert_eq!(r, Err("password hash string missing field".to_string()));
    let r = verify("pw".to_string(), String::new(), context());
    assert!(r.is_err());
}

#[test]
fn verification_reads_the_salt_of_the_stored_hash() {
    let hash = hasher("pw".to_string(), context()).unwrap();
    let other = Argon { salt: "b3RoZXJzYWx0b3RoZXJzYQ".to_string() };
    assert_eq!(verify("pw".to_string(), hash, other), Ok(true));
}

#[test]
fn fresh_salt_has_twenty_two_characters() {
    let argon = initialise_argon();
    assert_eq!(argon.salt.len(), 22);
    let util = initialise();
    assert_eq!(util.Argon.salt.chars().count(), 22);
    assert_ne!(argon.salt, util.Argon.salt);
}

#[test]
fn fresh_context_hashes_and_verifies() {
    let util = initialise();
    let hash = hasher("s3cret".to_string(), util.Argon.clone()).unwrap();
    assert!(hash.contains(&util.Argon.salt));
    assert_eq!(verify("s3cret".to_string(), hash, util.Argon), Ok(true));
}
