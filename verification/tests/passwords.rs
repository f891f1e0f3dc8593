use joltamp::passwords::{hash_password, hash_password_ret, verify_password};

#[test]
fn hash_then_verify_succeeds() {
    let plain = String::from("secret123");
    let hash = hash_password_ret(&plain).expect("hashing should succeed");
    assert!(verify_password("secret123", &hash).is_ok());
}

#[test]
fn hash_never_equals_plaintext() {
    let plain = String::from("secret123");
    let hash = hash_password_ret(&plain).expect("hashing should succeed");
    assert_ne!(hash, plain);
}

#[test]
fn hash_is_salted_but_verify_is_deterministic() {
    let plain = String::from("correct horse battery staple");
    let h1 = hash_password_ret(&plain).expect("hashing should succeed");
    let h2 = hash_password_ret(&plain).expect("hashing should succeed");
    assert_ne!(h1, h2);
    assert!(verify_password(&plain, &h1).is_ok());
    assert!(verify_password(&plain, &h2).is_ok());
    assert!(verify_password(&plain, &h1).is_ok());
}

#[test]
fn verify_rejects_wrong_password() {
    let plain = String::from("secret123");
    let hash = hash_password_ret(&plain).expect("hashing should succeed");
    assert!(verify_password("secret124", &hash).is_err());
}

#[test]
fn verify_rejects_malformed_hash() {
    assert!(verify_password("secret123", "not a phc string").is_err());
}

#[test]
fn hash_in_place_replaces_plaintext() {
    let mut password = String::from("secret123");
    let hash = hash_password(&mut password).expect("hashing should succeed");
    assert_eq!(password, hash);
    assert_ne!(password, "secret123");
    assert!(verify_password("secret123", &hash).is_ok());
}
