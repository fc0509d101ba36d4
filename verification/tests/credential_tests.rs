use auth_core::credential::hash_password;
use auth_core::credential::verify_password;

#[test]
fn password_round_trip_verifies() {
    let hash = hash_password("Passw0rd!").expect("hashing should succeed");
    assert!(verify_password("Passw0rd!", &hash));
}

#[test]
fn wrong_password_does_not_verify() {
    let hash = hash_password("Passw0rd!").expect("hashing should succeed");
    assert!(!verify_password("Passw0rd?", &hash));
    assert!(!verify_password("", &hash));
    assert!(!verify_password("passw0rd!", &hash));
}

#[test]
fn empty_password_round_trip() {
    let hash = hash_password("").expect("hashing should succeed");
    assert!(verify_password("", &hash));
    assert!(!verify_password("x", &hash));
}

#[test]
fn hashes_are_salted_fresh_per_call() {
    let first = hash_password("same password").expect("hashing should succeed");
    let second = hash_password("same password").expect("hashing should succeed");
    // A fresh random salt makes the encodings differ...
    assert_ne!(first, second);
    // ...while both still verify against the password.
    assert!(verify_password("same password", &first));
    assert!(verify_password("same password", &second));
}

#[test]
fn malformed_stored_hash_is_a_mismatch_not_a_crash() {
    assert!(!verify_password("Passw0rd!", ""));
    assert!(!verify_password("Passw0rd!", "not a phc string"));
    assert!(!verify_password("Passw0rd!", "$argon2id$v=19$truncated"));
}

#[test]
fn stored_hash_is_self_describing() {
    let hash = hash_password("Passw0rd!").expect("hashing should succeed");
    assert!(hash.starts_with("$argon2"));
}
