use neko_oidc::client::client::{
    generate_random_secret, register_client, ClientStore, MemoryClientStore,
};
use neko_oidc::error::StoreError;

fn uris() -> Vec<String> {
    vec!["http://localhost:18080/callback".to_string()]
}

fn grants() -> Vec<String> {
    vec!["authorization_code".to_string()]
}

#[test]
fn generated_secret_has_length_32() {
    let secret = generate_random_secret();
    assert_eq!(secret.len(), 32);
}

#[test]
fn generated_secret_is_alphanumeric() {
    let secret = generate_random_secret();
    assert!(secret.chars().all(|c| c.is_ascii_alphanumeric()));
}

#[test]
fn generated_secrets_differ_each_call() {
    let a = generate_random_secret();
    let b = generate_random_secret();
    assert_ne!(a, b);
}

#[test]
fn register_client_succeeds_with_memory_store() {
    let mut store = MemoryClientStore::new();
    let result = store.register_client("test_client", uris(), grants(), 1_000);
    assert!(result.is_ok(), "register_client should succeed: {:?}", result);
    let secret = result.unwrap();
    assert_eq!(secret.len(), 32);
}

#[test]
fn stored_row_holds_inputs_and_timestamps() {
    let mut store = MemoryClientStore::new();
    store
        .register_client("test_client", uris(), grants(), 1_000)
        .expect("registration should succeed");
    assert_eq!(store.clients.len(), 1);
    let rec = &store.clients[0];
    assert_eq!(rec.client_name, "test_client");
    assert_eq!(rec.redirect_uris, uris());
    assert_eq!(rec.grant_types, grants());
    assert_eq!(rec.created_at, 1_000);
    assert_eq!(rec.updated_at, 1_000);
    assert_eq!(rec.client_id.len(), 36);
    assert!(rec.client_id.contains('-'));
}

#[test]
fn stored_hash_verifies_secret_and_never_equals_it() {
    let mut store = MemoryClientStore::new();
    let secret = store
        .register_client("test_client", uris(), grants(), 1_000)
        .expect("registration should succeed");
    let hash = store.clients[0].client_secret_hash.clone();
    assert_ne!(hash, secret);
    assert!(hash.starts_with('$'));
    let parsed = argon2::password_hash::PasswordHash::new(&hash)
        .expect("stored hash must be a PHC string");
    let hasher = argon2::Argon2::default();
    assert!(
        argon2::password_hash::PasswordVerifier::verify_password(
            &hasher,
            secret.as_bytes(),
            &parsed
        )
        .is_ok(),
        "returned secret must verify against the stored hash"
    );
    assert!(
        argon2::password_hash::PasswordVerifier::verify_password(
            &hasher,
            b"not-the-secret",
            &parsed
        )
        .is_err(),
        "a wrong secret must not verify"
    );
}

#[test]
fn identical_names_get_distinct_client_ids() {
    let mut store = MemoryClientStore::new();
    store
        .register_client("same_name", uris(), grants(), 1_000)
        .expect("first registration should succeed");
    store
        .register_client("same_name", uris(), grants(), 1_000)
        .expect("second registration should succeed");
    assert_eq!(store.clients.len(), 2);
    assert_eq!(store.clients[0].client_name, store.clients[1].client_name);
    assert_ne!(store.clients[0].client_id, store.clients[1].client_id);
}

#[test]
fn register_client_at_present_instant() {
    let mut store = MemoryClientStore::new();
    let before = chrono::Local::now().timestamp();
    let secret = register_client(&mut store, "test_client", uris(), grants())
        .expect("registration should succeed");
    assert_eq!(secret.len(), 32);
    assert!(secret.chars().all(|c| c.is_ascii_alphanumeric()));
    assert!(store.clients[0].created_at >= before);
}

#[test]
fn duplicate_identifier_is_persistence_failure() {
    let mut store = MemoryClientStore::new();
    store
        .register_client("first", uris(), grants(), 1_000)
        .expect("first registration should succeed");
    let rec = neko_oidc::client::client::ClientRecord {
        client_id: store.clients[0].client_id.clone(),
        client_name: "copycat".to_string(),
        client_secret_hash: "$placeholder".to_string(),
        redirect_uris: uris(),
        grant_types: grants(),
        created_at: 1_000,
        updated_at: 1_000,
    };
    let result = store.insert_prepared(rec, "secret-candidate".to_string());
    assert_eq!(result, Err(StoreError::PersistenceFailure));
    assert_eq!(store.clients.len(), 1);
}
