use neko_oidc::auth::codes::generate_auth_code;

#[test]
fn generate_auth_code_has_length_30() {
    let code = generate_auth_code();
    assert_eq!(code.len(), 30, "認可コードは30文字であること");
}

#[test]
fn generate_auth_code_is_alphanumeric() {
    let code = generate_auth_code();
    assert!(
        code.chars().all(|c| c.is_ascii_alphanumeric()),
        "認可コードは英数字のみであること"
    );
}

#[test]
fn generate_auth_code_differ_each_call() {
    let a = generate_auth_code();
    let b = generate_auth_code();
    assert_ne!(a, b, "呼び出しごとに異なるコードが生成されること");
}

#[test]
fn integration_generate_auth_code_via_public_api() {
    let code = generate_auth_code();
    assert_eq!(code.len(), 30);
    assert!(code.chars().all(|c| c.is_ascii_alphanumeric()));
}
