use ncl::keyring::{accounts, password_outcome, KeyringError, StoreFailure, SERVICE_NAME};

#[test]
fn password_reads_are_interpreted() {
    assert_eq!(password_outcome(Ok("secret".to_string())), Ok(Some("secret".to_string())));
    assert_eq!(password_outcome(Ok(String::new())), Ok(None));
    assert_eq!(password_outcome(Err(StoreFailure::NoEntry)), Ok(None));
    assert_eq!(
        password_outcome(Err(StoreFailure::Other("locked".to_string()))),
        Err(KeyringError::Read("locked".to_string()))
    );
}

#[test]
fn keyring_messages_and_names() {
    assert_eq!(KeyringError::Access.message(), "Failed to access keyring");
    assert_eq!(KeyringError::Read("x".to_string()).message(), "Keyring error: x");
    assert_eq!(
        KeyringError::Write("y".to_string()).message(),
        "Failed to store secret in keyring: y"
    );
    assert_eq!(SERVICE_NAME, "ncl-cli");
    assert_eq!(accounts::GITHUB_TOKEN, "github_token");
    assert_eq!(accounts::COOLIFY_TOKEN, "coolify_token");
    assert_eq!(accounts::REGISTRY_TOKEN, "registry_token");
    assert_eq!(accounts::REGISTRY_USER, "registry_user");
}
