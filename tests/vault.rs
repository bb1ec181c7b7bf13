use echov2::codec::CredentialRecord;
use echov2::vault::{delete_outcome, provider_catalog, providers_found, StoreReply, VaultError, VaultOp};

#[test]
fn catalog_is_fixed() {
    assert_eq!(provider_catalog(), vec!["openai", "anthropic", "google", "ollama"]);
}

fn hit() -> Result<Option<CredentialRecord>, VaultError> {
    Ok(Some(CredentialRecord {
        provider: "x".to_string(),
        api_key: "k".to_string(),
        custom_endpoint: None,
    }))
}

#[test]
fn providers_found_keeps_present_in_order() {
    let names = provider_catalog();
    let failed = Err(VaultError::Deserialization { provider: "google".to_string() });
    assert_eq!(
        providers_found(&names, &vec![hit(), Ok(None), hit(), Ok(None)]),
        vec!["openai", "google"]
    );
    assert_eq!(
        providers_found(&names, &vec![Ok(None), Ok(None), Ok(None), Ok(None)]),
        Vec::<String>::new()
    );
    assert_eq!(providers_found(&names, &vec![hit(), hit(), hit(), hit()]), names);
    assert_eq!(providers_found(&names, &vec![Ok(None), hit(), failed, hit()]), vec!["anthropic", "ollama"]);
}

#[test]
fn providers_found_never_reports_outside_names() {
    let names = provider_catalog();
    let r = providers_found(&names, &vec![Ok(None), hit(), Ok(None), hit()]);
    assert!(r.iter().all(|p| names.contains(p)));
    assert!(!r.contains(&"mistral".to_string()));
}

#[test]
fn store_access_message_names_provider_and_operation() {
    let e = VaultError::StoreAccess {
        op: VaultOp::Store,
        provider: "openai".to_string(),
        detail: "locked".to_string(),
    };
    assert_eq!(e.message(), "Failed to store API key for openai: locked");
    let e = VaultError::StoreAccess {
        op: VaultOp::OpenEntry,
        provider: "google".to_string(),
        detail: "denied".to_string(),
    };
    assert_eq!(e.message(), "Failed to create keyring entry for google: denied");
}

#[test]
fn deleting_an_absent_entry_succeeds() {
    assert_eq!(delete_outcome("never-stored", StoreReply::NoEntry), Ok(()));
    assert_eq!(delete_outcome("openai", StoreReply::Done(())), Ok(()));
}

#[test]
fn delete_failure_is_a_store_access_error() {
    assert_eq!(
        delete_outcome("openai", StoreReply::Failed("denied".to_string())),
        Err(VaultError::StoreAccess {
            op: VaultOp::Delete,
            provider: "openai".to_string(),
            detail: "denied".to_string(),
        })
    );
}

#[test]
fn store_request_names_entry_and_encodes_record() {
    let (name, payload) = echov2::vault::store_request(
        "openai".to_string(),
        "sk-test-123".to_string(),
        None,
    )
    .expect("writable");
    assert_eq!(name, "api_key_openai");
    assert_eq!(payload, "{\"provider\":\"openai\",\"api_key\":\"sk-test-123\",\"custom_endpoint\":null}");
}

#[test]
fn serialization_message_names_provider() {
    let e = VaultError::Serialization { provider: "openai".to_string() };
    assert_eq!(e.message(), "Failed to serialize API key data for openai");
}
