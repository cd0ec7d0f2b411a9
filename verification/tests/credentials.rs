use moonscale::{
    default_namespace, extract_database_password, password_key, secret_name_for_instance,
    CredentialError, SecretData, SecretEntry,
};

fn secret_with(pairs: &[(&str, &[u8])]) -> SecretData {
    SecretData {
        entries: pairs
            .iter()
            .map(|(k, v)| SecretEntry { key: k.to_string(), value: v.to_vec() })
            .collect(),
    }
}

#[test]
fn secret_name_is_derived_from_instance() {
    assert_eq!(secret_name_for_instance("shop"), "moonscale-instance-shop");
    assert_eq!(secret_name_for_instance(""), "moonscale-instance-");
}

#[test]
fn fixed_names_are_well_known() {
    assert_eq!(default_namespace(), "moonscale");
    assert_eq!(password_key(), "mysql-root-password");
}

#[test]
fn password_is_extracted() {
    let fetched = Some(secret_with(&[("mysql-root-password", b"s3cr3t")]));
    assert_eq!(extract_database_password(&fetched), Ok("s3cr3t".to_string()));
}

#[test]
fn missing_secret_reports_not_found() {
    assert_eq!(extract_database_password(&None), Err(CredentialError::SecretNotFound));
}

#[test]
fn missing_key_reports_key_not_found() {
    let fetched = Some(secret_with(&[("mysql-user-password", b"other")]));
    assert_eq!(extract_database_password(&fetched), Err(CredentialError::KeyNotFound));
}

#[test]
fn empty_secret_reports_key_not_found() {
    let fetched = Some(secret_with(&[]));
    assert_eq!(extract_database_password(&fetched), Err(CredentialError::KeyNotFound));
}

#[test]
fn invalid_utf8_is_reported() {
    let fetched = Some(secret_with(&[("mysql-root-password", &[0xff, 0xfe, 0x01])]));
    assert_eq!(
        extract_database_password(&fetched),
        Err(CredentialError::InvalidCredentialEncoding)
    );
}

#[test]
fn multibyte_utf8_is_decoded() {
    let fetched = Some(secret_with(&[("mysql-root-password", "pâté".as_bytes())]));
    assert_eq!(extract_database_password(&fetched), Ok("pâté".to_string()));
}

#[test]
fn first_value_under_key_is_taken() {
    let fetched = Some(secret_with(&[
        ("another-key", b"noise"),
        ("mysql-root-password", b"first"),
        ("mysql-root-password", b"second"),
    ]));
    assert_eq!(extract_database_password(&fetched), Ok("first".to_string()));
}
