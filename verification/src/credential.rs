//! Credential retrieval: deriving the secret's name and extracting one
//! well-known key as UTF-8 text.

use vstd::prelude::*;
use vstd::string::StringExecFns;
use vstd::utf8::{decode_utf8, valid_utf8};

verus! {

/// One key/value pair of an opaque secret.
#[derive(Debug)]
pub struct SecretEntry {
    pub key: String,
    pub value: Vec<u8>,
}

/// Mathematical model of a [`SecretEntry`].
pub struct SecretEntryView {
    pub key: Seq<char>,
    pub value: Seq<u8>,
}

impl View for SecretEntry {
    type V = SecretEntryView;

    open spec fn view(&self) -> SecretEntryView {
        SecretEntryView { key: self.key@, value: self.value@ }
    }
}

/// The payload of a fetched secret. A secret stored without any data
/// reads as an empty entry list.
#[derive(Debug)]
pub struct SecretData {
    pub entries: Vec<SecretEntry>,
}

impl View for SecretData {
    type V = Seq<SecretEntryView>;

    open spec fn view(&self) -> Seq<SecretEntryView> {
        self.entries@.map(|i: int, e: SecretEntry| e@)
    }
}

/// A failure of credential retrieval.
#[derive(Debug, Clone, Copy, PartialEq, Eq, Structural)]
pub enum CredentialError {
    /// The remote fetch of the secret itself failed.
    SecretNotFound,
    /// The secret exists but lacks the expected key.
    KeyNotFound,
    /// The stored value under the key is not valid UTF-8.
    InvalidCredentialEncoding,
}

/// Derive the name of the secret that stores an instance's credentials.
pub fn secret_name_for_instance(instance_name: &str) -> (r: String)
    ensures
        r@ == "moonscale-instance-"@ + instance_name@,
{
    String::from_str("moonscale-instance-").concat(instance_name)
}

/// The well-known key under which the root password is stored.
pub fn password_key() -> (r: String)
    ensures
        r@ == "mysql-root-password"@,
{
    String::from_str("mysql-root-password")
}

/// The first value stored under the given key, if any.
pub open spec fn spec_find_key(entries: Seq<SecretEntryView>, key: Seq<char>) -> Option<
    Seq<u8>,
>
    decreases entries.len(),
{
    if entries.len() == 0 {
        None
    } else if entries[0].key == key {
        Some(entries[0].value)
    } else {
        spec_find_key(entries.drop_first(), key)
    }
}

proof fn lemma_find_key_skip(entries: Seq<SecretEntryView>, key: Seq<char>, i: int)
    requires
        0 <= i <= entries.len(),
        forall|j: int| 0 <= j < i ==> entries[j].key != key,
    ensures
        spec_find_key(entries, key) == spec_find_key(entries.skip(i), key),
    decreases i,
{
    if i == 0 {
        assert(entries.skip(0) =~= entries);
    } else {
        lemma_find_key_skip(entries.drop_first(), key, i - 1);
        assert(entries.drop_first().skip(i - 1) =~= entries.skip(i));
    }
}

/// What password extraction returns for every fetch outcome: the decoded
/// value of the well-known key on success, and the first failing stage
/// otherwise.
pub open spec fn spec_extract_password(fetched: Option<Seq<SecretEntryView>>) -> Result<
    Seq<char>,
    CredentialError,
> {
    match fetched {
        None => Err(CredentialError::SecretNotFound),
        Some(entries) => match spec_find_key(entries, "mysql-root-password"@) {
            None => Err(CredentialError::KeyNotFound),
            Some(value) => if valid_utf8(value) {
                Ok(decode_utf8(value))
            } else {
                Err(CredentialError::InvalidCredentialEncoding)
            },
        },
    }
}

/// View of a fetch outcome: the entries of the secret, or nothing where
/// the remote fetch failed.
pub open spec fn fetched_view(fetched: Option<SecretData>) -> Option<Seq<SecretEntryView>> {
    match fetched {
        Some(d) => Some(d@),
        None => None,
    }
}

/// View of an extraction result.
pub open spec fn password_result_view(r: Result<String, CredentialError>) -> Result<
    Seq<char>,
    CredentialError,
> {
    match r {
        Ok(s) => Ok(s@),
        Err(e) => Err(e),
    }
}

/// Relies on `String::from_utf8`: it succeeds exactly when the bytes are
/// valid UTF-8, and the returned string is their decoding.
#[verifier::external_body]
fn string_from_utf8(bytes: &Vec<u8>) -> (r: Option<String>)
    ensures
        r is Some <==> valid_utf8(bytes@),
        r matches Some(s) ==> s@ == decode_utf8(bytes@),
{
    String::from_utf8(bytes.clone()).ok()
}

/// Extract the root password from a fetched secret: a failed fetch
/// reports `SecretNotFound`, a secret without the well-known key reports
/// `KeyNotFound`, and a value that is not valid UTF-8 reports
/// `InvalidCredentialEncoding`; otherwise the decoded text is returned.
pub fn extract_database_password(fetched: &Option<SecretData>) -> (r: Result<
    String,
    CredentialError,
>)
    ensures
        password_result_view(r) == spec_extract_password(fetched_view(*fetched)),
{
    let data = match fetched {
        None => {
            return Err(CredentialError::SecretNotFound);
        },
        Some(d) => d,
    };
    let needle = password_key();
    let n = data.entries.len();
    let mut i: usize = 0;
    while i < n
        invariant
            n == data.entries.len(),
            i <= n,
            fetched_view(*fetched) == Some(data@),
            needle@ == "mysql-root-password"@,
            forall|j: int| 0 <= j < i ==> data@[j].key != "mysql-root-password"@,
        decreases n - i,
    {
        let entry = &data.entries[i];
        if entry.key == needle {
            proof {
                lemma_find_key_skip(data@, "mysql-root-password"@, i as int);
                assert(data@.skip(i as int)[0] == data@[i as int]);
                assert(data@[i as int].key == "mysql-root-password"@);
                assert(spec_find_key(data@.skip(i as int), "mysql-root-password"@)
                    == Some(data@[i as int].value));
            }
            return match string_from_utf8(&entry.value) {
                Some(s) => Ok(s),
                None => Err(CredentialError::InvalidCredentialEncoding),
            };
        }
        i += 1;
    }
    proof {
        lemma_find_key_skip(data@, "mysql-root-password"@, n as int);
        assert(data@.skip(n as int).len() == 0);
    }
    Err(CredentialError::KeyNotFound)
}

} // verus!
