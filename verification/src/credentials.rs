use vstd::prelude::*;
use crate::b64::b64_decode;
use crate::b64::b64_decode_of;

verus! {

/// Why credential loading failed: the certificate or the key could be had
/// neither from its environment value nor from its file.
#[derive(Clone, Copy, Debug, PartialEq, Eq, Structural)]
pub enum LoadError {
    MissingCertificate,
    MissingKey,
}

/// What an environment-provided value resolves to: its Base64 decoding when
/// it is well-formed Base64, the raw bytes themselves otherwise. A value that
/// fails to decode is never an error by itself.
pub open spec fn decoded_or_raw(s: Seq<u8>) -> Seq<u8> {
    match b64_decode_of(s) {
        Some(d) => d,
        None => s,
    }
}

/// The view of an optional byte vector.
pub open spec fn opt_bytes(o: Option<Vec<u8>>) -> Option<Seq<u8>> {
    match o {
        Some(v) => Some(v@),
        None => None,
    }
}

/// One piece of credential material, resolved from an optional environment
/// value (Base64 or raw) with an optional file content as fallback; `None`
/// when neither source is available.
pub open spec fn resolved_material(env: Option<Seq<u8>>, file: Option<Seq<u8>>) -> Option<
    Seq<u8>,
> {
    match env {
        Some(s) => Some(decoded_or_raw(s)),
        None => file,
    }
}

/// An environment value always resolves, whatever the file holds: to its
/// Base64 decoding when it is well-formed Base64, to its raw bytes otherwise.
/// A failure to decode is never a failure to resolve.
pub proof fn lemma_env_value_always_resolves(s: Seq<u8>, file: Option<Seq<u8>>)
    ensures
        resolved_material(Some(s), file) == Some(decoded_or_raw(s)),
        b64_decode_of(s) is Some ==> resolved_material(Some(s), file) == Some(
            b64_decode_of(s)->Some_0,
        ),
        b64_decode_of(s) is None ==> resolved_material(Some(s), file) == Some(s),
{
}

/// Resolve one piece of credential material. The environment value wins when
/// present: it is Base64-decoded when well-formed and taken as raw bytes
/// otherwise. Only when no environment value is present does the file
/// content, if any, serve.
pub fn resolve_material(env_content: Option<Vec<u8>>, file_content: Option<Vec<u8>>) -> (r: Option<
    Vec<u8>,
>)
    ensures
        opt_bytes(r) == resolved_material(opt_bytes(env_content), opt_bytes(file_content)),
{
    match env_content {
        Some(s) => match b64_decode(&s) {
            Some(d) => Some(d),
            None => Some(s),
        },
        None => file_content,
    }
}

/// The path of the certificate file: the environment override when present,
/// the default otherwise.
pub fn effective_cert_path(env_path: Option<String>) -> (r: String)
    ensures
        r@ == match env_path {
            Some(p) => p@,
            None => "client.crt"@,
        },
{
    match env_path {
        Some(p) => p,
        None => String::from_str("client.crt"),
    }
}

/// The path of the key file: the environment override when present, the
/// default otherwise.
pub fn effective_key_path(env_path: Option<String>) -> (r: String)
    ensures
        r@ == match env_path {
            Some(p) => p@,
            None => "client-key.pem"@,
        },
{
    match env_path {
        Some(p) => p,
        None => String::from_str("client-key.pem"),
    }
}

/// A resolved developer credential pair: certificate bytes and key bytes.
pub struct CredentialPair {
    pub cert: Vec<u8>,
    pub key: Vec<u8>,
}

/// The outcome of credential loading over the four sources: the certificate
/// is resolved first and its absence wins over a missing key.
pub open spec fn load_outcome(
    cert_env: Option<Seq<u8>>,
    cert_file: Option<Seq<u8>>,
    key_env: Option<Seq<u8>>,
    key_file: Option<Seq<u8>>,
) -> Result<(Seq<u8>, Seq<u8>), LoadError> {
    match resolved_material(cert_env, cert_file) {
        Some(c) => match resolved_material(key_env, key_file) {
            Some(k) => Ok((c, k)),
            None => Err(LoadError::MissingKey),
        },
        None => Err(LoadError::MissingCertificate),
    }
}

/// Load the credential pair from the four sources: for each of certificate
/// and key, the environment value (Base64 or raw) wins, the file content is
/// the fallback. Fails with `MissingCertificate` when the certificate has no
/// source, else with `MissingKey` when the key has none.
pub fn load_credentials(
    cert_env: Option<Vec<u8>>,
    cert_file: Option<Vec<u8>>,
    key_env: Option<Vec<u8>>,
    key_file: Option<Vec<u8>>,
) -> (r: Result<CredentialPair, LoadError>)
    ensures
        match r {
            Ok(p) => load_outcome(
                opt_bytes(cert_env),
                opt_bytes(cert_file),
                opt_bytes(key_env),
                opt_bytes(key_file),
            ) == Ok::<(Seq<u8>, Seq<u8>), LoadError>((p.cert@, p.key@)),
            Err(e) => load_outcome(
                opt_bytes(cert_env),
                opt_bytes(cert_file),
                opt_bytes(key_env),
                opt_bytes(key_file),
            ) == Err::<(Seq<u8>, Seq<u8>), LoadError>(e),
        },
{
    let cert = match resolve_material(cert_env, cert_file) {
        Some(c) => c,
        None => {
            return Err(LoadError::MissingCertificate);
        },
    };
    let key = match resolve_material(key_env, key_file) {
        Some(k) => k,
        None => {
            return Err(LoadError::MissingKey);
        },
    };
    Ok(CredentialPair { cert, key })
}

/// What a load failure says: which piece could not be read, from which file
/// path, and the reason the read gave.
pub open spec fn load_error_text(e: LoadError, path: Seq<char>, detail: Seq<char>) -> Seq<char> {
    match e {
        LoadError::MissingCertificate => "Failed to read certificate from "@ + path + ": "@
            + detail,
        LoadError::MissingKey => "Failed to read key from "@ + path + ": "@ + detail,
    }
}

/// The human-readable message for a load failure, naming the file path that
/// was tried and the reason the read gave. It never carries credential bytes.
pub fn load_error_message(e: LoadError, path: &str, detail: &str) -> (r: String)
    ensures
        r@ == load_error_text(e, path@, detail@),
{
    let mut out = match e {
        LoadError::MissingCertificate => String::from_str("Failed to read certificate from "),
        LoadError::MissingKey => String::from_str("Failed to read key from "),
    };
    out.append(path);
    out.append(": ");
    out.append(detail);
    proof {
        let prefix = match e {
            LoadError::MissingCertificate => "Failed to read certificate from "@,
            LoadError::MissingKey => "Failed to read key from "@,
        };
        assert(out@ =~= prefix + path@ + ": "@ + detail@);
    }
    out
}

} // verus!
