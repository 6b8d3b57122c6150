//! The cloud provider's "Signature V3"-style request signing: a fixed
//! four-step HMAC-SHA256 derivation chain over the secret key, date,
//! service and scope token, applied to a string-to-sign derived from the
//! canonical request.
use vstd::prelude::*;
use vstd::string::StringExecFns;
use vstd::string::StrSliceExecFns;
use vstd::utf8::encode_utf8;
use crate::crypto::{hmac_sha256_of, sha256_of, hex_of, hmac_sha256, sha256_digest, hex_encode};
use crate::numfmt::{dec_of_int, i64_to_string};

verus! {

/// The derived signing key: HMAC(key = "TC3" + secret, date), re-keyed in
/// turn by the service and the scope token. Each step's output is the next
/// step's key; the order is fixed.
pub open spec fn signing_key_spec(
    secret: Seq<char>,
    date: Seq<char>,
    service: Seq<char>,
    scope: Seq<char>,
) -> Seq<u8> {
    hmac_sha256_of(
        hmac_sha256_of(
            hmac_sha256_of(encode_utf8("TC3"@ + secret), encode_utf8(date)),
            encode_utf8(service),
        ),
        encode_utf8(scope),
    )
}

/// The final signature: the lowercase hex of the HMAC of the string-to-sign
/// under the derived signing key.
pub open spec fn signature_spec(
    secret: Seq<char>,
    date: Seq<char>,
    service: Seq<char>,
    scope: Seq<char>,
    string_to_sign: Seq<char>,
) -> Seq<char> {
    hex_of(hmac_sha256_of(signing_key_spec(secret, date, service, scope), encode_utf8(
        string_to_sign,
    )))
}

/// Computes the provider signature for one request: the four-step HMAC
/// chain over the UTF-8 bytes of its inputs, hex-encoded in lowercase.
/// Identical inputs always yield the identical signature.
pub fn sign_request(
    secret_key: &str,
    date: &str,
    service: &str,
    scope: &str,
    string_to_sign: &str,
) -> (r: String)
    ensures
        r@ == signature_spec(secret_key@, date@, service@, scope@, string_to_sign@),
{
    let mut prefixed = String::from_str("TC3");
    prefixed.append(secret_key);
    let k_secret = prefixed.as_str().as_bytes_vec();
    let k_date = hmac_sha256(k_secret.as_slice(), date.as_bytes());
    let k_service = hmac_sha256(k_date.as_slice(), service.as_bytes());
    let k_signing = hmac_sha256(k_service.as_slice(), scope.as_bytes());
    let tag = hmac_sha256(k_signing.as_slice(), string_to_sign.as_bytes());
    hex_encode(tag.as_slice())
}

/// The signer is deterministic: identical key, date, service, scope token
/// and string-to-sign always yield the identical hex signature.
pub proof fn lemma_signer_deterministic(
    secret1: Seq<char>,
    date1: Seq<char>,
    service1: Seq<char>,
    scope1: Seq<char>,
    sts1: Seq<char>,
    secret2: Seq<char>,
    date2: Seq<char>,
    service2: Seq<char>,
    scope2: Seq<char>,
    sts2: Seq<char>,
)
    requires
        secret1 == secret2,
        date1 == date2,
        service1 == service2,
        scope1 == scope2,
        sts1 == sts2,
    ensures
        signature_spec(secret1, date1, service1, scope1, sts1) == signature_spec(
            secret2,
            date2,
            service2,
            scope2,
            sts2,
        ),
{
}

/// The canonical headers of every signed request: fixed content type, then
/// the host.
pub open spec fn canonical_headers_spec(host: Seq<char>) -> Seq<char> {
    "content-type:application/json\nhost:"@ + host + "\n"@
}

/// The canonical request: method, path, empty query, canonical headers,
/// the signed-header list, and the lowercase hex SHA-256 of the exact
/// payload bytes that will be transmitted.
pub open spec fn canonical_request_spec(host: Seq<char>, payload: Seq<char>) -> Seq<char> {
    "POST\n/\n\n"@ + canonical_headers_spec(host) + "\n"@ + "content-type;host"@ + "\n"@ + hex_of(
        sha256_of(encode_utf8(payload)),
    )
}

/// The credential scope: date, service and the fixed scope token.
pub open spec fn credential_scope_spec(date: Seq<char>, service: Seq<char>) -> Seq<char> {
    date + "/"@ + service + "/tc3_request"@
}

/// The string-to-sign: algorithm tag, timestamp, credential scope and the
/// lowercase hex SHA-256 of the canonical request.
pub open spec fn string_to_sign_spec(
    timestamp: int,
    date: Seq<char>,
    service: Seq<char>,
    canonical_request: Seq<char>,
) -> Seq<char> {
    "TC3-HMAC-SHA256\n"@ + dec_of_int(timestamp) + "\n"@ + credential_scope_spec(date, service)
        + "\n"@ + hex_of(sha256_of(encode_utf8(canonical_request)))
}

/// The authorization header value carrying the computed signature.
pub open spec fn authorization_spec(
    secret_id: Seq<char>,
    date: Seq<char>,
    service: Seq<char>,
    signature: Seq<char>,
) -> Seq<char> {
    "TC3-HMAC-SHA256 Credential="@ + secret_id + "/"@ + credential_scope_spec(date, service)
        + ", SignedHeaders=content-type;host, Signature="@ + signature
}

/// Builds the canonical request for a POST of `payload` to `host`. The
/// payload hash is computed over the exact bytes of the payload string, the
/// same string the caller transmits.
pub fn canonical_request(host: &str, payload: &str) -> (r: String)
    ensures
        r@ == canonical_request_spec(host@, payload@),
{
    let digest = sha256_digest(payload.as_bytes());
    let hashed_payload = hex_encode(digest.as_slice());
    let mut s = String::from_str("POST\n/\n\n");
    s.append("content-type:application/json\nhost:");
    s.append(host);
    s.append("\n");
    s.append("\n");
    s.append("content-type;host");
    s.append("\n");
    s.append(hashed_payload.as_str());
    s
}

/// Builds the string-to-sign for a canonical request at a timestamp.
pub fn string_to_sign(timestamp: i64, date: &str, service: &str, canonical_req: &str) -> (r:
    String)
    ensures
        r@ == string_to_sign_spec(timestamp as int, date@, service@, canonical_req@),
{
    let digest = sha256_digest(canonical_req.as_bytes());
    let hashed = hex_encode(digest.as_slice());
    let ts = i64_to_string(timestamp);
    let mut s = String::from_str("TC3-HMAC-SHA256\n");
    s.append(ts.as_str());
    s.append("\n");
    s.append(date);
    s.append("/");
    s.append(service);
    s.append("/tc3_request");
    s.append("\n");
    s.append(hashed.as_str());
    s
}

/// Builds the authorization header value.
pub fn authorization_header(secret_id: &str, date: &str, service: &str, signature: &str) -> (r:
    String)
    ensures
        r@ == authorization_spec(secret_id@, date@, service@, signature@),
{
    let mut s = String::from_str("TC3-HMAC-SHA256 Credential=");
    s.append(secret_id);
    s.append("/");
    s.append(date);
    s.append("/");
    s.append(service);
    s.append("/tc3_request");
    s.append(", SignedHeaders=content-type;host, Signature=");
    s.append(signature);
    s
}

} // verus!
