use quick_translate::numfmt::{i64_to_string, u64_to_string};
use quick_translate::signer::{
    authorization_header, canonical_request, sign_request, string_to_sign,
};

#[test]
fn signature_matches_known_vector() {
    let sig = sign_request("testsecret", "2024-01-15", "tmt", "tc3_request", "hello-sts");
    assert_eq!(
        sig,
        "3661b73a1bb635b435e0aaad6bec9cc53a4ba7fc9430df22bf4de4dc25608c5f"
    );
}

#[test]
fn signer_is_deterministic() {
    let a = sign_request("testsecret", "2024-01-15", "tmt", "tc3_request", "hello-sts");
    let b = sign_request("testsecret", "2024-01-15", "tmt", "tc3_request", "hello-sts");
    assert_eq!(a, b);
}

#[test]
fn changing_one_byte_changes_the_signature() {
    let a = sign_request("testsecret", "2024-01-15", "tmt", "tc3_request", "hello-sts");
    let b = sign_request("testsecret", "2024-01-15", "tmt", "tc3_request", "hello-stt");
    assert_ne!(a, b);
    assert_eq!(
        b,
        "a206499df64b5c0f9fd356be9cd3b9833deafd645dbc7c24553a4e8eed5b8c43"
    );
}

#[test]
fn canonical_request_has_fixed_shape() {
    let payload = "{\"SourceText\":\"Hello\",\"Source\":\"auto\",\"Target\":\"zh\",\"ProjectId\":0}";
    let cr = canonical_request("tmt.tencentcloudapi.com", payload);
    let expected = "POST\n/\n\ncontent-type:application/json\nhost:tmt.tencentcloudapi.com\n\ncontent-type;host\n547e693996154ef3c35dd00284f2b8a7b8226ef8f8405453aae1a3990689acd1";
    assert_eq!(cr, expected);
}

#[test]
fn string_to_sign_embeds_timestamp_and_scope() {
    let sts = string_to_sign(1705300000, "2024-01-15", "tmt", "anything");
    assert!(sts.starts_with("TC3-HMAC-SHA256\n1705300000\n2024-01-15/tmt/tc3_request\n"));
}

#[test]
fn authorization_header_has_fixed_shape() {
    let h = authorization_header("AKIDtest", "2024-01-15", "tmt", "deadbeef");
    assert_eq!(
        h,
        "TC3-HMAC-SHA256 Credential=AKIDtest/2024-01-15/tmt/tc3_request, SignedHeaders=content-type;host, Signature=deadbeef"
    );
}

#[test]
fn decimal_rendering() {
    assert_eq!(u64_to_string(0), "0");
    assert_eq!(u64_to_string(7), "7");
    assert_eq!(u64_to_string(1705300000), "1705300000");
    assert_eq!(u64_to_string(18446744073709551615), "18446744073709551615");
    assert_eq!(i64_to_string(-1), "-1");
    assert_eq!(i64_to_string(0), "0");
    assert_eq!(i64_to_string(-9223372036854775808), "-9223372036854775808");
    assert_eq!(i64_to_string(9223372036854775807), "9223372036854775807");
}
