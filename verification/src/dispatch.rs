//! The translation dispatcher: selects the active engine, builds the full
//! provider request (headers and payload), and interprets the provider's
//! response. The surrounding application performs the one HTTP POST per
//! call and hands the status and body back.
use vstd::prelude::*;
use vstd::string::StringExecFns;
use crate::settings::{AppSettings, Engine};
use crate::lang::{
    normalize_target_spec, tencent_target_spec, system_prompt_spec, normalize_target_language,
    tencent_target, build_system_prompt,
};
use crate::json_out::{
    glm_payload_spec, tencent_payload_spec, glm_payload, tencent_payload,
};
use crate::json_in::{
    glm_body_spec, tencent_body_spec, GlmBody, TencentBody, glm_extract, tencent_extract,
    GlmExtract, TencentExtract,
};
use crate::signer::{
    canonical_request_spec, string_to_sign_spec, signature_spec, authorization_spec,
    canonical_request, string_to_sign, sign_request, authorization_header,
};
use crate::fence::{strip_fences_spec, strip_code_fences};
use crate::numfmt::{dec_digits, u64_to_string};

verus! {

/// A fully built provider request, ready to be posted by the caller. No
/// network is touched while building it.
#[derive(Debug)]
pub enum PlannedRequest {
    Glm { url: String, bearer_key: String, body: String },
    Tencent {
        host: String,
        authorization: String,
        action: String,
        version: String,
        timestamp: i64,
        region: String,
        body: String,
    },
}

/// The region a cloud-provider call uses: the configured one, or the
/// default region when none is configured.
pub open spec fn tencent_region_of(settings: AppSettings) -> Seq<char> {
    match settings.tencent_region {
        Some(r) => r@,
        None => "ap-guangzhou"@,
    }
}

/// The chat-completion request body for a call.
pub open spec fn glm_request_body_spec(
    text: Seq<char>,
    target_lang: Seq<char>,
    tone: Seq<char>,
) -> Seq<char> {
    glm_payload_spec(system_prompt_spec(normalize_target_spec(target_lang), tone), text)
}

/// The cloud-translation request body for a call.
pub open spec fn tencent_request_body_spec(text: Seq<char>, target_lang: Seq<char>) -> Seq<
    char,
> {
    tencent_payload_spec(text, tencent_target_spec(target_lang))
}

/// The authorization header of a signed cloud-translation call: the
/// signature is computed over the string-to-sign derived from the
/// canonical request over the exact payload.
pub open spec fn tencent_authorization_of(
    secret_id: Seq<char>,
    secret_key: Seq<char>,
    timestamp: int,
    date: Seq<char>,
    text: Seq<char>,
    target_lang: Seq<char>,
) -> Seq<char> {
    authorization_spec(
        secret_id,
        date,
        "tmt"@,
        signature_spec(
            secret_key,
            date,
            "tmt"@,
            "tc3_request"@,
            string_to_sign_spec(
                timestamp,
                date,
                "tmt"@,
                canonical_request_spec(
                    "tmt.tencentcloudapi.com"@,
                    tencent_request_body_spec(text, target_lang),
                ),
            ),
        ),
    )
}

/// Builds the provider request for the active engine, or reports the
/// missing credential without building anything. No I/O happens here: a
/// missing credential is rejected before any request exists.
pub fn plan_translation(
    settings: &AppSettings,
    text: &str,
    target_lang: &str,
    tone: &str,
    timestamp: i64,
    date: &str,
) -> (r: Result<PlannedRequest, String>)
    ensures
        settings.active_engine == Engine::Tencent && settings.tencent_secret_id is None
            ==> (r matches Err(e) && e@ == "未配置腾讯云 SecretId"@),
        settings.active_engine == Engine::Tencent && settings.tencent_secret_id is Some
            && settings.tencent_secret_key is None ==> (r matches Err(e) && e@
            == "未配置腾讯云 SecretKey"@),
        settings.active_engine == Engine::Tencent && settings.tencent_secret_id is Some
            && settings.tencent_secret_key is Some ==> (r matches Ok(p) && p matches
            PlannedRequest::Tencent {
                host,
                authorization,
                action,
                version,
                timestamp: ts,
                region,
                body,
            } && host@ == "tmt.tencentcloudapi.com"@ && action@ == "TextTranslate"@ && version@
            == "2018-03-21"@ && ts == timestamp && region@ == tencent_region_of(*settings)
            && body@ == tencent_request_body_spec(text@, target_lang@) && authorization@
            == tencent_authorization_of(
            settings.tencent_secret_id->0@,
            settings.tencent_secret_key->0@,
            timestamp as int,
            date@,
            text@,
            target_lang@,
        )),
        settings.active_engine == Engine::Zhipu && settings.zhipu_api_key is None ==> (r matches
            Err(e) && e@ == "未配置智谱 AI API Key：请在设置页配置"@),
        settings.active_engine == Engine::Zhipu && settings.zhipu_api_key is Some ==> (r matches
            Ok(p) && p matches PlannedRequest::Glm { url, bearer_key, body } && url@
            == "https://open.bigmodel.cn/api/paas/v4/chat/completions"@ && bearer_key@
            == "Bearer "@ + settings.zhipu_api_key->0@ && body@ == glm_request_body_spec(
            text@,
            target_lang@,
            tone@,
        )),
{
    match settings.active_engine {
        Engine::Tencent => {
            let secret_id = match &settings.tencent_secret_id {
                Some(s) => s,
                None => {
                    return Err(String::from_str("未配置腾讯云 SecretId"));
                },
            };
            let secret_key = match &settings.tencent_secret_key {
                Some(s) => s,
                None => {
                    return Err(String::from_str("未配置腾讯云 SecretKey"));
                },
            };
            let region = match &settings.tencent_region {
                Some(g) => g.clone(),
                None => String::from_str("ap-guangzhou"),
            };
            let target = tencent_target(target_lang);
            let body = tencent_payload(text, target.as_str());
            let creq = canonical_request("tmt.tencentcloudapi.com", body.as_str());
            let sts = string_to_sign(timestamp, date, "tmt", creq.as_str());
            let sig = sign_request(secret_key.as_str(), date, "tmt", "tc3_request", sts.as_str());
            let auth = authorization_header(secret_id.as_str(), date, "tmt", sig.as_str());
            Ok(
                PlannedRequest::Tencent {
                    host: String::from_str("tmt.tencentcloudapi.com"),
                    authorization: auth,
                    action: String::from_str("TextTranslate"),
                    version: String::from_str("2018-03-21"),
                    timestamp,
                    region,
                    body,
                },
            )
        },
        Engine::Zhipu => {
            let api_key = match &settings.zhipu_api_key {
                Some(k) => k,
                None => {
                    return Err(String::from_str("未配置智谱 AI API Key：请在设置页配置"));
                },
            };
            let target = normalize_target_language(target_lang);
            let prompt = build_system_prompt(target.as_str(), tone);
            let body = glm_payload(prompt.as_str(), text);
            let mut bearer = String::from_str("Bearer ");
            bearer.append(api_key.as_str());
            Ok(
                PlannedRequest::Glm {
                    url: String::from_str("https://open.bigmodel.cn/api/paas/v4/chat/completions"),
                    bearer_key: bearer,
                    body,
                },
            )
        },
    }
}

/// Relies on chrono's `Utc::now`: the current UTC time, returned as the
/// Unix timestamp in seconds and the date formatted `YYYY-MM-DD`. The
/// values depend on the clock, so nothing is promised of them. `Utc::now`
/// panics if the system clock is set before the Unix epoch.
#[verifier::external_body]
fn utc_now_parts() -> (r: (i64, String)) {
    let now = chrono::Utc::now();
    (now.timestamp(), now.format("%Y-%m-%d").to_string())
}

/// Builds the provider request for the active engine at the current time.
/// Whatever the clock returned, a missing credential is still rejected
/// before any request exists, and the request built for the current
/// timestamp and date carries the same engine, endpoint and payload that
/// `plan_translation` pins down.
pub fn plan_translation_now(settings: &AppSettings, text: &str, target_lang: &str, tone: &str) -> (r:
    Result<PlannedRequest, String>)
    ensures
        settings.active_engine == Engine::Tencent && settings.tencent_secret_id is None
            ==> (r matches Err(e) && e@ == "未配置腾讯云 SecretId"@),
        settings.active_engine == Engine::Tencent && settings.tencent_secret_id is Some
            && settings.tencent_secret_key is None ==> (r matches Err(e) && e@
            == "未配置腾讯云 SecretKey"@),
        settings.active_engine == Engine::Tencent && settings.tencent_secret_id is Some
            && settings.tencent_secret_key is Some ==> (r matches Ok(p) && p matches
            PlannedRequest::Tencent {
                host,
                authorization,
                action,
                version,
                timestamp: ts,
                region,
                body,
            } && host@ == "tmt.tencentcloudapi.com"@ && action@ == "TextTranslate"@ && version@
            == "2018-03-21"@ && region@ == tencent_region_of(*settings) && body@
            == tencent_request_body_spec(text@, target_lang@) && (exists|d: Seq<char>|
            authorization@ == tencent_authorization_of(
                settings.tencent_secret_id->0@,
                settings.tencent_secret_key->0@,
                ts as int,
                d,
                text@,
                target_lang@,
            ))),
        settings.active_engine == Engine::Zhipu && settings.zhipu_api_key is None ==> (r matches
            Err(e) && e@ == "未配置智谱 AI API Key：请在设置页配置"@),
        settings.active_engine == Engine::Zhipu && settings.zhipu_api_key is Some ==> (r matches
            Ok(p) && p matches PlannedRequest::Glm { url, bearer_key, body } && url@
            == "https://open.bigmodel.cn/api/paas/v4/chat/completions"@ && bearer_key@
            == "Bearer "@ + settings.zhipu_api_key->0@ && body@ == glm_request_body_spec(
            text@,
            target_lang@,
            tone@,
        )),
{
    let now = utc_now_parts();
    plan_translation(settings, text, target_lang, tone, now.0, now.1.as_str())
}

/// What interpreting a chat-completion response yields: a non-success
/// status is reported with the status code and raw body; an unparsable
/// body is a distinct parse failure; an empty choice list yields the
/// fixed placeholder; content is returned with any code fence stripped.
pub open spec fn glm_outcome_spec(status: int, body: Seq<char>) -> Result<Seq<char>, Seq<char>> {
    if !(200 <= status < 300) {
        Err("接口返回错误 ("@ + dec_digits(status) + "): "@ + body)
    } else {
        match glm_body_spec(body) {
            GlmBody::Unparsable => Err("解析响应失败: 响应格式不符"@),
            GlmBody::NoChoices => Ok("翻译失败：未返回内容"@),
            GlmBody::Content(c) => Ok(strip_fences_spec(c)),
        }
    }
}

/// Interprets the status and body of a chat-completion response.
pub fn interpret_glm_response(status: u16, body: &str) -> (r: Result<String, String>)
    ensures
        (match r {
            Ok(s) => glm_outcome_spec(status as int, body@) == Ok::<Seq<char>, Seq<char>>(s@),
            Err(e) => glm_outcome_spec(status as int, body@) == Err::<Seq<char>, Seq<char>>(e@),
        }),
{
    if !(200 <= status && status <= 299) {
        let st = u64_to_string(status as u64);
        let mut e = String::from_str("接口返回错误 (");
        e.append(st.as_str());
        e.append("): ");
        e.append(body);
        return Err(e);
    }
    match glm_extract(body) {
        GlmExtract::Unparsable => Err(String::from_str("解析响应失败: 响应格式不符")),
        GlmExtract::NoChoices => Ok(String::from_str("翻译失败：未返回内容")),
        GlmExtract::Content(c) => Ok(strip_code_fences(c.as_str())),
    }
}

/// What interpreting a cloud-translation response yields: a provider
/// failure reported inside the envelope wins and carries the provider's
/// code and message; otherwise the translated text is returned; an
/// unparsable body is a distinct parse failure.
pub open spec fn tencent_outcome_spec(body: Seq<char>) -> Result<Seq<char>, Seq<char>> {
    match tencent_body_spec(body) {
        TencentBody::Unparsable => Err("Parse error: unexpected response shape"@),
        TencentBody::Failure(code, msg) => Err(
            "Tencent API Error ("@ + code + "): "@ + msg,
        ),
        TencentBody::Translated(t) => Ok(t),
    }
}

/// Interprets the body of a cloud-translation response.
pub fn interpret_tencent_response(body: &str) -> (r: Result<String, String>)
    ensures
        (match r {
            Ok(s) => tencent_outcome_spec(body@) == Ok::<Seq<char>, Seq<char>>(s@),
            Err(e) => tencent_outcome_spec(body@) == Err::<Seq<char>, Seq<char>>(e@),
        }),
{
    match tencent_extract(body) {
        TencentExtract::Unparsable => Err(
            String::from_str("Parse error: unexpected response shape"),
        ),
        TencentExtract::Failure(code, msg) => {
            let mut e = String::from_str("Tencent API Error (");
            e.append(code.as_str());
            e.append("): ");
            e.append(msg.as_str());
            Err(e)
        },
        TencentExtract::Translated(t) => Ok(t),
    }
}

/// A provider-reported error embedded in a success envelope surfaces as a
/// failure carrying that code and message, never as a translation.
pub proof fn lemma_provider_error_surfaces(body: Seq<char>, code: Seq<char>, msg: Seq<char>)
    requires
        tencent_body_spec(body) == TencentBody::Failure(code, msg),
    ensures
        tencent_outcome_spec(body) == Err::<Seq<char>, Seq<char>>(
            "Tencent API Error ("@ + code + "): "@ + msg,
        ),
{
}

/// A chat-completion response whose choice list is empty yields the fixed
/// placeholder text, not a failure.
pub proof fn lemma_no_choices_placeholder(status: int, body: Seq<char>)
    requires
        200 <= status < 300,
        glm_body_spec(body) is NoChoices,
    ensures
        glm_outcome_spec(status, body) == Ok::<Seq<char>, Seq<char>>("翻译失败：未返回内容"@),
{
}

} // verus!
