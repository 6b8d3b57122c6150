use quick_translate::dispatch::{
    interpret_glm_response, interpret_tencent_response, plan_translation, plan_translation_now,
    PlannedRequest,
};
use quick_translate::layout::centered_position;
use quick_translate::settings::{
    apply_active_engine, apply_tencent_config, apply_zhipu_api_key, AppSettings, Engine,
};
use quick_translate::shortcut::{plan_shortcut_update, ShortcutAction};

fn zhipu_settings(key: &str) -> AppSettings {
    AppSettings {
        zhipu_api_key: Some(key.to_string()),
        tencent_secret_id: None,
        tencent_secret_key: None,
        tencent_region: None,
        active_engine: Engine::Zhipu,
    }
}

fn tencent_settings() -> AppSettings {
    AppSettings {
        zhipu_api_key: None,
        tencent_secret_id: Some("AKIDtest".to_string()),
        tencent_secret_key: Some("sk-test".to_string()),
        tencent_region: None,
        active_engine: Engine::Tencent,
    }
}

const GLM_BODY_HELLO_ZH_FORMAL: &str = "{\"model\":\"glm-4.6\",\"messages\":[{\"role\":\"system\",\"content\":\"You are a professional translation engine. Translate the provided text into 中文. Use a professional, formal, and polite tone suitable for business contexts. Requirements: Output ONLY the translated text without explanations, quotes, Markdown, numbering, or extra content. Preserve original line breaks and formatting as much as possible.\"},{\"role\":\"user\",\"content\":\"Hello\"}],\"temperature\":0.2,\"top_p\":0.9,\"stream\":false,\"do_sample\":false,\"response_format\":{\"type\":\"text\"}}";

#[test]
fn chat_plan_builds_prompt_and_payload() {
    let settings = zhipu_settings("k-123");
    let plan = plan_translation(&settings, "Hello", "zh", "Formal", 1705300000, "2024-01-15")
        .expect("credentialed plan must succeed");
    match plan {
        PlannedRequest::Glm { url, bearer_key, body } => {
            assert_eq!(url, "https://open.bigmodel.cn/api/paas/v4/chat/completions");
            assert_eq!(bearer_key, "Bearer k-123");
            assert_eq!(body, GLM_BODY_HELLO_ZH_FORMAL);
            assert!(body.contains("中文"));
            assert!(body.contains("formal, and polite tone"));
        }
        PlannedRequest::Tencent { .. } => panic!("wrong engine"),
    }
}

#[test]
fn chat_plan_escapes_payload_text() {
    let settings = zhipu_settings("k");
    let plan = plan_translation(&settings, "a\"b\\c\nd", "zh", "", 0, "2024-01-15").unwrap();
    match plan {
        PlannedRequest::Glm { body, .. } => {
            assert!(body.contains("a\\\"b\\\\c\\nd"));
        }
        PlannedRequest::Tencent { .. } => panic!("wrong engine"),
    }
}

#[test]
fn missing_chat_credential_fails_before_any_request() {
    let mut settings = zhipu_settings("k");
    settings.zhipu_api_key = None;
    // The plan is the only thing a transport would receive; no plan, no
    // network call.
    let r = plan_translation(&settings, "Hello", "zh", "Formal", 0, "2024-01-15");
    assert_eq!(r.unwrap_err(), "未配置智谱 AI API Key：请在设置页配置");
    let r2 = plan_translation_now(&settings, "Hello", "zh", "Formal");
    assert_eq!(r2.unwrap_err(), "未配置智谱 AI API Key：请在设置页配置");
}

#[test]
fn missing_provider_credentials_fail_in_order() {
    let mut settings = tencent_settings();
    settings.tencent_secret_id = None;
    let r = plan_translation(&settings, "Hello", "zh", "", 0, "2024-01-15");
    assert_eq!(r.unwrap_err(), "未配置腾讯云 SecretId");

    let mut settings = tencent_settings();
    settings.tencent_secret_key = None;
    let r = plan_translation(&settings, "Hello", "zh", "", 0, "2024-01-15");
    assert_eq!(r.unwrap_err(), "未配置腾讯云 SecretKey");
}

#[test]
fn provider_plan_is_signed_and_complete() {
    let settings = tencent_settings();
    let plan = plan_translation(&settings, "Hello", "zh", "", 1705300000, "2024-01-15")
        .expect("credentialed plan must succeed");
    match plan {
        PlannedRequest::Tencent {
            host,
            authorization,
            action,
            version,
            timestamp,
            region,
            body,
        } => {
            assert_eq!(host, "tmt.tencentcloudapi.com");
            assert_eq!(action, "TextTranslate");
            assert_eq!(version, "2018-03-21");
            assert_eq!(timestamp, 1705300000);
            assert_eq!(region, "ap-guangzhou");
            assert_eq!(
                body,
                "{\"SourceText\":\"Hello\",\"Source\":\"auto\",\"Target\":\"zh\",\"ProjectId\":0}"
            );
            assert_eq!(
                authorization,
                "TC3-HMAC-SHA256 Credential=AKIDtest/2024-01-15/tmt/tc3_request, SignedHeaders=content-type;host, Signature=de34c36cafb861509eca1bfc461c438b9e1518f0a487ae6ba8df713129c608d4"
            );
        }
        PlannedRequest::Glm { .. } => panic!("wrong engine"),
    }
}

#[test]
fn provider_plan_uses_configured_region() {
    let mut settings = tencent_settings();
    settings.tencent_region = Some("ap-shanghai".to_string());
    let plan = plan_translation(&settings, "x", "en", "", 0, "2024-01-15").unwrap();
    match plan {
        PlannedRequest::Tencent { region, body, .. } => {
            assert_eq!(region, "ap-shanghai");
            assert!(body.contains("\"Target\":\"en\""));
        }
        PlannedRequest::Glm { .. } => panic!("wrong engine"),
    }
}

#[test]
fn chat_response_content_is_returned_stripped() {
    let body = "{\"id\":\"x\",\"created\":1,\"choices\":[{\"index\":0,\"message\":{\"role\":\"assistant\",\"content\":\"```text\\n你好\\n```\"}}],\"usage\":{\"total_tokens\":9}}";
    let r = interpret_glm_response(200, body);
    assert_eq!(r.unwrap(), "你好");
}

#[test]
fn chat_response_plain_content_passes_through() {
    let body = "{\"choices\":[{\"message\":{\"content\":\"Bonjour\"}}]}";
    assert_eq!(interpret_glm_response(200, body).unwrap(), "Bonjour");
}

#[test]
fn empty_choices_yield_fixed_placeholder() {
    let r = interpret_glm_response(200, "{\"choices\":[]}");
    assert_eq!(r.unwrap(), "翻译失败：未返回内容");
    let r2 = interpret_glm_response(200, "{\"id\":\"a\",\"choices\":[ ]}");
    assert_eq!(r2.unwrap(), "翻译失败：未返回内容");
}

#[test]
fn non_success_status_reports_code_and_body() {
    let r = interpret_glm_response(403, "denied");
    assert_eq!(r.unwrap_err(), "接口返回错误 (403): denied");
    let r2 = interpret_glm_response(500, "");
    assert_eq!(r2.unwrap_err(), "接口返回错误 (500): ");
}

#[test]
fn unparsable_chat_body_is_a_parse_failure() {
    let r = interpret_glm_response(200, "not json at all");
    assert_eq!(r.unwrap_err(), "解析响应失败: 响应格式不符");
    let r2 = interpret_glm_response(200, "{\"nochoices\":true}");
    assert_eq!(r2.unwrap_err(), "解析响应失败: 响应格式不符");
}

#[test]
fn whitespace_rich_response_parses() {
    let body = "{ \"choices\" : [ { \"message\" : { \"content\" : \"hi\" } } ] }";
    assert_eq!(interpret_glm_response(200, body).unwrap(), "hi");
}

#[test]
fn members_before_choices_are_skipped() {
    let body = "{\"meta\":{\"a\":[1,2,{\"b\":\"]\"}],\"ok\":true},\"model\":null,\"choices\":[{\"note\":-1.5e3,\"message\":{\"role\":\"assistant\",\"content\":\"ok\"}}]}";
    assert_eq!(interpret_glm_response(200, body).unwrap(), "ok");
}

#[test]
fn provider_error_in_success_envelope_surfaces() {
    let body = "{\"Response\":{\"RequestId\":\"r-1\",\"Error\":{\"Code\":\"AuthFailure.SignatureFailure\",\"Message\":\"签名错误\"}}}";
    let r = interpret_tencent_response(body);
    assert_eq!(
        r.unwrap_err(),
        "Tencent API Error (AuthFailure.SignatureFailure): 签名错误"
    );
}

#[test]
fn provider_success_returns_target_text() {
    let body = "{\"Response\":{\"TargetText\":\"你好\",\"Source\":\"en\",\"Target\":\"zh\",\"RequestId\":\"r-2\"}}";
    assert_eq!(interpret_tencent_response(body).unwrap(), "你好");
}

#[test]
fn provider_null_error_is_no_error() {
    let body = "{\"Response\":{\"Error\":null,\"TargetText\":\"ok\"}}";
    assert_eq!(interpret_tencent_response(body).unwrap(), "ok");
}

#[test]
fn unparsable_provider_body_is_a_parse_failure() {
    let r = interpret_tencent_response("<html>bad gateway</html>");
    assert_eq!(r.unwrap_err(), "Parse error: unexpected response shape");
    let r2 = interpret_tencent_response("{\"Response\":{}}");
    assert_eq!(r2.unwrap_err(), "Parse error: unexpected response shape");
}

#[test]
fn decoded_escapes_in_content() {
    let body = "{\"choices\":[{\"message\":{\"content\":\"a\\\\b\\\"c\\nd\"}}]}";
    assert_eq!(interpret_glm_response(200, body).unwrap(), "a\\b\"c\nd");
}

#[test]
fn low_unicode_escapes_are_decoded() {
    let body = "{\"choices\":[{\"message\":{\"content\":\"a\\u0009b\\u0041\"}}]}";
    assert_eq!(interpret_glm_response(200, body).unwrap(), "a\tbA");
}

#[test]
fn bmp_unicode_escapes_are_decoded() {
    let body = "{\"choices\":[{\"message\":{\"content\":\"\\u4f60\\u597d\"}}]}";
    assert_eq!(interpret_glm_response(200, body).unwrap(), "你好");
}

#[test]
fn surrogate_pairs_are_decoded() {
    let body = "{\"choices\":[{\"message\":{\"content\":\"a\\ud83d\\ude00b\"}}]}";
    assert_eq!(interpret_glm_response(200, body).unwrap(), "a\u{1f600}b");
}

#[test]
fn lone_surrogate_escapes_are_a_parse_failure() {
    let high = "{\"choices\":[{\"message\":{\"content\":\"a\\ud83db\"}}]}";
    assert_eq!(
        interpret_glm_response(200, high).unwrap_err(),
        "解析响应失败: 响应格式不符"
    );
    let low = "{\"choices\":[{\"message\":{\"content\":\"a\\ude00b\"}}]}";
    assert_eq!(
        interpret_glm_response(200, low).unwrap_err(),
        "解析响应失败: 响应格式不符"
    );
}

#[test]
fn end_to_end_chat_call_returns_stripped_content() {
    let settings = zhipu_settings("k-123");
    let plan = plan_translation(&settings, "Hello", "zh", "Formal", 1705300000, "2024-01-15");
    // Transport double: records every POST it is asked to make.
    let mut posts: Vec<String> = Vec::new();
    let result = match plan.unwrap() {
        PlannedRequest::Glm { url, bearer_key, body } => {
            assert!(body.contains("中文"));
            assert!(body.contains("formal, and polite tone"));
            posts.push(format!("{url} {bearer_key} {body}"));
            let response_body =
                "{\"choices\":[{\"message\":{\"content\":\"```text\\n你好\\n```\"}}]}";
            interpret_glm_response(200, response_body)
        }
        PlannedRequest::Tencent { .. } => panic!("wrong engine"),
    };
    assert_eq!(posts.len(), 1);
    assert_eq!(result.unwrap(), "你好");
}

#[test]
fn end_to_end_missing_credential_makes_zero_posts() {
    let settings = AppSettings {
        zhipu_api_key: None,
        tencent_secret_id: None,
        tencent_secret_key: None,
        tencent_region: None,
        active_engine: Engine::Zhipu,
    };
    // Transport double: would record any POST; the failed plan never
    // produces a request to post.
    let mut posts: Vec<String> = Vec::new();
    let r = plan_translation(&settings, "Hello", "zh", "Formal", 0, "2024-01-15");
    if let Ok(PlannedRequest::Glm { url, bearer_key, body }) = &r {
        posts.push(format!("{url} {bearer_key} {body}"));
    }
    assert_eq!(posts.len(), 0);
    assert!(r.is_err());
}

#[test]
fn settings_default_and_updates() {
    let s = AppSettings::default();
    assert_eq!(s.zhipu_api_key, None);
    assert_eq!(s.tencent_secret_id, None);
    assert_eq!(s.tencent_secret_key, None);
    assert_eq!(s.tencent_region, Some("ap-guangzhou".to_string()));
    assert_eq!(s.active_engine, Engine::Zhipu);

    let s = apply_zhipu_api_key(s, "  k-9  ");
    assert_eq!(s.zhipu_api_key, Some("k-9".to_string()));
    let s = apply_zhipu_api_key(s, "   ");
    assert_eq!(s.zhipu_api_key, None);
    // Unicode whitespace counts as blank, exactly as `str::trim` sees it.
    let s = apply_zhipu_api_key(s, "\u{b}\u{a0}\u{3000}");
    assert_eq!(s.zhipu_api_key, None);
    let s = apply_zhipu_api_key(s, "\u{a0}k-10\u{2028}");
    assert_eq!(s.zhipu_api_key, Some("k-10".to_string()));

    let s = apply_tencent_config(s, " id ", " key ", "");
    assert_eq!(s.tencent_secret_id, Some("id".to_string()));
    assert_eq!(s.tencent_secret_key, Some("key".to_string()));
    assert_eq!(s.tencent_region, Some("ap-guangzhou".to_string()));
    let s = apply_tencent_config(s, "", "", " ap-beijing ");
    assert_eq!(s.tencent_secret_id, None);
    assert_eq!(s.tencent_secret_key, None);
    assert_eq!(s.tencent_region, Some("ap-beijing".to_string()));
    let s = apply_tencent_config(s, "\u{b}", "\u{85}", "");
    assert_eq!(s.tencent_secret_id, None);
    assert_eq!(s.tencent_secret_key, None);
}

#[test]
fn engine_selection_accepts_only_known_names() {
    let s = AppSettings::default();
    let s = apply_active_engine(s, "tencent").unwrap();
    assert_eq!(s.active_engine, Engine::Tencent);
    let s = apply_active_engine(s, "zhipu").unwrap();
    assert_eq!(s.active_engine, Engine::Zhipu);
    let r = apply_active_engine(s, "deepl");
    assert_eq!(r.unwrap_err(), "Invalid engine name");
}

#[test]
fn window_centering() {
    assert_eq!(centered_position(0, 0, 1920, 1080, 400, 300), (760, 390));
    assert_eq!(centered_position(100, 50, 800, 600, 800, 600), (100, 50));
    // A window larger than the monitor centers past the left edge.
    assert_eq!(centered_position(0, 0, 100, 100, 300, 100), (-100, 0));
}

#[test]
fn shortcut_update_plans() {
    let none = plan_shortcut_update("Alt+T", "Alt+T");
    assert_eq!(none.len(), 0);

    let both = plan_shortcut_update("Alt+T", "Alt+Y");
    assert_eq!(both.len(), 2);
    match &both[0] {
        ShortcutAction::Unregister(s) => assert_eq!(s, "Alt+T"),
        ShortcutAction::Register(_) => panic!("must unregister first"),
    }
    match &both[1] {
        ShortcutAction::Register(s) => assert_eq!(s, "Alt+Y"),
        ShortcutAction::Unregister(_) => panic!("must register second"),
    }

    let only_new = plan_shortcut_update("", "Alt+T");
    assert_eq!(only_new.len(), 1);
    match &only_new[0] {
        ShortcutAction::Register(s) => assert_eq!(s, "Alt+T"),
        ShortcutAction::Unregister(_) => panic!("nothing to unregister"),
    }

    let only_old = plan_shortcut_update("Alt+T", "");
    assert_eq!(only_old.len(), 1);
    match &only_old[0] {
        ShortcutAction::Unregister(s) => assert_eq!(s, "Alt+T"),
        ShortcutAction::Register(_) => panic!("nothing to register"),
    }
}
