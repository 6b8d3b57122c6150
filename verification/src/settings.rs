//! The configuration snapshot a translation call reads: which engine is
//! active and the credentials each engine needs, plus the pure update
//! rules the settings commands apply.
use vstd::prelude::*;
use vstd::string::StringExecFns;
use crate::text::{trim_spec, trim, str_eq};

verus! {

/// The closed set of translation backends.
#[derive(Clone, Copy, PartialEq, Eq, Structural, Debug)]
pub enum Engine {
    Zhipu,
    Tencent,
}

/// A configuration snapshot. Credentials are held as plain optional
/// strings; absence means the engine is not configured.
#[derive(Clone, Debug)]
pub struct AppSettings {
    pub zhipu_api_key: Option<String>,
    pub tencent_secret_id: Option<String>,
    pub tencent_secret_key: Option<String>,
    pub tencent_region: Option<String>,
    pub active_engine: Engine,
}

impl Default for AppSettings {
    /// The fresh configuration: no credentials, the default region, the
    /// chat-completion engine active.
    fn default() -> (r: AppSettings)
        ensures
            r.zhipu_api_key is None,
            r.tencent_secret_id is None,
            r.tencent_secret_key is None,
            r.tencent_region matches Some(g) && g@ == "ap-guangzhou"@,
            r.active_engine == Engine::Zhipu,
    {
        AppSettings {
            zhipu_api_key: None,
            tencent_secret_id: None,
            tencent_secret_key: None,
            tencent_region: Some(String::from_str("ap-guangzhou")),
            active_engine: Engine::Zhipu,
        }
    }
}

/// Stores a chat-completion credential: the key is trimmed, and a blank
/// key clears the credential. Nothing else changes.
pub fn apply_zhipu_api_key(settings: AppSettings, api_key: &str) -> (r: AppSettings)
    ensures
        trim_spec(api_key@).len() == 0 ==> r.zhipu_api_key is None,
        trim_spec(api_key@).len() > 0 ==> (r.zhipu_api_key matches Some(k) && k@ == trim_spec(
            api_key@,
        )),
        r.tencent_secret_id == settings.tencent_secret_id,
        r.tencent_secret_key == settings.tencent_secret_key,
        r.tencent_region == settings.tencent_region,
        r.active_engine == settings.active_engine,
{
    let trimmed = trim(api_key);
    let key = if trimmed.as_str().is_empty() {
        None
    } else {
        Some(trimmed)
    };
    AppSettings { zhipu_api_key: key, ..settings }
}

/// Stores the cloud-provider credentials: identifier and key are trimmed,
/// blank values clear them; a blank region falls back to the default
/// region. Nothing else changes.
pub fn apply_tencent_config(
    settings: AppSettings,
    secret_id: &str,
    secret_key: &str,
    region: &str,
) -> (r: AppSettings)
    ensures
        trim_spec(secret_id@).len() == 0 ==> r.tencent_secret_id is None,
        trim_spec(secret_id@).len() > 0 ==> (r.tencent_secret_id matches Some(s) && s@ == trim_spec(
            secret_id@,
        )),
        trim_spec(secret_key@).len() == 0 ==> r.tencent_secret_key is None,
        trim_spec(secret_key@).len() > 0 ==> (r.tencent_secret_key matches Some(s) && s@
            == trim_spec(secret_key@)),
        trim_spec(region@).len() == 0 ==> (r.tencent_region matches Some(g) && g@
            == "ap-guangzhou"@),
        trim_spec(region@).len() > 0 ==> (r.tencent_region matches Some(g) && g@ == trim_spec(
            region@,
        )),
        r.zhipu_api_key == settings.zhipu_api_key,
        r.active_engine == settings.active_engine,
{
    let id = trim(secret_id);
    let key = trim(secret_key);
    let reg = trim(region);
    AppSettings {
        tencent_secret_id: if id.as_str().is_empty() {
            None
        } else {
            Some(id)
        },
        tencent_secret_key: if key.as_str().is_empty() {
            None
        } else {
            Some(key)
        },
        tencent_region: if reg.as_str().is_empty() {
            Some(String::from_str("ap-guangzhou"))
        } else {
            Some(reg)
        },
        ..settings
    }
}

/// Selects the active engine by name; only the two known names are
/// accepted. Nothing else changes.
pub fn apply_active_engine(settings: AppSettings, engine: &str) -> (r: Result<
    AppSettings,
    String,
>)
    ensures
        engine@ == "zhipu"@ ==> (r matches Ok(s) && s.active_engine == Engine::Zhipu),
        engine@ == "tencent"@ ==> (r matches Ok(s) && s.active_engine == Engine::Tencent),
        engine@ != "zhipu"@ && engine@ != "tencent"@ ==> (r matches Err(e) && e@
            == "Invalid engine name"@),
        r matches Ok(s) ==> s.zhipu_api_key == settings.zhipu_api_key
            && s.tencent_secret_id == settings.tencent_secret_id
            && s.tencent_secret_key == settings.tencent_secret_key
            && s.tencent_region == settings.tencent_region,
{
    proof {
        reveal_strlit("zhipu");
        reveal_strlit("tencent");
        assert(("zhipu"@).len() != ("tencent"@).len());
    }
    if str_eq(engine, "zhipu") {
        Ok(AppSettings { active_engine: Engine::Zhipu, ..settings })
    } else if str_eq(engine, "tencent") {
        Ok(AppSettings { active_engine: Engine::Tencent, ..settings })
    } else {
        Err(String::from_str("Invalid engine name"))
    }
}

} // verus!
