use vstd::prelude::*;
use crate::config::{EngineConfig, active_pack_spec, get_active_pack};
use crate::errors::EngineError;
use crate::prompts::{
    build_report_prompt, build_system_prompt, build_user_prompt, report_prompt_spec,
    system_prompt_spec, user_prompt_spec,
};

verus! {

/// One chat turn: the role picks the prompt style, the project metadata and
/// context frame the question.
#[derive(Debug, Clone)]
pub struct EngineChatRequest {
    pub role: String,
    pub question: String,
    pub context_summary: String,
    pub project_meta: ProjectMeta,
}

/// The project a chat turn speaks about and who will read the answers.
#[derive(Debug, Clone)]
pub struct ProjectMeta {
    pub name: String,
    pub audience: String,
}

/// One report-drafting request.
#[derive(Debug, Clone)]
pub struct EngineReportRequest {
    pub template_type: String,
    pub audience: String,
    pub data_summary: String,
}

/// A drafted report; the model name echoes the model actually invoked.
#[derive(Debug, Clone)]
pub struct EngineReportResponse {
    pub markdown: String,
    pub model_name: String,
}

/// Everything a caller needs to open the streaming chat request: the routed
/// model and the two prompts.
#[derive(Debug, Clone)]
pub struct ChatPlan {
    pub model: String,
    pub system_prompt: String,
    pub user_prompt: String,
}

/// Everything a caller needs to issue the one-shot report request.
#[derive(Debug, Clone)]
pub struct ReportPlan {
    pub model: String,
    pub prompt: String,
}

/// Route a chat turn: every role maps to the active pack's analysis model,
/// the role shaping only the prompt style. With no active pack the turn
/// fails before anything else happens.
pub fn plan_chat(config: &EngineConfig, request: &EngineChatRequest) -> (r: Result<
    ChatPlan,
    EngineError,
>)
    ensures
        match active_pack_spec(*config) {
            Some(pack) => r matches Ok(p) && p.model@ == pack.analysis_model@
                && p.system_prompt@ == system_prompt_spec(request.role@)
                && p.user_prompt@ == user_prompt_spec(
                request.question@,
                request.context_summary@,
                request.project_meta,
            ),
            None => r matches Err(e) && e matches EngineError::ConfigError(m) && m@
                == "No active engine pack configured"@,
        },
{
    let pack = match get_active_pack(config) {
        Some(p) => p,
        None => {
            return Err(EngineError::ConfigError("No active engine pack configured".to_owned()));
        },
    };
    let system_prompt = build_system_prompt(request.role.as_str(), request.project_meta.audience.as_str());
    let user_prompt = build_user_prompt(
        request.question.as_str(),
        request.context_summary.as_str(),
        &request.project_meta,
    );
    Ok(ChatPlan { model: pack.analysis_model.clone(), system_prompt, user_prompt })
}

/// Route a report request to the active pack's report model. With no active
/// pack the request fails before anything else happens.
pub fn plan_report(config: &EngineConfig, request: &EngineReportRequest) -> (r: Result<
    ReportPlan,
    EngineError,
>)
    ensures
        match active_pack_spec(*config) {
            Some(pack) => r matches Ok(p) && p.model@ == pack.report_model@ && p.prompt@
                == report_prompt_spec(
                request.template_type@,
                request.audience@,
                request.data_summary@,
            ),
            None => r matches Err(e) && e matches EngineError::ConfigError(m) && m@
                == "No active engine pack configured"@,
        },
{
    let pack = match get_active_pack(config) {
        Some(p) => p,
        None => {
            return Err(EngineError::ConfigError("No active engine pack configured".to_owned()));
        },
    };
    let prompt = build_report_prompt(
        request.template_type.as_str(),
        request.audience.as_str(),
        request.data_summary.as_str(),
    );
    Ok(ReportPlan { model: pack.report_model.clone(), prompt })
}

/// Whether an HTTP status code counts as success.
pub open spec fn status_success_spec(status: u16) -> bool {
    200 <= status < 300
}

/// Whether an HTTP status code counts as success.
pub fn status_is_success(status: u16) -> (r: bool)
    ensures
        r == status_success_spec(status),
{
    200 <= status && status < 300
}

/// Classify a response: a non-success status is a terminal server error
/// carrying the response body verbatim.
pub fn check_status(status: u16, body: String) -> (r: Result<(), EngineError>)
    ensures
        status_success_spec(status) ==> r is Ok,
        !status_success_spec(status) ==> (r matches Err(e)
            && e matches EngineError::ServerError(b) && b@ == body@),
{
    if status_is_success(status) {
        Ok(())
    } else {
        Err(EngineError::ServerError(body))
    }
}

/// The content a completed report response carries: the string at
/// `choices[0].message.content` of the body parsed as JSON, or `None`
/// where the body is not JSON or lacks that path.
pub uninterp spec fn report_content_of(body: Seq<char>) -> Option<Seq<char>>;

/// Relies on `serde_json::from_str` and `serde_json::Value`'s `get`,
/// `as_array` and `as_str`: the content at `choices[0].message.content` is
/// a function of the body text alone.
#[verifier::external_body]
fn extract_report_content(body: &str) -> (r: Option<String>)
    ensures
        match r {
            Some(s) => report_content_of(body@) == Some(s@),
            None => report_content_of(body@) is None,
        },
{
    let parsed: serde_json::Value = match serde_json::from_str(body) {
        Ok(v) => v,
        Err(_) => return None,
    };
    let content = parsed.get("choices")?.as_array()?.get(0)?.get("message")?.get("content")?.as_str()?;
    Some(content.to_string())
}

/// Extract the drafted report from a successful response body; the absence
/// of the expected path is an explicit malformed-response error, never a
/// silent empty document. The model name is echoed for attribution.
pub fn parse_report_body(body: &str, model: String) -> (r: Result<EngineReportResponse, EngineError>)
    ensures
        match report_content_of(body@) {
            Some(c) => r matches Ok(resp) && resp.markdown@ == c && resp.model_name@ == model@,
            None => r matches Err(e) && e matches EngineError::ProtocolError(m) && m@
                == "Invalid response format"@,
        },
{
    match extract_report_content(body) {
        Some(markdown) => Ok(EngineReportResponse { markdown, model_name: model }),
        None => Err(EngineError::ProtocolError("Invalid response format".to_owned())),
    }
}

} // verus!
