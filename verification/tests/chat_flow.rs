use confessional_engine::chat::{
    check_status, parse_report_body, plan_chat, plan_report, status_is_success, EngineChatRequest,
    EngineReportRequest, ProjectMeta,
};
use confessional_engine::config::{EngineConfig, ModelPack};
use confessional_engine::errors::EngineError;
use confessional_engine::prompts::{build_report_prompt, build_system_prompt, build_user_prompt};

const BASE_PROMPT: &str = "You are the analysis engine inside a desktop app called Data Confessional.
The app helps business users turn raw data into honest summaries, dashboards, and reports.

You always:
- Focus only on the data and context provided.
- Separate what the data clearly shows from what is speculative.
- Mention gaps or missing information explicitly.
- Use concise, plain language.

When asked to answer questions about data, use this structure:

CONFESSION: A direct, one-paragraph answer.
EVIDENCE: Bullet points with exact numbers and references to tables or charts.
CAVEATS: Any uncertainties, missing segments, or data limitations.";

fn test_config(active: Option<&str>) -> EngineConfig {
    EngineConfig {
        provider: "ollama".to_string(),
        base_url: "http://127.0.0.1:11434".to_string(),
        active_pack_id: active.map(|s| s.to_string()),
        packs: vec![(
            "p".to_string(),
            ModelPack {
                label: "Pack".to_string(),
                analysis_model: "chat-model".to_string(),
                report_model: "report-model".to_string(),
                embedding_model: "embed-model".to_string(),
            },
        )],
    }
}

fn chat_request(role: &str) -> EngineChatRequest {
    EngineChatRequest {
        role: role.to_string(),
        question: "What changed?".to_string(),
        context_summary: "Sales dipped in March.".to_string(),
        project_meta: ProjectMeta { name: "Q1 Review".to_string(), audience: "team".to_string() },
    }
}

#[test]
fn chat_without_active_pack_is_config_error() {
    let config = test_config(None);
    match plan_chat(&config, &chat_request("analysis")) {
        Err(EngineError::ConfigError(m)) => assert_eq!(m, "No active engine pack configured"),
        other => panic!("expected a config error, got {:?}", other),
    }
}

#[test]
fn report_without_active_pack_is_config_error() {
    let config = test_config(None);
    let request = EngineReportRequest {
        template_type: "status".to_string(),
        audience: "exec".to_string(),
        data_summary: "stable".to_string(),
    };
    match plan_report(&config, &request) {
        Err(EngineError::ConfigError(m)) => assert_eq!(m, "No active engine pack configured"),
        other => panic!("expected a config error, got {:?}", other),
    }
}

#[test]
fn chat_routes_every_role_to_analysis_model() {
    let config = test_config(Some("p"));
    let analysis = plan_chat(&config, &chat_request("analysis")).unwrap();
    assert_eq!(analysis.model, "chat-model");
    let gossip = plan_chat(&config, &chat_request("gossip")).unwrap();
    assert_eq!(gossip.model, "chat-model");
    assert_eq!(analysis.system_prompt, BASE_PROMPT);
    assert!(gossip.system_prompt.starts_with(BASE_PROMPT));
    assert!(gossip.system_prompt.contains("STYLE:"));
    assert!(gossip.system_prompt.contains("\"data gossip\" style phrasing"));
    assert_ne!(analysis.system_prompt, gossip.system_prompt);
}

#[test]
fn report_routes_to_report_model() {
    let config = test_config(Some("p"));
    let request = EngineReportRequest {
        template_type: "status".to_string(),
        audience: "exec".to_string(),
        data_summary: "stable".to_string(),
    };
    let plan = plan_report(&config, &request).unwrap();
    assert_eq!(plan.model, "report-model");
    assert!(plan.prompt.contains("- Type: status"));
}

#[test]
fn system_prompt_variant_only_for_gossip() {
    assert_eq!(build_system_prompt("analysis", "team"), BASE_PROMPT);
    assert_eq!(build_system_prompt("anything-else", "exec"), BASE_PROMPT);
    let gossip = build_system_prompt("gossip", "self");
    let expected = format!(
        "{}\n\nSTYLE:\n- Keep the same structure (CONFESSION / EVIDENCE / CAVEATS).\n- In CONFESSION, you may use more playful, \"data gossip\" style phrasing.\n- EVIDENCE and CAVEATS must stay serious and precise.",
        BASE_PROMPT
    );
    assert_eq!(gossip, expected);
}

#[test]
fn user_prompt_embeds_all_fields_verbatim() {
    let meta = ProjectMeta { name: "Q1 Review".to_string(), audience: "team".to_string() };
    let prompt = build_user_prompt("What changed?", "Sales dipped in March.", &meta);
    let expected = format!(
        "CONTEXT:\n- Project name: {}\n- Intended audience: {}\n- Data summary:\n\n{}\n\nTASK:\n\nAnswer the user's question about this project using ONLY the context above.\nUse the output structure:\n\nCONFESSION:\n\n...\n\nEVIDENCE:\n\n- ...\n\nCAVEATS:\n\n- ...\n\nQUESTION:\n\n{}",
        "Q1 Review", "team", "Sales dipped in March.", "What changed?"
    );
    assert_eq!(prompt, expected);
}

#[test]
fn report_prompt_embeds_all_fields_verbatim() {
    let prompt = build_report_prompt("status", "exec", "Revenue flat.");
    assert!(prompt.starts_with(
        "You are drafting a report for Data Confessional.\n\nPROJECT DATA:\n\nRevenue flat.\n\nREPORT TEMPLATE:\n\n- Type: status\n- Audience: exec  (one of: self, team, exec)"
    ));
    assert!(prompt.contains("## Executive Summary"));
    assert!(prompt.contains("## Next Steps"));
    assert!(prompt.ends_with("- Call out missing or incomplete data under \"Risks and Questions\"."));
}

#[test]
fn non_success_status_carries_body_verbatim() {
    match check_status(500, "upstream exploded".to_string()) {
        Err(EngineError::ServerError(body)) => assert_eq!(body, "upstream exploded"),
        other => panic!("expected a server error, got {:?}", other),
    }
    assert!(check_status(200, String::new()).is_ok());
    assert!(check_status(204, String::new()).is_ok());
    assert!(matches!(check_status(301, String::new()), Err(EngineError::ServerError(_))));
    assert!(status_is_success(299));
    assert!(!status_is_success(300));
    assert!(!status_is_success(199));
}

#[test]
fn report_body_parses_content_and_echoes_model() {
    let body = "{\"choices\":[{\"message\":{\"content\":\"# Title\\n\\nBody\"}}]}";
    let resp = parse_report_body(body, "report-model".to_string()).unwrap();
    assert_eq!(resp.markdown, "# Title\n\nBody");
    assert_eq!(resp.model_name, "report-model");
}

#[test]
fn report_body_without_content_is_protocol_error() {
    for body in [
        "not json",
        "{\"choices\":[]}",
        "{\"choices\":[{\"message\":{}}]}",
        "{\"choices\":[{\"delta\":{\"content\":\"x\"}}]}",
    ] {
        match parse_report_body(body, "m".to_string()) {
            Err(EngineError::ProtocolError(m)) => assert_eq!(m, "Invalid response format"),
            other => panic!("expected a protocol error for {:?}, got {:?}", body, other),
        }
    }
}
