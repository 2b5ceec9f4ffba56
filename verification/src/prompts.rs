use vstd::prelude::*;
use vstd::string::StringExecFns;
use crate::chat::ProjectMeta;

verus! {

/// The fixed persona and output-structure instructions every chat carries.
pub open spec fn system_prompt_base() -> Seq<char> {
    "You are the analysis engine inside a desktop app called Data Confessional.
The app helps business users turn raw data into honest summaries, dashboards, and reports.

You always:
- Focus only on the data and context provided.
- Separate what the data clearly shows from what is speculative.
- Mention gaps or missing information explicitly.
- Use concise, plain language.

When asked to answer questions about data, use this structure:

CONFESSION: A direct, one-paragraph answer.
EVIDENCE: Bullet points with exact numbers and references to tables or charts.
CAVEATS: Any uncertainties, missing segments, or data limitations."@
}

/// The stylistic variant appended only for the gossip role.
pub open spec fn gossip_style_addendum() -> Seq<char> {
    "\n\nSTYLE:\n- Keep the same structure (CONFESSION / EVIDENCE / CAVEATS).\n- In CONFESSION, you may use more playful, \"data gossip\" style phrasing.\n- EVIDENCE and CAVEATS must stay serious and precise."@
}

/// The system prompt for a role: the fixed instructions, with the playful
/// variant appended only when the role is gossip.
pub open spec fn system_prompt_spec(role: Seq<char>) -> Seq<char> {
    if role == "gossip"@ {
        system_prompt_base() + gossip_style_addendum()
    } else {
        system_prompt_base()
    }
}

/// Build the system prompt; the audience shapes nothing here and is kept
/// only for symmetry with the user prompt.
pub fn build_system_prompt(role: &str, audience: &str) -> (r: String)
    ensures
        r@ == system_prompt_spec(role@),
{
    let _ = audience;
    let base = "You are the analysis engine inside a desktop app called Data Confessional.
The app helps business users turn raw data into honest summaries, dashboards, and reports.

You always:
- Focus only on the data and context provided.
- Separate what the data clearly shows from what is speculative.
- Mention gaps or missing information explicitly.
- Use concise, plain language.

When asked to answer questions about data, use this structure:

CONFESSION: A direct, one-paragraph answer.
EVIDENCE: Bullet points with exact numbers and references to tables or charts.
CAVEATS: Any uncertainties, missing segments, or data limitations.".to_owned();
    if role.to_owned() == "gossip".to_owned() {
        base.concat("\n\nSTYLE:\n- Keep the same structure (CONFESSION / EVIDENCE / CAVEATS).\n- In CONFESSION, you may use more playful, \"data gossip\" style phrasing.\n- EVIDENCE and CAVEATS must stay serious and precise.")
    } else {
        base
    }
}

/// The user prompt: project name, audience, context summary, and the
/// verbatim question, inside the fixed task framing.
pub open spec fn user_prompt_spec(
    question: Seq<char>,
    context_summary: Seq<char>,
    meta: ProjectMeta,
) -> Seq<char> {
    "CONTEXT:\n- Project name: "@ + meta.name@ + "\n- Intended audience: "@ + meta.audience@
        + "\n- Data summary:\n\n"@ + context_summary
        + "\n\nTASK:\n\nAnswer the user's question about this project using ONLY the context above.\nUse the output structure:\n\nCONFESSION:\n\n...\n\nEVIDENCE:\n\n- ...\n\nCAVEATS:\n\n- ...\n\nQUESTION:\n\n"@
        + question
}

/// Build the user prompt for a chat turn.
pub fn build_user_prompt(question: &str, context_summary: &str, project_meta: &ProjectMeta) -> (r:
    String)
    ensures
        r@ == user_prompt_spec(question@, context_summary@, *project_meta),
{
    let r = "CONTEXT:\n- Project name: ".to_owned()
        .concat(project_meta.name.as_str())
        .concat("\n- Intended audience: ")
        .concat(project_meta.audience.as_str())
        .concat("\n- Data summary:\n\n")
        .concat(context_summary)
        .concat("\n\nTASK:\n\nAnswer the user's question about this project using ONLY the context above.\nUse the output structure:\n\nCONFESSION:\n\n...\n\nEVIDENCE:\n\n- ...\n\nCAVEATS:\n\n- ...\n\nQUESTION:\n\n")
        .concat(question);
    proof {
        assert(r@ =~= user_prompt_spec(question@, context_summary@, *project_meta));
    }
    r
}

/// The report prompt: the data summary, template type, and audience inside
/// the fixed five-section markdown instructions.
pub open spec fn report_prompt_spec(
    template_type: Seq<char>,
    audience: Seq<char>,
    data_summary: Seq<char>,
) -> Seq<char> {
    "You are drafting a report for Data Confessional.\n\nPROJECT DATA:\n\n"@ + data_summary
        + "\n\nREPORT TEMPLATE:\n\n- Type: "@ + template_type + "\n- Audience: "@ + audience
        + "  (one of: self, team, exec)\n\nWrite a markdown report following this structure:\n\n# Title\n\n## Executive Summary\n\n- 3–5 bullets describing the main truths the data reveals.\n\n## Key Findings\n\n- Short paragraphs for each major insight.\n- Include concrete numbers where possible.\n\n## Supporting Evidence\n\n- Bullet lists tying findings to specific metrics, tables, or charts.\n\n## Risks and Questions\n\n- 3–5 bullets.\n\n## Next Steps\n\n- 3–5 recommended actions.\n\nConstraints:\n\n- Do not invent data you do not see in PROJECT DATA.\n- Call out missing or incomplete data under \"Risks and Questions\"."@
}

/// Build the one-shot report-drafting prompt.
pub fn build_report_prompt(template_type: &str, audience: &str, data_summary: &str) -> (r: String)
    ensures
        r@ == report_prompt_spec(template_type@, audience@, data_summary@),
{
    let r = "You are drafting a report for Data Confessional.\n\nPROJECT DATA:\n\n".to_owned()
        .concat(data_summary)
        .concat("\n\nREPORT TEMPLATE:\n\n- Type: ")
        .concat(template_type)
        .concat("\n- Audience: ")
        .concat(audience)
        .concat("  (one of: self, team, exec)\n\nWrite a markdown report following this structure:\n\n# Title\n\n## Executive Summary\n\n- 3–5 bullets describing the main truths the data reveals.\n\n## Key Findings\n\n- Short paragraphs for each major insight.\n- Include concrete numbers where possible.\n\n## Supporting Evidence\n\n- Bullet lists tying findings to specific metrics, tables, or charts.\n\n## Risks and Questions\n\n- 3–5 bullets.\n\n## Next Steps\n\n- 3–5 recommended actions.\n\nConstraints:\n\n- Do not invent data you do not see in PROJECT DATA.\n- Call out missing or incomplete data under \"Risks and Questions\".");
    proof {
        assert(r@ =~= report_prompt_spec(template_type@, audience@, data_summary@));
    }
    r
}

} // verus!
