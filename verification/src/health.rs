use vstd::prelude::*;
use crate::config::{EngineConfig, ModelPack, active_pack_spec, get_active_pack};
use crate::errors::EngineError;

verus! {

/// Best-effort description of the machine's GPU; never given decision weight.
#[derive(Debug, Clone)]
pub struct GpuSummary {
    pub vendor: String,
    pub vram_gb: Option<u32>,
}

/// Derived health report, recomputed on every probe and never persisted.
#[derive(Debug, Clone)]
pub struct EngineHealth {
    pub ollama_available: bool,
    pub engine_configured: bool,
    pub active_pack_id: Option<String>,
    pub missing_models: Vec<String>,
    pub gpu_summary: Option<GpuSummary>,
}

/// The pack's required models that the installed list lacks, in the order
/// analysis, report, embedding, with duplicates kept once.
pub open spec fn missing_spec(pack: ModelPack, installed: Seq<Seq<char>>) -> Seq<Seq<char>> {
    let a = pack.analysis_model@;
    let r = pack.report_model@;
    let e = pack.embedding_model@;
    let s0: Seq<Seq<char>> = if !installed.contains(a) { seq![a] } else { seq![] };
    let s1: Seq<Seq<char>> = if !installed.contains(r) && r != a { s0.push(r) } else { s0 };
    if !installed.contains(e) && e != a && e != r { s1.push(e) } else { s1 }
}

fn contains_string(v: &Vec<String>, s: &String) -> (r: bool)
    ensures
        r == v.deep_view().contains(s@),
{
    let n = v.len();
    let mut i: usize = 0;
    while i < n
        invariant
            i <= n,
            n == v.len(),
            forall|k: int| 0 <= k < i ==> v.deep_view()[k] != s@,
        decreases n - i,
    {
        if v[i] == *s {
            assert(v.deep_view()[i as int] == s@);
            return true;
        }
        i = i + 1;
    }
    assert(!v.deep_view().contains(s@));
    false
}

/// Which of the pack's three required models the installed list lacks.
pub fn check_missing_models(pack: &ModelPack, installed: &Vec<String>) -> (missing: Vec<String>)
    ensures
        missing.deep_view() == missing_spec(*pack, installed.deep_view()),
{
    let mut missing: Vec<String> = Vec::new();
    if !contains_string(installed, &pack.analysis_model) {
        missing.push(pack.analysis_model.clone());
    }
    if !contains_string(installed, &pack.report_model)
        && !(pack.report_model == pack.analysis_model)
    {
        missing.push(pack.report_model.clone());
    }
    if !contains_string(installed, &pack.embedding_model)
        && !(pack.embedding_model == pack.analysis_model)
        && !(pack.embedding_model == pack.report_model)
    {
        missing.push(pack.embedding_model.clone());
    }
    proof {
        assert(missing.deep_view() =~= missing_spec(*pack, installed.deep_view()));
    }
    missing
}

/// The installed models a health computation works from: a failed listing
/// degrades to "no models installed" rather than failing the probe.
pub open spec fn installed_view(listed: Option<Vec<String>>) -> Seq<Seq<char>> {
    match listed {
        Some(v) => v.deep_view(),
        None => Seq::empty(),
    }
}

/// The missing-model list a health report shows: empty when the server is
/// unreachable or no active pack resolves.
pub open spec fn health_missing_spec(
    config: EngineConfig,
    available: bool,
    installed: Seq<Seq<char>>,
) -> Seq<Seq<char>> {
    if available {
        match active_pack_spec(config) {
            Some(pack) => missing_spec(pack, installed),
            None => Seq::empty(),
        }
    } else {
        Seq::empty()
    }
}

/// Derive the health report from the configuration, the probe outcome, and
/// the listing outcome (`None` when the listing call failed).
pub fn compute_health(
    config: &EngineConfig,
    available: bool,
    listed: Option<Vec<String>>,
    gpu: Option<GpuSummary>,
) -> (h: EngineHealth)
    ensures
        h.ollama_available == available,
        h.active_pack_id == config.active_pack_id,
        h.gpu_summary == gpu,
        h.missing_models.deep_view() == health_missing_spec(
            *config,
            available,
            installed_view(listed),
        ),
        h.engine_configured == (available && active_pack_spec(*config) is Some
            && health_missing_spec(*config, available, installed_view(listed)).len() == 0),
{
    let active_copy: Option<String> = match &config.active_pack_id {
        Some(id) => Some(id.clone()),
        None => None,
    };
    let mut engine_configured = false;
    let mut missing_models: Vec<String> = Vec::new();
    assert(missing_models.deep_view() =~= Seq::<Seq<char>>::empty());
    if available {
        let installed: Vec<String> = match listed {
            Some(v) => v,
            None => Vec::new(),
        };
        match get_active_pack(config) {
            Some(pack) => {
                missing_models = check_missing_models(pack, &installed);
                engine_configured = missing_models.len() == 0;
            }
            None => {}
        }
    }
    EngineHealth {
        ollama_available: available,
        engine_configured,
        active_pack_id: active_copy,
        missing_models,
        gpu_summary: gpu,
    }
}

/// The model names a listing response carries: the `name` field of every
/// entry of its `models` array, in array order, or `None` where the body is
/// not JSON or lacks that array.
pub uninterp spec fn models_of(body: Seq<char>) -> Option<Seq<Seq<char>>>;

/// Relies on `serde_json::from_str` and `serde_json::Value`'s `get`,
/// `as_array` and `as_str`: the `name` fields under `models` are a function
/// of the body text alone, taken in array order.
#[verifier::external_body]
fn extract_model_names(body: &str) -> (r: Option<Vec<String>>)
    ensures
        match r {
            Some(v) => models_of(body@) == Some(v.deep_view()),
            None => models_of(body@) is None,
        },
{
    let parsed: serde_json::Value = match serde_json::from_str(body) {
        Ok(v) => v,
        Err(_) => return None,
    };
    let arr = parsed.get("models")?.as_array()?;
    let names = arr
        .iter()
        .filter_map(|m| m.get("name").and_then(|n| n.as_str()).map(|s| s.to_string()))
        .collect();
    Some(names)
}

/// Extract the installed model list from a listing response body; a body
/// without the expected `models` array is an explicit parse error.
pub fn parse_models_body(body: &str) -> (r: Result<Vec<String>, EngineError>)
    ensures
        match models_of(body@) {
            Some(names) => r matches Ok(v) && v.deep_view() == names,
            None => r matches Err(e) && e matches EngineError::ProtocolError(m) && m@
                == "Invalid response format from Ollama"@,
        },
{
    match extract_model_names(body) {
        Some(v) => Ok(v),
        None => Err(EngineError::ProtocolError("Invalid response format from Ollama".to_owned())),
    }
}

} // verus!
