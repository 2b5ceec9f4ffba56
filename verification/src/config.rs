use vstd::prelude::*;

verus! {

/// A named bundle of the three model identifiers one deployable
/// configuration of the inference server needs.
#[derive(Debug, Clone)]
pub struct ModelPack {
    pub label: String,
    pub analysis_model: String,
    pub report_model: String,
    pub embedding_model: String,
}

/// The engine configuration: provider tag, server base address, the
/// currently active pack id, and the registry of packs keyed by id.
///
/// The registry is a list of (id, pack) pairs; a lookup takes the first
/// pair whose id matches, so distinct ids behave like map keys.
#[derive(Debug, Clone)]
pub struct EngineConfig {
    pub provider: String,
    pub base_url: String,
    pub active_pack_id: Option<String>,
    pub packs: Vec<(String, ModelPack)>,
}

/// The pack registered under `id`, taking the first matching pair.
pub open spec fn pack_lookup(packs: Seq<(String, ModelPack)>, id: Seq<char>) -> Option<ModelPack>
    decreases packs.len(),
{
    if packs.len() == 0 {
        None
    } else if packs[0].0@ == id {
        Some(packs[0].1)
    } else {
        pack_lookup(packs.skip(1), id)
    }
}

/// The pack the configuration currently activates, if any.
pub open spec fn active_pack_spec(config: EngineConfig) -> Option<ModelPack> {
    match config.active_pack_id {
        Some(id) => pack_lookup(config.packs@, id@),
        None => None,
    }
}

/// A configuration is well formed when its active pack id, if set,
/// resolves to a registered pack.
pub open spec fn config_wf(config: EngineConfig) -> bool {
    config.active_pack_id matches Some(id) ==> pack_lookup(config.packs@, id@) is Some
}

proof fn lemma_pack_lookup_step(packs: Seq<(String, ModelPack)>, id: Seq<char>, i: int)
    requires
        0 <= i < packs.len(),
        packs[i].0@ != id,
    ensures
        pack_lookup(packs.skip(i), id) == pack_lookup(packs.skip(i + 1), id),
{
    assert(packs.skip(i)[0] == packs[i]);
    assert(packs.skip(i).skip(1) =~= packs.skip(i + 1));
}

/// The pack registered under `id`, or `None` if no pair carries it.
pub fn find_pack<'a>(config: &'a EngineConfig, id: &String) -> (r: Option<&'a ModelPack>)
    ensures
        match r {
            Some(p) => pack_lookup(config.packs@, id@) == Some(*p),
            None => pack_lookup(config.packs@, id@) is None,
        },
{
    let n = config.packs.len();
    let mut i: usize = 0;
    assert(config.packs@.skip(0) =~= config.packs@);
    while i < n
        invariant
            i <= n,
            n == config.packs.len(),
            pack_lookup(config.packs@, id@) == pack_lookup(config.packs@.skip(i as int), id@),
        decreases n - i,
    {
        if config.packs[i].0 == *id {
            assert(config.packs@.skip(i as int)[0] == config.packs@[i as int]);
            return Some(&config.packs[i].1);
        }
        proof {
            lemma_pack_lookup_step(config.packs@, id@, i as int);
        }
        i = i + 1;
    }
    assert(config.packs@.skip(n as int) =~= Seq::<(String, ModelPack)>::empty());
    None
}

/// The pack the configuration currently activates, if any.
pub fn get_active_pack(config: &EngineConfig) -> (r: Option<&ModelPack>)
    ensures
        match r {
            Some(p) => active_pack_spec(*config) == Some(*p),
            None => active_pack_spec(*config) is None,
        },
{
    match &config.active_pack_id {
        Some(id) => find_pack(config, id),
        None => None,
    }
}

impl Default for EngineConfig {
    /// The built-in first-run configuration: two predefined packs, with the
    /// analyst pack active.
    fn default() -> (c: EngineConfig)
        ensures
            c.provider@ == "ollama"@,
            c.base_url@ == "http://127.0.0.1:11434"@,
            c.active_pack_id matches Some(id) && id@ == "analyst_fast"@,
            c.packs@.len() == 2,
            c.packs@[0].0@ == "light_fast"@,
            c.packs@[0].1.label@ == "Fast & Light"@,
            c.packs@[0].1.analysis_model@ == "qwen3:4b"@,
            c.packs@[0].1.report_model@ == "qwen3:4b"@,
            c.packs@[0].1.embedding_model@ == "qwen3-embedding:4b"@,
            c.packs@[1].0@ == "analyst_fast"@,
            c.packs@[1].1.label@ == "Analyst Pack (Recommended)"@,
            c.packs@[1].1.analysis_model@ == "gurubot/glm-4.6v-flash-gguf:q4_k_m"@,
            c.packs@[1].1.report_model@ == "gurubot/glm-4.6v-flash-gguf:q4_k_m"@,
            c.packs@[1].1.embedding_model@ == "qwen3-embedding:4b"@,
            active_pack_spec(c) == Some(c.packs@[1].1),
            config_wf(c),
    {
        let mut packs: Vec<(String, ModelPack)> = Vec::new();
        packs.push((
            "light_fast".to_owned(),
            ModelPack {
                label: "Fast & Light".to_owned(),
                analysis_model: "qwen3:4b".to_owned(),
                report_model: "qwen3:4b".to_owned(),
                embedding_model: "qwen3-embedding:4b".to_owned(),
            },
        ));
        packs.push((
            "analyst_fast".to_owned(),
            ModelPack {
                label: "Analyst Pack (Recommended)".to_owned(),
                analysis_model: "gurubot/glm-4.6v-flash-gguf:q4_k_m".to_owned(),
                report_model: "gurubot/glm-4.6v-flash-gguf:q4_k_m".to_owned(),
                embedding_model: "qwen3-embedding:4b".to_owned(),
            },
        ));
        let c = EngineConfig {
            provider: "ollama".to_owned(),
            base_url: "http://127.0.0.1:11434".to_owned(),
            active_pack_id: Some("analyst_fast".to_owned()),
            packs,
        };
        proof {
            reveal_strlit("light_fast");
            reveal_strlit("analyst_fast");
            assert(c.packs@.len() == 2);
            assert(c.packs@[0].0@ == "light_fast"@);
            assert("light_fast"@.len() == 10);
            assert("analyst_fast"@.len() == 12);
            assert(c.packs@[0].0@ != "analyst_fast"@);
            assert(c.packs@.skip(1) =~= seq![c.packs@[1]]);
            assert(pack_lookup(c.packs@.skip(1), "analyst_fast"@) == Some(c.packs@[1].1));
            assert(pack_lookup(c.packs@, "analyst_fast"@) == Some(c.packs@[1].1));
        }
        c
    }
}

} // verus!
