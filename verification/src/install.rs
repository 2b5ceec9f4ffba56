use vstd::prelude::*;
use vstd::string::StringExecFns;
use crate::config::{EngineConfig, config_wf, find_pack, pack_lookup};
use crate::errors::EngineError;

verus! {

/// A pack installation in flight: the models still to pull, in the order
/// analysis, report, embedding, and how many have been pulled so far.
#[derive(Debug, Clone)]
pub struct InstallJob {
    pub pack_id: String,
    pub models: Vec<String>,
    pub next: usize,
}

/// A job never counts more pulls than it has models.
pub open spec fn job_wf(job: InstallJob) -> bool {
    job.next <= job.models@.len()
}

/// Every pull of the job has succeeded; only then may the pack activate.
pub open spec fn install_done(job: InstallJob) -> bool {
    job.next == job.models@.len()
}

/// Start installing a pack. Fails up front when the server is unavailable —
/// no partial work is attempted — and when the pack id is not registered.
pub fn begin_install(config: &EngineConfig, pack_id: &String, available: bool) -> (r: Result<
    InstallJob,
    EngineError,
>)
    ensures
        !available ==> (r matches Err(e) && e is ServerUnavailable),
        available ==> match pack_lookup(config.packs@, pack_id@) {
            Some(pack) => r matches Ok(job) && job_wf(job) && job.pack_id@ == pack_id@ && job.next
                == 0 && job.models.deep_view() == seq![
                pack.analysis_model@,
                pack.report_model@,
                pack.embedding_model@,
            ],
            None => r matches Err(e) && e matches EngineError::ConfigError(m) && m@ == "Pack '"@
                + pack_id@ + "' not found"@,
        },
{
    if !available {
        return Err(EngineError::ServerUnavailable);
    }
    match find_pack(config, pack_id) {
        Some(pack) => {
            let mut models: Vec<String> = Vec::new();
            models.push(pack.analysis_model.clone());
            models.push(pack.report_model.clone());
            models.push(pack.embedding_model.clone());
            proof {
                assert(models.deep_view() =~= seq![
                    pack.analysis_model@,
                    pack.report_model@,
                    pack.embedding_model@,
                ]);
            }
            Ok(InstallJob { pack_id: pack_id.clone(), models, next: 0 })
        },
        None => {
            let msg = "Pack '".to_owned().concat(pack_id.as_str()).concat("' not found");
            proof {
                assert(msg@ =~= "Pack '"@ + pack_id@ + "' not found"@);
            }
            Err(EngineError::ConfigError(msg))
        },
    }
}

/// The model the caller must pull next, or `None` once every pull is done.
pub fn next_pull(job: &InstallJob) -> (r: Option<String>)
    ensures
        job.next < job.models@.len() ==> (r matches Some(m) && m@ == job.models@[
            job.next as int
        ]@),
        job.next >= job.models@.len() ==> r is None,
{
    if job.next < job.models.len() {
        Some(job.models[job.next].clone())
    } else {
        None
    }
}

/// Whether every pull of the job has succeeded.
pub fn is_done(job: &InstallJob) -> (r: bool)
    ensures
        r == install_done(*job),
{
    job.next == job.models.len()
}

/// Record the outcome of the pull in flight. The first failing pull aborts
/// the whole installation, naming the failing model; models already pulled
/// stay on the server on purpose, as they are reusable across packs.
pub fn record_pull(job: &mut InstallJob, success: bool) -> (r: Result<(), EngineError>)
    requires
        old(job).next < old(job).models@.len(),
    ensures
        success ==> r is Ok && final(job).pack_id == old(job).pack_id && final(job).models == old(
            job,
        ).models && final(job).next == old(job).next + 1,
        !success ==> (r matches Err(e) && e matches EngineError::PartialInstallFailure(m) && m@
            == old(job).models@[old(job).next as int]@ && *final(job) == *old(job)),
{
    if success {
        let n = job.models.len();
        assert(job.next < n);
        job.next = job.next + 1;
        Ok(())
    } else {
        Err(EngineError::PartialInstallFailure(job.models[job.next].clone()))
    }
}

/// Activate the installed pack. Only a finished job may activate, so a
/// failed or partial installation can never touch the active pack id.
pub fn complete_install(config: &mut EngineConfig, job: &InstallJob)
    requires
        install_done(*job),
    ensures
        final(config).active_pack_id matches Some(id) && id@ == job.pack_id@,
        final(config).packs == old(config).packs,
        final(config).provider == old(config).provider,
        final(config).base_url == old(config).base_url,
        pack_lookup(old(config).packs@, job.pack_id@) is Some ==> config_wf(*final(config)),
{
    config.active_pack_id = Some(job.pack_id.clone());
}

} // verus!
