//! The system report: where the program runs, how much memory it reports and
//! which models it names.
//!
//! The platform and the architecture are handed in by the caller. The memory
//! figures and the models are fixed: nothing is measured.

use vstd::prelude::*;
use vstd::string::StringExecFns;

verus! {

/// The memory reported as installed, in bytes.
pub const MEMORY_TOTAL: u64 = 8589934592;

/// The memory reported as free, in bytes.
pub const MEMORY_AVAILABLE: u64 = 4294967296;

/// The share of the memory reported as in use, in percent.
pub const MEMORY_PERCENT_USED: u32 = 50;

/// Memory figures of a system report.
#[derive(Debug, Clone, Copy, PartialEq, Eq, Structural)]
pub struct MemoryUsage {
    /// Installed memory, in bytes.
    pub total: u64,
    /// Free memory, in bytes.
    pub available: u64,
    /// Share in use, in percent.
    pub percent_used: u32,
}

/// A system report.
#[derive(Debug, PartialEq, Eq)]
pub struct SystemInfo {
    /// The operating system.
    pub platform: String,
    /// The processor architecture.
    pub architecture: String,
    /// The memory figures.
    pub memory_available: MemoryUsage,
    /// The names of the models on offer.
    pub llm_models: Vec<String>,
}

/// A [`SystemInfo`] with its strings as sequences of characters.
pub ghost struct SystemInfoView {
    pub platform: Seq<char>,
    pub architecture: Seq<char>,
    pub memory_available: MemoryUsage,
    pub llm_models: Seq<Seq<char>>,
}

impl View for SystemInfo {
    type V = SystemInfoView;

    open spec fn view(&self) -> SystemInfoView {
        SystemInfoView {
            platform: self.platform@,
            architecture: self.architecture@,
            memory_available: self.memory_available,
            llm_models: self.llm_models.deep_view(),
        }
    }
}

/// The memory figures of every report.
pub open spec fn reported_memory() -> MemoryUsage {
    MemoryUsage {
        total: MEMORY_TOTAL,
        available: MEMORY_AVAILABLE,
        percent_used: MEMORY_PERCENT_USED,
    }
}

/// The models of every report, in the order in which they are listed.
pub open spec fn model_names() -> Seq<Seq<char>> {
    seq!["phi-3.5-mini"@, "emotion-analyzer"@, "speech-recognition"@]
}

/// The report for a platform and an architecture.
pub open spec fn system_info_of(platform: Seq<char>, architecture: Seq<char>) -> SystemInfoView {
    SystemInfoView {
        platform,
        architecture,
        memory_available: reported_memory(),
        llm_models: model_names(),
    }
}

/// Whatever the platform and the architecture, the report names the same
/// three models and gives the same memory figures.
pub proof fn lemma_report_fixed(platform: Seq<char>, architecture: Seq<char>)
    ensures
        system_info_of(platform, architecture).llm_models == model_names(),
        model_names().len() == 3,
        system_info_of(platform, architecture).memory_available.total == 8589934592,
        system_info_of(platform, architecture).memory_available.available == 4294967296,
        system_info_of(platform, architecture).memory_available.percent_used == 50,
{
}

/// The list of models on offer.
pub fn available_models() -> (models: Vec<String>)
    ensures
        models.deep_view() == model_names(),
{
    let mut models: Vec<String> = Vec::new();
    models.push(String::from_str("phi-3.5-mini"));
    models.push(String::from_str("emotion-analyzer"));
    models.push(String::from_str("speech-recognition"));
    assert(models.deep_view() =~= model_names());
    models
}

/// Reports on the system that the caller names by `platform` and
/// `architecture`. Never fails.
pub fn get_system_info(platform: &str, architecture: &str) -> (r: Result<SystemInfo, String>)
    ensures
        r is Ok,
        r->Ok_0@ == system_info_of(platform@, architecture@),
        r->Ok_0.llm_models.deep_view() == model_names(),
        r->Ok_0.llm_models@.len() == 3,
        r->Ok_0.memory_available.total == 8589934592,
        r->Ok_0.memory_available.available == 4294967296,
        r->Ok_0.memory_available.percent_used == 50,
{
    let llm_models = available_models();
    assert(llm_models.deep_view().len() == 3);
    Ok(
        SystemInfo {
            platform: String::from_str(platform),
            architecture: String::from_str(architecture),
            memory_available: MemoryUsage {
                total: MEMORY_TOTAL,
                available: MEMORY_AVAILABLE,
                percent_used: MEMORY_PERCENT_USED,
            },
            llm_models,
        },
    )
}

} // verus!
