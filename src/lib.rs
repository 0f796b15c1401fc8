//! Bootstrap logic for the newt library chain: which vendored targets exist,
//! where each one is extracted, built and installed, which flags flow from
//! the leaf libraries into the top-level one, and the orchestrator that
//! decides, event by event, what outside work comes next.
//!
//! Running processes, touching the file system and querying pkg-config is
//! left to the caller; the library hands out plain descriptions of that work
//! and takes plain results back.

mod flags;
mod layout;
mod orchestrator;
mod target;
mod tool;
mod version;

pub use version::{parse_version, version_at_least};
pub use layout::{lemma_declared_paths_disjoint, BuildEnvironment};
pub use target::{BuildTarget, Compression, Recipe, TARGET_COUNT};
pub use flags::{lemma_export_nothing, lemma_export_then_clear, FlagEnv, ProbedLibrary};
pub use tool::{candidate, is_required_dialect, ToolHandle, TOOL_CANDIDATES};
pub use orchestrator::{Action, BuildStep, Failure, Invocation, Orchestrator, Phase, ProbeRequest, TOP_TARGET};
