//! Orchestration core of a test harness that drives cluster integration tests:
//! the test registry, the test filter, result accounting, the console transcript
//! and the run loop as a state machine that the caller drives.

mod filter;
mod registry;
mod runner;
mod session;
mod summary;

pub use filter::{
    is_infix, keeps, keeps_ignored, keeps_name, kept, lemma_kept_concat, lemma_kept_idempotent,
    lemma_kept_selected,
};
pub use registry::{
    Category, ForgeConfig, Format, GenesisConfig, InitialVersion, Options, TestInfo, Version,
};
pub use runner::{
    is_newest_at, is_oldest_at, lemma_listing_repeatable, lemma_planned_matches_kept, listing,
    planned, Forge, PlannedTest,
};
pub use session::{Action, Event, Phase, RunSession};
pub use summary::{
    failure_lines, footer_lines, result_text, verdict_lines, Line, SummaryView, TestReport,
    TestResult, TestSummary,
};
