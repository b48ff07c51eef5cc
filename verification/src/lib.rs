//! Batch application of clang-tidy fixes to a C++ code base.
//!
//! The library holds the parts that decide: the stored configuration and its
//! list of fixes, the merge of that list with a catalog of available fixes,
//! the text of the lint configuration that selects one check, and the state
//! machine that walks through the enabled fixes of a run. Reading and writing
//! files, starting the linter and drawing a window are left to the caller.

pub mod config;
pub mod filter;
pub mod lint_config;
pub mod orchestrator;
pub mod progress;
pub mod reconcile;
pub mod run_config;
pub mod run_proofs;
pub mod run_state;
pub mod strings;
