//! Conservation-law verification for ternary agent systems: the integer core.
//!
//! The agent roles, the five baseline laws, the split of interactions among
//! roles, the scale sweep and the pass/fail tally of a verification run.

mod interactions;
mod laws;
mod roles;
mod summary;
mod sweep;

pub use interactions::{balance_checked_runs, interaction_total, lemma_role_sum, role_shares, role_sum, split_interactions};
pub use laws::{all_laws, law_name, lemma_all_laws_complete, lemma_law_names_distinct, BaselineLaw};
pub use roles::{all_roles, lemma_all_roles_complete, lemma_role_names_distinct, role_name, AgentRole};
pub use summary::{count_failed, count_passed, lemma_count_push, lemma_counts_are_filters, lemma_outcome_counts, lemma_summary_counts, VerificationSummary};
pub use sweep::{conservation_flags, conservation_outcomes, default_scales, lemma_conservation_flags, population_sizes, sweep_scales, ScaleResult, DEFAULT_STEPS};
