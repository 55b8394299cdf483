//! A capability-scoped command invocation validator.
//!
//! Given an immutable allowlist of permitted external commands with
//! per-command argument templates, and a runtime-supplied command name plus
//! argument values, this library decides whether the requested invocation is
//! authorized and, on success, produces a fully resolved invocation
//! descriptor (program identifier plus ordered argument list). It also gates
//! an "open a path or URL in an external handler" capability behind an
//! optional configured pattern.
//!
//! The library only decides; it never spawns a process or opens a handler
//! itself. The embedding program performs the side effects with the
//! descriptors this library hands back.

mod args;
mod laws;
mod pattern;
mod scope;

pub use args::ArgsView;
pub use args::ExecuteArgs;
pub use args::args_empty;
pub use laws::entry_resolved;
pub use laws::lemma_absent_command_not_found;
pub use laws::lemma_all_fixed_empty_args;
pub use laws::lemma_empty_template_ignores_list;
pub use laws::lemma_empty_template_rejects_single;
pub use laws::lemma_open_gated;
pub use laws::lemma_open_unrestricted;
pub use laws::lemma_prepare_deterministic;
pub use laws::lemma_prepare_template_shape;
pub use laws::lemma_reconcile_success_shape;
pub use laws::lemma_sidecar_flag_mismatch;
pub use laws::lemma_unconstrained_verbatim;
pub use pattern::Pattern;
pub use pattern::regex_match;
pub use scope::AllowedCommandView;
pub use scope::ArgTemplateView;
pub use scope::Command;
pub use scope::CommandView;
pub use scope::Error;
pub use scope::ErrorView;
pub use scope::Scope;
pub use scope::ScopeAllowedArg;
pub use scope::ScopeAllowedCommand;
pub use scope::ScopeConfig;
pub use scope::ScopeView;
pub use scope::all_fixed;
pub use scope::args_result_view;
pub use scope::basename;
pub use scope::fixed_values;
pub use scope::lookup_command;
pub use scope::open_gate_spec;
pub use scope::open_result_view;
pub use scope::prepare_result_view;
pub use scope::prepare_spec;
pub use scope::reconcile_from;
pub use scope::resolve_args;
pub use scope::sidecar_view;
pub use scope::strings_view;
pub use scope::template_view;
