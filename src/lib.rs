//! Justified `unsafe` blocks with debug-only contracts.
//!
//! A marked block carries a `reason` and optional `requires` / `ensures`
//! conditions (or a single `precondition` guarding an arbitrary expression).
//! The library checks the options, checks that each condition is a Rust
//! expression, and builds the replacement code: the conditions become
//! `debug_assert!` statements around the block, whose result is kept.

mod config;
mod expand;
mod laws;
mod syntax;
mod text;

pub use config::{
    config_of, config_problem, entry_problem, first_faulty_entry, first_problem, key_of,
    known_key, opt_text, parse_config, seen_before, value_in, value_of, AnnotationConfig, Clause,
    ConfigError, ConfigModel, ErrorModel, RawOption, Style,
};
pub use expand::{
    body_of, check_code, check_for, code, compile_assertion, expand, expand_config,
    expansion_from, expansion_of, expansion_result, format_text, marked_body, opt_check,
    opt_check_code, pre_clause, safe, visible_text, Check, CheckModel, Expansion, ExpansionModel,
    ENSURED_FORMAT, REQUIRED_FORMAT,
};
pub use laws::{
    body_runs, failure_message, false_postcondition_is_caught, false_precondition_stops_body,
    flow, holding_conditions_change_nothing, passes, reason_alone_is_transparent,
    reason_only_documents, release_build_is_unchecked, result_name_is_fresh, run, run_unmarked,
    same_but_reason, BodyRun, Execution, Outcome,
};
pub use syntax::{parses_as_expr, string_literal_tokens, unsafe_block_tokens};
pub use text::{contains, fresh_from, fresh_name, lemma_fresh_from, text_contains, RESULT_NAME};
