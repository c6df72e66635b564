/// Actions: which apply in a context, how they rank, and what invoking one asks for.
pub mod actions_engine;
/// Records of executed statements.
pub mod audit_trail;
/// Seed data and argument helpers for load testing.
pub mod benchmark;
/// Saved bookmarks, one per name, kept sorted.
pub mod bookmarks;
/// The single active session and its health checks, step by step.
pub mod connection_manager;
/// CSV rendering and the bytes written for an export.
pub mod export;
/// Key presses to interface messages.
pub mod keymap;
/// Connection profiles, their TLS and password settings, and the profile store.
pub mod profiles;
/// Streaming a query's rows into the result buffer under cooperative cancellation.
pub mod query_runner;
/// The interface state and the handling of every message and worker outcome.
pub mod reducer;
/// The bounded ring buffer that holds result rows.
pub mod results_buffer;
/// Statement splitting, risk classification and confirmation tokens.
pub mod safe_mode;
/// The schema catalog, its time-to-live cache, and foreign-key relationships.
pub mod schema_cache;
/// Statements built from a target table, with identifiers and literals quoted.
pub mod sql_generator;
/// Character-level string helpers and their specifications.
pub mod text;
/// Text forms of date and time column values.
pub mod values;
/// Panes, pagination, results search and the retry/reconnect decisions.
pub mod workbench;

use vstd::prelude::*;

verus! {

/// Name of the core domain layer.
pub fn domain_name() -> (r: &'static str)
    ensures
        r@ == "myr-core"@,
{
    "myr-core"
}

/// Name of the backend adapter layer.
pub fn adapter_name() -> (r: &'static str)
    ensures
        r@ == "myr-adapters"@,
{
    "myr-adapters"
}

/// Name of the terminal interface layer.
pub fn ui_name() -> (r: &'static str)
    ensures
        r@ == "myr-tui"@,
{
    "myr-tui"
}

} // verus!
