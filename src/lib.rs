//! Deferred resolution of foreign entry addresses, with pluggable caching
//! strategies that decide how often the resolver runs.

mod address;
mod cache;
mod config;
mod interleaving;
mod laws;

pub use address::Address;
pub use cache::{
    fresh_state, resolve_step, Cache, CacheState, NoCache, StaticAtomicCache, StaticCache,
};
pub use laws::{
    is_run, lemma_memo_resolves_once, lemma_passthrough_runs_every_call,
    lemma_stored_address_is_final,
};
pub use interleaving::{
    initial, lemma_claim_flag_resolves_once, lemma_lone_caller_is_resolve_step, run, step, Phase,
    SharedState,
};
pub use config::{
    apply_argument, apply_arguments, opt_view, Argument, ArgumentError, CacheMode, MacroArgs,
    Settings,
};
