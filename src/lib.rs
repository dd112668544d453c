//! Safe, owned data model for the values exchanged with the in-app WAF engine, together with the
//! decisions taken around the engine's lifecycle objects (builder, instance, evaluation context).

pub mod context;
pub mod log;
pub mod object;
pub mod shallow;

mod builder;
mod config;

pub use builder::Builder;
pub use config::{Config, Limits, Obfuscator, OBFUSCATOR_DEFAULT_KEY_REGEX, OBFUSCATOR_DEFAULT_VAL_REGEX};
pub use context::{Context, RunError, RunOutput, RunResult};
