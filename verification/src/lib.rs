//! Build-time helper that resolves a descriptive version string for a git
//! working directory (the equivalent of `git describe --tags --dirty=+`) and
//! renders the build-system directive that exports the string as an
//! environment variable, to be read back by the compiled code.

mod config;
mod export;
mod resolve;

pub use config::upper_char;
pub use config::upper_seq;
pub use config::to_uppercase_ascii;
pub use config::var_name_spec;
pub use config::GitVersionCfg;
pub use export::directive_line;
pub use export::directive_spec;
pub use export::directive_value;
pub use export::export_directive;
pub use export::get_version;
pub use export::lemma_export_deterministic;
pub use export::lemma_export_round_trip;
pub use resolve::classify_describe_error;
pub use resolve::classify_open_error;
pub use resolve::resolve;
pub use resolve::ResolutionError;
