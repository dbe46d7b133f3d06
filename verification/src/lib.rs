//! Startup configuration resolver for a paste-bin style network service.
//!
//! Settings are gathered from three layered sources — command-line flags,
//! environment variables, and compiled-in defaults — coerced to their
//! semantic types, normalized, and exposed as one immutable snapshot.

pub mod args;
pub mod ip;
pub mod num;
pub mod path;

pub use args::Args;
pub use args::CliInput;
pub use args::ConfigError;
pub use args::EnvInput;
pub use args::NumField;
pub use ip::BindAddr;
pub use path::PublicUrl;
