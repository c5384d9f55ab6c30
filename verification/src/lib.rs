//! Configuration resolution for a BitTorrent download daemon.
//!
//! Command-line flags, the platform's directories and a persisted settings
//! document are turned into one validated [`SessionSettings`] value.

pub mod address;
pub mod arguments;
pub mod config;
pub mod document;
pub mod flags;
pub mod message;
pub mod number;
pub mod options;
pub mod paths;
pub mod quote;
pub mod resolve;
pub mod schema;
pub mod session;
pub mod text;
pub mod urls;
pub mod value;

pub use address::{IpAddress, Ipv4Address, Ipv6Address};
pub use arguments::{config_dir_argument, parse};
pub use config::{combine, configure, init_config, ConfigError, RunOptions};
pub use document::SchemaError;
pub use flags::Flag;
pub use options::{ParseError, RawOptions};
pub use paths::resolve_config_dir;
pub use resolve::{resolve, ResolveError};
pub use schema::{deserialize, from_text, serialize, to_text};
pub use session::{EncryptionMode, LogLevel, PreallocationMode, Ratio, SessionSettings};
