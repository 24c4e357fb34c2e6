//! Lexical front-end for authentication-module argument strings.

pub mod args;
pub mod config;
pub mod conversion;
pub mod error;
pub mod logging;
pub mod number;
pub mod storage;
pub mod testing;
pub mod text;
pub mod tokenizer;
pub mod utils;

pub use error::{Error, Result};
pub use args::{AllowedKeyValueFormats, Flag, KeyValue};
pub use config::{ParserConfig, ParserConfigBuilder};
pub use storage::{DefaultKeyValueStore, FromArgValue, KeyValueStore, KeyValueStoreExt, NonArgTextStore};
pub use logging::init;
pub use logging::{LogComponent, LogConfig, LogDestination, LogOperation, LogOptions};
