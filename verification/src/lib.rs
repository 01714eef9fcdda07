//! Client-side configuration for talking to a Consul agent over HTTP.
//!
//! The crate assembles the base URL of an agent from its parts, parses a
//! `scheme://host[:port]` address back into those parts, and keeps the
//! options that later requests carry along.

pub mod address;
pub mod client;
pub mod config;
pub mod errors;
pub mod http;
pub mod options;
pub mod text;
pub mod time;

pub use client::ConsulClient;
pub use config::{Config, ConfigBuilder};
pub use errors::ConfigError;
pub use options::{QueryMeta, QueryOptions, WriteMeta, WriteOptions};
