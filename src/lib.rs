//! Typed access to the package and build-target graph that the package
//! tool's `metadata` subcommand reports as JSON.
//!
//! The library renders the tool's argument vector, classifies the tool's
//! output (exit status, text encoding, JSON shape), and decodes the JSON
//! document into a typed [`Metadata`] graph whose invariants are checked.
//! Spawning the process is left to the caller.
//!
//! The modules `json`, `decode` and `laws` hold the mathematical model that
//! the contracts speak of: JSON documents, what each of them decodes to, and
//! the laws that decoding obeys.

pub mod json;
pub mod decode;
pub mod laws;
mod model;
mod error;
mod pipeline;
mod command;

pub use model::{
    Dependency, DependencyKind, DependencyView, Metadata, MetadataView, Node, NodeView, Package,
    PackageView, Resolve, Target, TargetView, feature_texts, opt_text, texts,
};
pub use error::Error;
pub use pipeline::{decode_text, lossy_text, parse_metadata, parse_output, trimmed};
pub use command::{
    CargoOpt, MetadataCommand, command_args, default_program, feature_args, feature_list_args, metadata,
    metadata_deps,
};
