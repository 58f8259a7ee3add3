//! Verified building blocks for running ASIMOV program patterns: JSONL line
//! framing, command-line construction, listing limits, resolver output parsing,
//! execution outcomes, and pipeline supervision decisions.

pub mod buffers;
pub mod search;
pub mod line;
pub mod framing;
pub mod splitting;
pub mod wire;
pub mod text;
pub mod definitions;
pub mod options;
pub mod capabilities;
pub mod uri;
pub mod command_ext;
pub mod streams;
pub mod lister;
pub mod invocation;
pub mod utf8;
pub mod resolver;
pub mod completion;
pub mod pipeline;
pub mod remote;
