//! Verified core of a command-line dictionary lookup tool.
//!
//! Given a word, the tool returns definitions and optional lexical relations
//! (antonyms, synonyms, hypernyms, hyponyms, holonyms), sourced either from a
//! local on-disk cache or from a remote lexical-data API. This library holds
//! the logic of that pipeline: cache key derivation, the cache-then-network
//! resolution policy, parsing of the API's JSON into a lexical data model,
//! and selective relation rendering. The surrounding binary supplies the
//! actual file, network and terminal I/O.

pub mod cache;
pub mod display;
pub mod json;
pub mod model;
pub mod options;
pub mod pairs;
pub mod parser;
pub mod pipeline;
pub mod resolver;
pub mod strutil;
