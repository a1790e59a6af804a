//! Answer-first compiler core: typed answer metadata, corpus indexing,
//! machine outputs, audits, evaluation scoring and structured diagnostics.

pub mod text;
pub mod diagnostics;
pub mod answer;
pub mod cli;
pub mod order;
pub mod json;
pub mod library;
pub mod answers;
pub mod corpus;
pub mod structured;
pub mod audit;
pub mod index;
pub mod config;
pub mod llms;
pub mod eval;
pub mod front_matter;
pub mod report;
pub mod messages;
pub mod observability;
pub mod audit_output;
pub mod starter;
pub mod site_graph;
pub mod page_front_matter;
pub mod responses;
pub mod preflight;
pub mod laws;
pub mod content_file;
