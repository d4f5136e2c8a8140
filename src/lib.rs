//! Rewrites uap-core style user agent rule sets into the shape that
//! ClickHouse regexp dictionaries read: every replacement field filled in,
//! and an inline regex flag folded into the pattern itself.
pub mod args;
pub mod parser_source_document;
pub mod parser_target_documents;
pub mod settings;
pub mod source_reader;
pub mod target_writer;
