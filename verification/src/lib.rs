//! Transformation engine for university degree-audit reports.
//!
//! The library turns the plain-text export of a student's degree audit into a
//! normalized, strongly typed [`audit::AuditToJson`] aggregate: lists of major
//! names, the graduation date, the catalog year, and three-way partitions
//! (completed / in-progress / required) of both courses and NUPath breadth
//! requirements, together with the document's summary statistics.
//!
//! The document format is line oriented; [`tokenizer::tokenize`] turns the
//! text into a tree of tagged [`tree::Node`] values, and
//! [`audit::AuditParser::parse_audit`] walks that tree, routing every node to
//! the extractor for its construct.

pub mod abbreviations;
pub mod audit;
pub mod courses;
pub mod dates;
pub mod errors;
pub mod fixed;
pub mod majors;
pub mod numbers;
pub mod parser_types;
pub mod schedule;
pub mod text;
pub mod tokenizer;
pub mod tracking;
pub mod tree;
pub mod warnings;
