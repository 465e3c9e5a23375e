//! A rule engine over the declarations of one smart-contract source file: documentation,
//! state mutability and storage-layout checks, run in a fixed order into one reporter.
pub mod ast;
pub mod memory;
pub mod missing_comments;
pub mod mutable_functions;
pub mod mutable_variables;
pub mod mutation_grapher;
pub mod registry;
pub mod result;
pub mod scanner;
pub mod struct_repacker;
pub mod unused_imports;
