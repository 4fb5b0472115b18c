//! Output side of a lexer and parser generator: the naming conventions of
//! each target language, the generated TypeScript and Java sources, the
//! lexer automaton and its binary form, the rows of the LR action table
//! with their conflicts, and the model of the fixtures that test the
//! generated parsers on each runtime.

pub mod binary;
pub mod fixtures;
pub mod grammar;
pub mod java;
pub mod lexer;
pub mod naming;
pub mod parser;
pub mod reader;
pub mod text;
pub mod typescript;
