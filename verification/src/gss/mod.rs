//! Graph Style Sheets: nested objects of named values, with references
//! between them.

pub mod dump;
pub mod grammar;
pub mod laws;
pub mod lookup;
pub mod model;
pub mod parser;
pub mod token;
