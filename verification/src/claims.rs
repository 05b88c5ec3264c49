//! Assembly snippets that put claims together.

pub mod generate_k2o_claim;
pub mod machine;
