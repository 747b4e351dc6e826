//! Model-generation stage of a semantic-layer query compiler.
//!
//! A logical plan may contain semantic extension nodes (models, model
//! sources, calculations, partial models).  [`rule::ModelGenerationRule`]
//! expands each of them into primitive relational operators (scans,
//! projections, aggregations, aliases), and the traversal driver applies the
//! rule bottom-up, then top-down, then recomputes every cached schema.

pub mod expr;
pub mod mdl;
pub mod plan;
pub mod builder;
pub mod rule;
pub mod analyze;
