//! A query layer that turns natural-language requests into database queries.
pub mod model;
pub mod text;
pub mod discovery;
pub mod pattern;
pub mod time;
pub mod clauses;
pub mod scoping;
pub mod temporal;
pub mod client;
pub mod json;
pub mod privacy;
pub mod context;
pub mod translator;
pub mod crawlers;
pub mod execution;
pub mod healer;
pub mod export;
