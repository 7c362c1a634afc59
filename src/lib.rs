//! A task-execution runtime: plans produced by a text model are cleaned,
//! validated, decoded and then executed step by step against a registry of
//! capabilities.

pub mod acquisition;
pub mod agent;
pub mod analysis;
pub mod context;
pub mod document;
pub mod engine;
pub mod json;
pub mod memory;
pub mod model;
pub mod pattern;
pub mod plan;
pub mod text;
pub mod tools;
pub mod validation;
