//! Attribute configuration and resolution for the telemetry of a request
//! pipeline: which well-known attributes a stage emits, which custom
//! attributes it computes, and how both are read from a request, a response
//! or an error.

pub mod attributes;
pub mod config;
pub mod custom;
pub mod defaults;
pub mod events;
pub mod extendable;
pub mod json;
pub mod laws;
pub mod names;
pub mod outside;
pub mod protocol;
pub mod resolved;
pub mod rules;
pub mod shape;
pub mod text;
pub mod typed;
pub mod value;
