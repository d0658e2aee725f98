//! Static call-graph extraction over a typed program model.
//!
//! The library walks a program that a compiler front end has already
//! resolved and type-checked, records every callable and every call site,
//! classifies each call edge by how its target was resolved, and attaches
//! to each edge its constraint depth: the number of independent boolean
//! conditions that must all hold for control to reach the call.

pub mod assoc;
pub mod classify;
pub mod depth;
pub mod edge;
pub mod graph;
pub mod ids;
pub mod items;
pub mod laws;
pub mod program;
pub mod report;
pub mod samples;
pub mod store;
pub mod text;
pub mod traverse;
pub mod validate;
pub mod visitor;
