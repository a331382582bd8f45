//! A verified resource-lifecycle and persistence-mapping layer for a single
//! "user" entity: request validation, the five CRUD operations against a
//! relational store modelled as an ordered table, the entity-to-view
//! projection, and the error taxonomy that unifies all failures into one
//! outward shape.

pub mod controller;
pub mod errors;
pub mod laws;
pub mod model;
pub mod store;
