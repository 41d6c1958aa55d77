//! A finance tracker's schema derivation, verified.
//!
//! A persisted entity is described once: its fields in order, each with a
//! type and a set of capability flags. From that description five shapes are
//! derived, in which the entity is created and updated in the store, asked
//! for by the user, and shown to the user.
//!
//! The derivation runs in four stages:
//! - [`entity`] checks a raw definition and accepts it whole or rejects it
//!   with its first fault;
//! - [`flags`] decides, from a field's flags alone, which shapes hold it;
//! - [`transform`] and [`type_expr`] give the name and type under which the
//!   user sees a field, and make types optional;
//! - [`shapes`] collects the five lists of fields, in declaration order.
//!
//! [`laws`] states what holds of every derivation, and [`diagnostics`] what is
//! reported of a definition.
//!
//! Beside the derivation stand the decisions of the server that need no
//! store to take: [`authentication`], [`handlers`], [`http`] and [`model`].

pub mod authentication;
pub mod diagnostics;
pub mod entity;
pub mod flags;
pub mod handlers;
pub mod http;
pub mod laws;
pub mod model;
pub mod shapes;
mod text;
pub mod transform;
pub mod type_expr;
