//! Core of a desktop drawer utility: named JSON document collections with
//! get/set/persist semantics, a visibility state machine for the drawer
//! window, and a request/response mapper for an external page API.

pub mod json;
pub mod store;
pub mod drawer;
pub mod sync;
