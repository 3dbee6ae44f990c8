//! A verified CSS selector subsystem: a data model for CSS Selectors Level 4,
//! a CSSOM-conforming serializer, a compatibility-driven downleveler, and
//! structural queries (equivalence, vendor-prefix extraction, dead-code checks).
//!
//! Selector trees are parsed by an outer driver; this crate owns the data
//! model, the name dispatch tables for pseudo-classes and pseudo-elements,
//! serialization, and all rewriting logic. Identifier and string escaping is
//! delegated to the `cssparser` crate.

pub mod vendor_prefix;
pub mod targets;
pub mod selector;
pub mod printer;
pub mod serialize;
pub mod compat;
pub mod equivalence;
pub mod queries;
pub mod downlevel;
pub mod parse;
