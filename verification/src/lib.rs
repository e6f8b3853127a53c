//! Generates a C header from the exported, C-ABI-compatible surface of a
//! resolved module tree.
//!
//! The front end hands over a [`tree::Crate`] and the set of the identifiers
//! of the items that are reachable from outside it. [`walk::walk`] decides
//! which items are declared, [`abi::map_type`] gives each type its C type,
//! [`names::resolve`] gives each function its symbol name, and [`emit::emit`]
//! writes the header. [`generate::generate_header`] does all of it for one
//! crate.

pub mod abi;
pub mod decl;
pub mod diag;
pub mod emit;
pub mod generate;
pub mod names;
pub mod tree;
pub mod visitor;
pub mod walk;
