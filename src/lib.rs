//! Synthesis of partial-response field selectors from a schema description.
//!
//! A schema is a tree of [`Shape`] values. [`synthesize`] turns it into the
//! compact selector string (`a,b/c,xs(d,e)`) that a "fields" query parameter
//! expects; [`DriveSelector`] attaches a schema to a Rust type.
use vstd::prelude::*;

pub mod emit;
pub mod grammar;
pub mod laws;
pub mod selector;
pub mod shape;

pub use emit::{emit, synthesize};
pub use selector::DriveSelector;
pub use shape::{Field, Shape};
