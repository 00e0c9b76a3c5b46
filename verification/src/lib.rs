//! Decoder for compiled C++ module-interface containers and the
//! export-closure engine that turns them into target-language bindings.

use vstd::prelude::*;

pub mod access;
pub mod bytes;
pub mod config;
pub mod emit;
pub mod error;
pub mod ifc;
pub mod index;
pub mod macro_gen;
pub mod names;
pub mod numbers;
pub mod options;
pub mod parts;
pub mod pattern;
pub mod query;
pub mod records;
pub mod rows;
pub mod sorts;
pub mod strings;
pub mod symbol_map;
pub mod ty_string;
pub mod ty_tokens;
pub mod type_discovery;

verus! {

pub use crate::index::{DeclIndex, TypeIndex, NameIndex, ExprIndex, LitIndex, FormIndex,
    ChartIndex, FormOp};
pub use crate::error::Error;

} // verus!
