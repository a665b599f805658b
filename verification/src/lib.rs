//! Small verified examples.
//!
//! `fly` and `baby_name` show one type that answers to the same name through
//! traits and through a function of its own, and which of them a call
//! reaches. `demo` empties a stack and opens an option. `lookup` reads one
//! setting out of the entries of a map.
//!
//! Nothing here prints: every function hands back what there is to print.

pub mod baby_name;
pub mod demo;
pub mod fly;
pub mod lookup;
