//! The expression front end's bookkeeping: interning identifiers and
//! stepping over source text.

pub mod symbol_table;
pub mod token;
