//! Explains a Bitcoin transaction field by field: identifiers, sizes,
//! locktime, inputs, and outputs with the kind of each locking script.

pub mod consensus;
pub mod decimal;
pub mod laws;
pub mod model;
pub mod resolve;
pub mod script;
pub mod transaction;
