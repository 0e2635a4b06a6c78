//! Leaf data shared by every stage: source spans, type handles and literal payloads.

pub mod data_type;
pub mod position;
pub mod value;
