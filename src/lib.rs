//! Small examples of enumerations, pattern matching and error propagation,
//! each with its behaviour stated as a contract.

pub mod lecture;
pub mod piece;
pub mod piece_etat;
