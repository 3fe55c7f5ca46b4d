//! Boundary functions meant to be exported with the C calling convention:
//! two wrapping integer sequences and a division that reports failure as a
//! plain status code.
pub mod division;
pub mod sequences;

pub use division::{diviser_entiers, ERROR_INVALID_INPUT, SUCCESS};
pub use sequences::{factorielle_rust, fibonacci_rust};
