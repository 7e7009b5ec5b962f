//! What holds of the escrow as a whole.

pub mod acceptance;
pub mod answers;
pub mod custody;
pub mod derivation;
pub mod guards;
pub mod history;
pub mod offers;
pub mod places;
pub mod rent;
pub mod steps;
pub mod supply;
pub mod swap;
