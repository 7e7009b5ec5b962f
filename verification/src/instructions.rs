//! The four instructions.

pub mod make;
pub mod refund;
pub mod take;
pub mod update;
