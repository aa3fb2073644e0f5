//! The two instructions of the escrow.

pub mod exchange;
pub mod make_offer;
