//! The two transitions of an escrow: its making and its refund.

pub mod make_offer;
pub mod refund;
