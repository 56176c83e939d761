//! The three instructions, `make`, `take` and `refund`, and the checks and steps they share.
pub mod helpers;
pub mod make;
pub mod refund;
pub mod take;
