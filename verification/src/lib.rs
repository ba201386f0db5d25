pub mod card;
pub mod sums;
pub mod token;
