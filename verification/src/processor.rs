//! The seat-manager operations, one module per request kind.

pub mod change_market_fee_recipient;
pub mod change_market_status;
pub mod change_seat_manager_authority;
pub mod claim_market_authority;
pub mod claim_seat;
pub mod confirm_renounce_seat_manager_authority;
pub mod designated_market_maker;
pub mod evict_seat;
pub mod name_market_authority_successor;
