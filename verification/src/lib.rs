//! Tiered cart discounts: a verified decision engine that maps a cart
//! snapshot, the active discount classes and a merchant-supplied tier
//! configuration to the list of discount operations to emit.

pub mod config;
pub mod decimal;
pub mod delivery_discounts;
pub mod laws;
pub mod line_discounts;
pub mod operations;
