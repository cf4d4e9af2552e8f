pub mod attributes;
pub mod cost;
pub mod expression;
pub mod mastery;
pub mod signature;
pub mod target;
pub mod use_power;
