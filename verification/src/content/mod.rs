pub mod meta;
pub mod names;
pub mod repository;
