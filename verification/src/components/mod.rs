pub mod combat;
pub mod identity;
pub mod persona;
pub mod world;
