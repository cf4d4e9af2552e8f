pub mod alien_generation;
pub mod civilian_events;
pub mod cosmic_constants;
pub mod endgame_events;
pub mod factions;
pub mod global_events;
pub mod nemesis;
pub mod omni_powers;
pub mod storylets;
pub mod validation;
