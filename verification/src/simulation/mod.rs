pub mod agents;
pub mod alien;
pub mod case;
pub mod cast;
pub mod city;
pub mod civilian;
pub mod combat;
pub mod cosmic;
pub mod economy;
pub mod endgame;
pub mod evidence;
pub mod growth;
pub mod identity_evidence;
pub mod nemesis;
pub mod origin;
pub mod power_assignment;
pub mod region;
pub mod storylet_state;
pub mod storylet_rules;
pub mod storylets;
pub mod time;
