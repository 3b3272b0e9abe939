//! Combat damage model for a browser game companion: equipment loadouts,
//! a monster reference table, and the damage resolution pipeline built on them.

pub mod damage;
pub mod equipment;
pub mod format;
pub mod monster;
pub mod storage;
