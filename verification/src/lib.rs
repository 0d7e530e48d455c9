//! Game rules for a chat bot's minigames: challenge sessions, cooldowns,
//! creature generation and the records that keep score.

pub mod challenge;
pub mod clock;
pub mod cooldown;
pub mod dinos;
pub mod duel;
pub mod generation;
pub mod imaging;
pub mod layout;
pub mod parts;
pub mod random;
pub mod recorder;
pub mod rps;
pub mod stats;
pub mod text;
pub mod weapon;
