//! Virtual dice for tabletop games: dice with their own random streams, trays
//! that hold them, and the rules by which results accumulate over rolls.

pub mod cli_parser;
pub mod dice;
pub mod dice_allocator;
pub mod dice_builders;
pub mod dice_data;
pub mod dice_profile;
pub mod ordering;
pub mod settings;
pub mod tables;
pub mod tally;
pub mod text;
pub mod tray;
