//! Rules of an idle fishing game: rarity tables, the fish and rod catalogues,
//! procedural generation of fish and rods, the cast session state machine,
//! the daily shop rotation and the player's progress record.
//!
//! Quantities that are fractional in play are held as scaled integers: the
//! weight of a fish in tenths of a pound, ratios in thousandths, times in
//! milliseconds, prices in hundredths of a currency unit.

pub mod catch_handler;
pub mod clock;
pub mod data;
pub mod random;
pub mod text;
