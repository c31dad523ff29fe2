//! Scheduling and per-member unlocking for a daily crossword announcement bot.
//!
//! `release` holds the release clock: which daily puzzle is current at a given
//! instant, and when it is replaced. `text` writes numbers in decimal. `guild`
//! models the channels, roles and permission overwrites of a guild.
//! `announce` steps through the announcement of a puzzle in one guild, and
//! `unlock` through the handling of a reaction on an announcement. `wait`
//! decides how long to sleep before an instant.

pub mod release;
pub mod text;
pub mod guild;
pub mod announce;
pub mod unlock;
pub mod wait;
