//! Verified core of a Science Olympiad Discord bot: user and server records,
//! event names, rank queries over tournament results, progress checks,
//! reminders and the message texts the commands send.

pub mod text;
pub mod users;
pub mod servers;
pub mod events;
pub mod progress_check;
pub mod rank_query;
pub mod reminder;
pub mod clock;
pub mod roster;
pub mod sessions;
pub mod sharing;
pub mod ai;

use vstd::prelude::*;

verus! {

/// The data the bot framework hands to every command; the bot keeps none.
pub struct Data {}

} // verus!
