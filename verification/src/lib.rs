//! Core logic of the subathon timer: the webhook decisions for Twitch and
//! Ko-fi notifications, the JSON field extraction they rely on, the
//! replay protection for transaction ids, the event tally and the
//! countdown formatting.

pub mod error;
pub mod json;
pub mod saved_ids;
pub mod twitch;
pub mod kofi;
pub mod tally;
pub mod countdown;
pub mod time_server;
pub mod console;
