//! Verified core of the hourly fortune bot: the text it posts, the command
//! lines it runs, the cow choices it offers, the fortune-channel records it
//! keeps and the decisions of its commands.
pub mod text;
pub mod process;
pub mod ids;
pub mod channels;
pub mod set_channel;
pub mod remove_channel;
pub mod cows;
pub mod schedule;
pub mod commands;
