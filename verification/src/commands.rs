//! The bot's commands: the data they share, the routing of slash commands,
//! and the replies of the simple ones.
use vstd::prelude::*;
use crate::text::{code_block, code_block_spec};

verus! {

/// The data that the commands share; they share none.
pub struct Data {}

/// The key under which the client's data holds its shard manager.
pub struct ShardManagerContainer;

/// The slash commands the interaction handler knows.
#[derive(Clone, Copy, Debug, PartialEq, Eq, Structural)]
pub enum SlashCommand {
    Cowsay,
    Ping,
    Unknown,
}

/// The slash command an interaction's command name selects.
pub open spec fn route_spec(name: Seq<char>) -> SlashCommand {
    if name == "cowsay"@ {
        SlashCommand::Cowsay
    } else if name == "ping"@ {
        SlashCommand::Ping
    } else {
        SlashCommand::Unknown
    }
}

/// The reply to a slash command the handler does not know.
pub open spec fn not_implemented_spec() -> Seq<char> {
    "not implemented :("@
}

/// The reply of the `fortune` prefix command when running `cowsay` failed.
pub open spec fn cowsay_failed_spec() -> Seq<char> {
    "Something went wrong executing cowsay!"@
}

/// The reply of the `explode` prefix command.
pub open spec fn explode_spec() -> Seq<char> {
    "https://tenor.com/view/explode-boom-explosion-gif-17473499"@
}

/// Selects the slash command by its name: `cowsay`, `ping`, or none known.
pub fn route_interaction(name: &str) -> (res: SlashCommand)
    ensures
        res == route_spec(name@),
{
    let n = name.to_owned();
    if n == "cowsay".to_owned() {
        SlashCommand::Cowsay
    } else if n == "ping".to_owned() {
        SlashCommand::Ping
    } else {
        SlashCommand::Unknown
    }
}

/// The reply to a slash command the handler does not know.
pub fn not_implemented_reply() -> (res: String)
    ensures
        res@ == not_implemented_spec(),
{
    "not implemented :(".to_owned()
}

/// The reply of the `fortune` prefix command: the cow's output in a code
/// block, or the failure notice when `cowsay` could not be run.
pub fn cow_reply(output: Option<&str>) -> (res: String)
    ensures
        res@ == match output {
            Some(text) => code_block_spec(text@),
            None => cowsay_failed_spec(),
        },
{
    match output {
        Some(text) => code_block(text),
        None => "Something went wrong executing cowsay!".to_owned(),
    }
}

/// The reply of the `explode` prefix command: an explosion.
pub fn explode_reply() -> (res: String)
    ensures
        res@ == explode_spec(),
{
    "https://tenor.com/view/explode-boom-explosion-gif-17473499".to_owned()
}

} // verus!
