//! The decisions of the commands that remove a guild's fortune channel: the
//! prefix command `remove_channel` and its slash counterpart. The caller
//! performs each action and hands back what came of it.
use vstd::prelude::*;
use crate::channels::{
    stored, Dialect, GuildAccessError, StoredRecord, no_channel_reply, no_channel_reply_spec,
    no_guild_reply, no_guild_reply_spec, remove_error_reply, remove_error_reply_spec,
    removed_reply, removed_reply_spec,
};

verus! {

/// Where a run of a remove-channel command stands.
#[derive(Clone, Copy, Debug, PartialEq, Eq, Structural)]
pub enum RemoveChannelState {
    /// The guild's record is being read.
    Reading { dialect: Dialect, guild: u64 },
    /// The guild's record is being deleted.
    Deleting { dialect: Dialect, guild: u64 },
    /// The run is over.
    Finished,
}

/// What the caller is to do next.
pub enum RemoveChannelAction {
    /// Read the record stored under the guild.
    ReadRecord { guild: u64 },
    /// Delete the record stored under the guild.
    DeleteRecord { guild: u64 },
    /// Reply to the command with this text; the run is over.
    Reply(String),
    /// End the command with this error; the run is over.
    Fail(GuildAccessError),
    /// End the command with the error that the last action gave; the run is over.
    FailWithLastError,
    /// Nothing more to do.
    Finish,
}

/// The same, with texts as character sequences.
pub enum RemoveAction {
    ReadRecord { guild: u64 },
    DeleteRecord { guild: u64 },
    Reply(Seq<char>),
    Fail(GuildAccessError),
    FailWithLastError,
    Finish,
}

/// What came of the last action.
pub enum RemoveChannelEvent {
    /// The record stored under the guild, if any, or the store's error text.
    RecordRead(Result<Option<StoredRecord>, String>),
    /// The record was deleted, or deleting failed with this error text.
    RecordDeleted(Result<(), String>),
}

impl View for RemoveChannelAction {
    type V = RemoveAction;

    open spec fn view(&self) -> RemoveAction {
        match self {
            RemoveChannelAction::ReadRecord { guild } => RemoveAction::ReadRecord { guild: *guild },
            RemoveChannelAction::DeleteRecord { guild } => RemoveAction::DeleteRecord {
                guild: *guild,
            },
            RemoveChannelAction::Reply(t) => RemoveAction::Reply(t@),
            RemoveChannelAction::Fail(e) => RemoveAction::Fail(*e),
            RemoveChannelAction::FailWithLastError => RemoveAction::FailWithLastError,
            RemoveChannelAction::Finish => RemoveAction::Finish,
        }
    }
}

/// How a run begins: outside a guild, the prefix command replies that the
/// server is unknown and the slash command fails; otherwise the guild's
/// record is read.
pub open spec fn remove_start(dialect: Dialect, guild: Option<u64>) -> (RemoveChannelState, RemoveAction) {
    match guild {
        None => (
            RemoveChannelState::Finished,
            match dialect {
                Dialect::Prefix => RemoveAction::Reply(no_guild_reply_spec()),
                Dialect::Slash => RemoveAction::Fail(GuildAccessError::RemoveChannel),
            },
        ),
        Some(g) => (
            RemoveChannelState::Reading { dialect, guild: g },
            RemoveAction::ReadRecord { guild: g },
        ),
    }
}

/// True unless the event is a failed read of the prefix command, on which the
/// command stops the bot.
pub open spec fn remove_accepts(s: RemoveChannelState, e: RemoveChannelEvent) -> bool {
    !(s matches RemoveChannelState::Reading { dialect: Dialect::Prefix, .. }
        && e matches RemoveChannelEvent::RecordRead(Err(_)))
}

/// One step of a run. An event that the state does not wait for ends the run.
pub open spec fn remove_next(s: RemoveChannelState, e: RemoveChannelEvent) -> (RemoveChannelState, RemoveAction) {
    match s {
        RemoveChannelState::Reading { dialect, guild } => match e {
            RemoveChannelEvent::RecordRead(Ok(Some(_))) => (
                RemoveChannelState::Deleting { dialect, guild },
                RemoveAction::DeleteRecord { guild },
            ),
            RemoveChannelEvent::RecordRead(Ok(None)) => (
                RemoveChannelState::Finished,
                RemoveAction::Reply(no_channel_reply_spec()),
            ),
            RemoveChannelEvent::RecordRead(Err(_)) => (
                RemoveChannelState::Finished,
                RemoveAction::FailWithLastError,
            ),
            _ => (RemoveChannelState::Finished, RemoveAction::Finish),
        },
        RemoveChannelState::Deleting { dialect, guild } => match e {
            RemoveChannelEvent::RecordDeleted(Ok(())) => (
                RemoveChannelState::Finished,
                RemoveAction::Reply(removed_reply_spec()),
            ),
            RemoveChannelEvent::RecordDeleted(Err(err)) => (
                RemoveChannelState::Finished,
                match dialect {
                    Dialect::Prefix => RemoveAction::Reply(remove_error_reply_spec(err@)),
                    Dialect::Slash => RemoveAction::FailWithLastError,
                },
            ),
            _ => (RemoveChannelState::Finished, RemoveAction::Finish),
        },
        RemoveChannelState::Finished => (RemoveChannelState::Finished, RemoveAction::Finish),
    }
}

/// Begins a run, given the guild the command came from, if any.
pub fn start_remove(dialect: Dialect, guild: Option<u64>) -> (res: (
    RemoveChannelState,
    RemoveChannelAction,
))
    ensures
        (res.0, res.1@) == remove_start(dialect, guild),
{
    match guild {
        None => (
            RemoveChannelState::Finished,
            match dialect {
                Dialect::Prefix => RemoveChannelAction::Reply(no_guild_reply()),
                Dialect::Slash => RemoveChannelAction::Fail(GuildAccessError::RemoveChannel),
            },
        ),
        Some(g) => (
            RemoveChannelState::Reading { dialect, guild: g },
            RemoveChannelAction::ReadRecord { guild: g },
        ),
    }
}

impl RemoveChannelState {
    /// Takes the outcome of the last action and says what to do next.
    pub fn step(self, event: RemoveChannelEvent) -> (res: (RemoveChannelState, RemoveChannelAction))
        requires
            remove_accepts(self, event),
        ensures
            (res.0, res.1@) == remove_next(self, event),
    {
        match self {
            RemoveChannelState::Reading { dialect, guild } => match event {
                RemoveChannelEvent::RecordRead(Ok(Some(_))) => (
                    RemoveChannelState::Deleting { dialect, guild },
                    RemoveChannelAction::DeleteRecord { guild },
                ),
                RemoveChannelEvent::RecordRead(Ok(None)) => (
                    RemoveChannelState::Finished,
                    RemoveChannelAction::Reply(no_channel_reply()),
                ),
                RemoveChannelEvent::RecordRead(Err(_)) => (
                    RemoveChannelState::Finished,
                    RemoveChannelAction::FailWithLastError,
                ),
                _ => (RemoveChannelState::Finished, RemoveChannelAction::Finish),
            },
            RemoveChannelState::Deleting { dialect, guild } => match event {
                RemoveChannelEvent::RecordDeleted(Ok(())) => (
                    RemoveChannelState::Finished,
                    RemoveChannelAction::Reply(removed_reply()),
                ),
                RemoveChannelEvent::RecordDeleted(Err(err)) => (
                    RemoveChannelState::Finished,
                    match dialect {
                        Dialect::Prefix => RemoveChannelAction::Reply(
                            remove_error_reply(err.as_str()),
                        ),
                        Dialect::Slash => RemoveChannelAction::FailWithLastError,
                    },
                ),
                _ => (RemoveChannelState::Finished, RemoveChannelAction::Finish),
            },
            RemoveChannelState::Finished => (
                RemoveChannelState::Finished,
                RemoveChannelAction::Finish,
            ),
        }
    }
}

/// The records after a remove-channel action: a delete drops the guild's
/// record; every other action leaves them as they are.
pub open spec fn apply_remove(records: Map<u64, StoredRecord>, a: RemoveAction) -> Map<u64, StoredRecord> {
    match a {
        RemoveAction::DeleteRecord { guild } => records.remove(guild),
        _ => records,
    }
}

/// Every step of a remove-channel run ends it or moves it from reading to
/// deleting, so a run is over after at most two steps.
pub proof fn lemma_remove_run_ends(s: RemoveChannelState, e: RemoveChannelEvent)
    ensures
        s is Reading ==> (remove_next(s, e).0 is Deleting || remove_next(s, e).0 is Finished),
        s is Deleting ==> remove_next(s, e).0 is Finished,
        s is Finished ==> remove_next(s, e) == (RemoveChannelState::Finished, RemoveAction::Finish),
{
}

/// A failed read ends the slash command with that error and touches no record.
pub proof fn lemma_remove_read_failure(guild: u64, err: String)
    ensures
        remove_next(
            RemoveChannelState::Reading { dialect: Dialect::Slash, guild },
            RemoveChannelEvent::RecordRead(Err(err)),
        ) == (RemoveChannelState::Finished, RemoveAction::FailWithLastError),
{
}

/// Against records that behave as a map: when the guild has a record, the run
/// deletes it, leaves every other guild's record as it was, and replies that
/// the channel is removed; when it has none, the run writes nothing and
/// replies that no channel is set.
pub proof fn lemma_remove_deletes(records: Map<u64, StoredRecord>, dialect: Dialect, guild: u64)
    ensures
        ({
            let (s1, a1) = remove_next(
                RemoveChannelState::Reading { dialect, guild },
                RemoveChannelEvent::RecordRead(Ok(stored(records, guild))),
            );
            let after = apply_remove(records, a1);
            if records.dom().contains(guild) {
                &&& a1 == RemoveAction::DeleteRecord { guild }
                &&& stored(after, guild) is None
                &&& forall|other: u64|
                    other != guild ==> stored(after, other) == stored(records, other)
                &&& remove_next(s1, RemoveChannelEvent::RecordDeleted(Ok(()))) == (
                    RemoveChannelState::Finished,
                    RemoveAction::Reply(removed_reply_spec()),
                )
            } else {
                &&& a1 == RemoveAction::Reply(no_channel_reply_spec())
                &&& after == records
                &&& s1 is Finished
            }
        }),
{
}

/// A whole run of a removal in a guild, against records that behave as a
/// map: it reads the record of that very guild; where the guild has a record,
/// it deletes exactly that record, keeps every other one, and replies that
/// the channel is removed; where not, it writes nothing and replies that no
/// channel is set.
pub proof fn lemma_remove_run(records: Map<u64, StoredRecord>, dialect: Dialect, guild: u64)
    ensures
        ({
            let (s0, a0) = remove_start(dialect, Some(guild));
            let (s1, a1) = remove_next(s0, RemoveChannelEvent::RecordRead(Ok(stored(records, guild))));
            let after = apply_remove(records, a1);
            &&& a0 == RemoveAction::ReadRecord { guild }
            &&& s0 == RemoveChannelState::Reading { dialect, guild }
            &&& if records.dom().contains(guild) {
                &&& a1 == RemoveAction::DeleteRecord { guild }
                &&& after == records.remove(guild)
                &&& remove_next(s1, RemoveChannelEvent::RecordDeleted(Ok(()))).1
                    == RemoveAction::Reply(removed_reply_spec())
            } else {
                &&& a1 == RemoveAction::Reply(no_channel_reply_spec())
                &&& after == records
            }
        }),
{
    lemma_remove_deletes(records, dialect, guild);
    assert(records.remove(guild) =~= apply_remove(
        records,
        RemoveAction::DeleteRecord { guild },
    ));
}

/// The other ends of a removal: outside a guild the prefix command replies
/// that the server is unknown and the slash command fails with the
/// remove-channel access error; a failed delete is answered by the prefix
/// command with the remove-error text for the store's error, and ends the
/// slash command with that error.
pub proof fn lemma_remove_outcomes(guild: u64, err: String)
    ensures
        remove_start(Dialect::Prefix, None) == (
            RemoveChannelState::Finished,
            RemoveAction::Reply(no_guild_reply_spec()),
        ),
        remove_start(Dialect::Slash, None) == (
            RemoveChannelState::Finished,
            RemoveAction::Fail(GuildAccessError::RemoveChannel),
        ),
        remove_next(
            RemoveChannelState::Deleting { dialect: Dialect::Prefix, guild },
            RemoveChannelEvent::RecordDeleted(Err(err)),
        ) == (RemoveChannelState::Finished, RemoveAction::Reply(remove_error_reply_spec(err@))),
        remove_next(
            RemoveChannelState::Deleting { dialect: Dialect::Slash, guild },
            RemoveChannelEvent::RecordDeleted(Err(err)),
        ) == (RemoveChannelState::Finished, RemoveAction::FailWithLastError),
{
}

/// Removing twice: after a guild's record is removed, removing again finds
/// no record and replies that no channel is set.
pub proof fn lemma_remove_twice(records: Map<u64, StoredRecord>, dialect: Dialect, guild: u64)
    ensures
        ({
            let (s1, a1) = remove_next(
                RemoveChannelState::Reading { dialect, guild },
                RemoveChannelEvent::RecordRead(Ok(stored(records, guild))),
            );
            let after = apply_remove(records, a1);
            let (s2, a2) = remove_next(
                RemoveChannelState::Reading { dialect, guild },
                RemoveChannelEvent::RecordRead(Ok(stored(after, guild))),
            );
            &&& a2 == RemoveAction::Reply(no_channel_reply_spec())
            &&& apply_remove(after, a2) == after
        }),
{
}

/// Setting a guild's channel (which stores the written record under the guild,
/// see `lemma_set_stores_and_confirms`) and then removing it: the removal finds
/// the record that was set, deletes it, and leaves the other guilds' records
/// as they were before the set.
pub proof fn lemma_set_then_remove(
    records: Map<u64, StoredRecord>,
    dialect: Dialect,
    guild: u64,
    written: StoredRecord,
)
    ensures
        ({
            let after_set = records.insert(guild, written);
            let (s1, a1) = remove_next(
                RemoveChannelState::Reading { dialect, guild },
                RemoveChannelEvent::RecordRead(Ok(stored(after_set, guild))),
            );
            let after_remove = apply_remove(after_set, a1);
            &&& stored(after_set, guild) == Some(written)
            &&& a1 == RemoveAction::DeleteRecord { guild }
            &&& after_remove == records.remove(guild)
            &&& remove_next(s1, RemoveChannelEvent::RecordDeleted(Ok(()))).1 == RemoveAction::Reply(
                removed_reply_spec(),
            )
        }),
{
    let after_set = records.insert(guild, written);
    assert(after_set.remove(guild) =~= records.remove(guild));
}

} // verus!
