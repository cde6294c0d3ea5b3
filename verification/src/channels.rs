//! The fortune channels: which channel of a guild gets the hourly fortune, the
//! records kept of that, and the replies of the commands that set and remove it.
use vstd::prelude::*;

verus! {

/// The record of a guild's fortune channel. Records are keyed by the guild's id.
pub struct FortuneChannel {
    guild: u64,
    pub channel: u64,
}

impl FortuneChannel {
    /// The guild the record belongs to.
    pub closed spec fn spec_guild(&self) -> u64 {
        self.guild
    }

    /// The channel the record names.
    pub closed spec fn spec_channel(&self) -> u64 {
        self.channel
    }

    /// A record naming `channel` as the fortune channel of `guild`.
    pub fn new(guild: u64, channel: u64) -> (res: Self)
        ensures
            res.spec_guild() == guild,
            res.spec_channel() == channel,
    {
        FortuneChannel { guild, channel }
    }

    /// The guild the record belongs to.
    pub fn guild(&self) -> (res: u64)
        ensures
            res == self.spec_guild(),
    {
        self.guild
    }

    /// The channel the record names.
    pub fn channel(&self) -> (res: u64)
        ensures
            res == self.spec_channel(),
    {
        self.channel
    }

    /// The key the record is stored under: its guild's id.
    pub fn natural_id(&self) -> (res: u64)
        ensures
            res == self.spec_guild(),
    {
        self.guild
    }
}

/// A record as the store reports it: the key it is stored under, its
/// revision (a count of its writes and the SHA-256 digest of its bytes), and
/// its contents, the guild and the channel.
#[derive(Clone, Copy, Debug)]
pub struct StoredRecord {
    pub id: u64,
    pub revision: u32,
    pub digest: [u8; 32],
    pub guild: u64,
    pub channel: u64,
}

/// Whether two stored records are the same document: same key, same
/// revision and same contents.
pub open spec fn same_record(a: StoredRecord, b: StoredRecord) -> bool {
    &&& a.id == b.id
    &&& a.revision == b.revision
    &&& a.digest@ == b.digest@
    &&& a.guild == b.guild
    &&& a.channel == b.channel
}

/// Whether two stored records are the same document.
pub fn records_equal(a: &StoredRecord, b: &StoredRecord) -> (res: bool)
    ensures
        res == same_record(*a, *b),
{
    if a.id != b.id || a.revision != b.revision || a.guild != b.guild || a.channel != b.channel {
        return false;
    }
    let mut i: usize = 0;
    while i < 32
        invariant
            i <= 32,
            a.digest@.len() == 32,
            b.digest@.len() == 32,
            forall|j: int| 0 <= j < i ==> a.digest@[j] == b.digest@[j],
        decreases 32 - i,
    {
        if a.digest[i] != b.digest[i] {
            return false;
        }
        i = i + 1;
    }
    assert(a.digest@ =~= b.digest@);
    true
}

/// The record stored under `guild`, if any. The records are modelled as a
/// map from guild to the record stored under its id: one record per guild.
pub open spec fn stored(records: Map<u64, StoredRecord>, guild: u64) -> Option<StoredRecord> {
    if records.dom().contains(guild) {
        Some(records[guild])
    } else {
        None
    }
}

/// Which command runs: the prefix command answers a failure to write to a
/// channel or remove a record with a reply and stops the bot on a failure of
/// the store; the slash command ends with the error instead.
#[derive(Clone, Copy, Debug, PartialEq, Eq, Structural)]
pub enum Dialect {
    Prefix,
    Slash,
}

/// Why a command could not find the guild it acts on.
#[derive(Clone, Copy, Debug, PartialEq, Eq, Structural)]
pub enum GuildAccessError {
    /// The channel given to set belongs to no guild.
    SetChannel,
    /// The message that asked for a removal came from outside a guild.
    RemoveChannel,
}

impl GuildAccessError {
    /// The error's text.
    pub open spec fn spec_message(&self) -> Seq<char> {
        match self {
            GuildAccessError::SetChannel => "No server associated with channel"@,
            GuildAccessError::RemoveChannel => "Server ID not accessable from message"@,
        }
    }

    /// The error's text.
    pub fn message(&self) -> (res: String)
        ensures
            res@ == self.spec_message(),
    {
        match self {
            GuildAccessError::SetChannel => "No server associated with channel".to_owned(),
            GuildAccessError::RemoveChannel => "Server ID not accessable from message".to_owned(),
        }
    }
}

/// The reply of the prefix command `set_channel` once the channel named by
/// `arg` is recorded.
pub open spec fn established_reply_spec(arg: Seq<char>) -> Seq<char> {
    arg + " successfully established as the Hourly Fortune channel!"@
}

/// The reply of the slash command once the channel is recorded.
pub open spec fn slash_established_reply_spec() -> Seq<char> {
    "Channel successfully establisted as the Hourly Fortune channel!"@
}

/// The reply when the channel named by `arg` cannot be written to.
pub open spec fn send_error_reply_spec(arg: Seq<char>, err: Seq<char>) -> Seq<char> {
    "Error sending message in "@ + arg + "! Error message: "@ + err
}

/// The reply of the prefix command `remove_channel` outside a guild.
pub open spec fn no_guild_reply_spec() -> Seq<char> {
    "Server ID not accessable from message!"@
}

/// The reply once a guild's record is removed.
pub open spec fn removed_reply_spec() -> Seq<char> {
    "Channel successfully removed!"@
}

/// The reply when the record could not be removed.
pub open spec fn remove_error_reply_spec(err: Seq<char>) -> Seq<char> {
    "Error removing channel! Error message: "@ + err
}

/// The reply when a guild has no record to remove.
pub open spec fn no_channel_reply_spec() -> Seq<char> {
    "No channel set! Set a channel for hourly fortunes using the `set_channel` command!"@
}

/// The text the bot writes into a channel to check that it may write there.
pub open spec fn probe_text_spec() -> Seq<char> {
    "test"@
}

/// The replies name what they are about: the established reply begins with
/// the argument, the send-error reply holds the argument after its opening
/// words and ends with the error, and the remove-error reply ends with the
/// error.
pub proof fn lemma_replies_name_their_inputs(arg: Seq<char>, err: Seq<char>)
    ensures
        established_reply_spec(arg).subrange(0, arg.len() as int) == arg,
        send_error_reply_spec(arg, err).subrange(25, 25 + arg.len() as int) == arg,
        send_error_reply_spec(arg, err).subrange(
            send_error_reply_spec(arg, err).len() - err.len(),
            send_error_reply_spec(arg, err).len() as int,
        ) == err,
        remove_error_reply_spec(err).subrange(
            remove_error_reply_spec(err).len() - err.len(),
            remove_error_reply_spec(err).len() as int,
        ) == err,
{
    reveal_strlit("Error sending message in ");
    let e = established_reply_spec(arg);
    assert(e.subrange(0, arg.len() as int) =~= arg);
    let t = send_error_reply_spec(arg, err);
    assert(t.subrange(25, 25 + arg.len() as int) =~= arg);
    assert(t.subrange(t.len() - err.len(), t.len() as int) =~= err);
    let r = remove_error_reply_spec(err);
    assert(r.subrange(r.len() - err.len(), r.len() as int) =~= err);
}

/// The reply of the prefix command `set_channel` once the channel named by
/// `arg` is recorded.
pub fn established_reply(arg: &str) -> (res: String)
    ensures
        res@ == established_reply_spec(arg@),
{
    let mut res = arg.to_owned();
    res.append(" successfully established as the Hourly Fortune channel!");
    res
}

/// The reply of the slash command once the channel is recorded.
pub fn slash_established_reply() -> (res: String)
    ensures
        res@ == slash_established_reply_spec(),
{
    "Channel successfully establisted as the Hourly Fortune channel!".to_owned()
}

/// The reply when the channel named by `arg` cannot be written to, with the
/// error's text.
pub fn send_error_reply(arg: &str, err: &str) -> (res: String)
    ensures
        res@ == send_error_reply_spec(arg@, err@),
{
    let mut res = "Error sending message in ".to_owned();
    res.append(arg);
    res.append("! Error message: ");
    res.append(err);
    res
}

/// The reply of the prefix command `remove_channel` outside a guild.
pub fn no_guild_reply() -> (res: String)
    ensures
        res@ == no_guild_reply_spec(),
{
    "Server ID not accessable from message!".to_owned()
}

/// The reply once a guild's record is removed.
pub fn removed_reply() -> (res: String)
    ensures
        res@ == removed_reply_spec(),
{
    "Channel successfully removed!".to_owned()
}

/// The reply when the record could not be removed, with the error's text.
pub fn remove_error_reply(err: &str) -> (res: String)
    ensures
        res@ == remove_error_reply_spec(err@),
{
    let mut res = "Error removing channel! Error message: ".to_owned();
    res.append(err);
    res
}

/// The reply when a guild has no record to remove.
pub fn no_channel_reply() -> (res: String)
    ensures
        res@ == no_channel_reply_spec(),
{
    "No channel set! Set a channel for hourly fortunes using the `set_channel` command!".to_owned()
}

/// The text the bot writes into a channel to check that it may write there.
pub fn probe_text() -> (res: String)
    ensures
        res@ == probe_text_spec(),
{
    "test".to_owned()
}

} // verus!
