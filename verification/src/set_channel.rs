//! The decisions of the commands that set a guild's fortune channel: the
//! prefix command `set_channel <channel>` and the slash command that takes a
//! channel. The caller performs each action and hands back what came of it.
use vstd::prelude::*;
use crate::channels::{
    records_equal, same_record, stored, Dialect, StoredRecord, established_reply,
    established_reply_spec, send_error_reply, send_error_reply_spec, slash_established_reply,
    slash_established_reply_spec, GuildAccessError,
};
use crate::ids::{channel_id_error_text, channel_id_spec, parse_channel_id};

verus! {

/// Where a run of a set-channel command stands, and what it waits for.
pub enum SetChannelState {
    /// The probe text was sent to `channel`; `origin` is the guild the
    /// command came from. Waiting for the outcome.
    Probing { arg: String, origin: Option<u64>, channel: u64 },
    /// The probe message is being deleted.
    Deleting { arg: String, origin: Option<u64>, channel: u64 },
    /// The guild's record is being read; `success` is the reply once set.
    Reading { dialect: Dialect, success: String, guild: u64, channel: u64 },
    /// The guild's record is being written.
    Writing { dialect: Dialect, success: String, guild: u64, channel: u64 },
    /// The guild's record is being read back; `written` is the record as the
    /// store reported it after the write.
    Confirming {
        dialect: Dialect,
        success: String,
        guild: u64,
        channel: u64,
        written: StoredRecord,
    },
    /// The run is over.
    Finished,
}

/// The same, with texts as character sequences.
pub enum SetPhase {
    Probing { arg: Seq<char>, origin: Option<u64>, channel: u64 },
    Deleting { arg: Seq<char>, origin: Option<u64>, channel: u64 },
    Reading { dialect: Dialect, success: Seq<char>, guild: u64, channel: u64 },
    Writing { dialect: Dialect, success: Seq<char>, guild: u64, channel: u64 },
    Confirming {
        dialect: Dialect,
        success: Seq<char>,
        guild: u64,
        channel: u64,
        written: StoredRecord,
    },
    Finished,
}

/// What the caller is to do next.
pub enum SetChannelAction {
    /// Send the probe text (`"test"`) to the channel.
    SendProbe { channel: u64 },
    /// Delete the probe message just sent.
    DeleteProbe,
    /// Read the record stored under the guild.
    ReadRecord { guild: u64 },
    /// Change the channel of the guild's existing record.
    UpdateRecord { guild: u64, channel: u64 },
    /// Store a new record for the guild.
    InsertRecord { guild: u64, channel: u64 },
    /// Reply to the command with this text; the run is over.
    Reply(String),
    /// End the command with this error; the run is over.
    Fail(GuildAccessError),
    /// End the command with the error that the last action gave; the run is over.
    FailWithLastError,
    /// Nothing more to do.
    Finish,
}

/// The same, with texts as character sequences.
pub enum SetAction {
    SendProbe { channel: u64 },
    DeleteProbe,
    ReadRecord { guild: u64 },
    UpdateRecord { guild: u64, channel: u64 },
    InsertRecord { guild: u64, channel: u64 },
    Reply(Seq<char>),
    Fail(GuildAccessError),
    FailWithLastError,
    Finish,
}

/// What came of the last action. An `Err` holds the error's text.
pub enum SetChannelEvent {
    /// The probe was sent, or sending failed.
    ProbeSent(Result<(), String>),
    /// The probe message was deleted, or deleting failed.
    ProbeDeleted(Result<(), String>),
    /// The record stored under the guild, if any, or the store's error.
    RecordRead(Result<Option<StoredRecord>, String>),
    /// The record as the store wrote it, or the store's error.
    RecordWritten(Result<StoredRecord, String>),
}

impl View for SetChannelState {
    type V = SetPhase;

    open spec fn view(&self) -> SetPhase {
        match self {
            SetChannelState::Probing { arg, origin, channel } => SetPhase::Probing {
                arg: arg@,
                origin: *origin,
                channel: *channel,
            },
            SetChannelState::Deleting { arg, origin, channel } => SetPhase::Deleting {
                arg: arg@,
                origin: *origin,
                channel: *channel,
            },
            SetChannelState::Reading { dialect, success, guild, channel } => SetPhase::Reading {
                dialect: *dialect,
                success: success@,
                guild: *guild,
                channel: *channel,
            },
            SetChannelState::Writing { dialect, success, guild, channel } => SetPhase::Writing {
                dialect: *dialect,
                success: success@,
                guild: *guild,
                channel: *channel,
            },
            SetChannelState::Confirming { dialect, success, guild, channel, written } =>
                SetPhase::Confirming {
                dialect: *dialect,
                success: success@,
                guild: *guild,
                channel: *channel,
                written: *written,
            },
            SetChannelState::Finished => SetPhase::Finished,
        }
    }
}

impl View for SetChannelAction {
    type V = SetAction;

    open spec fn view(&self) -> SetAction {
        match self {
            SetChannelAction::SendProbe { channel } => SetAction::SendProbe { channel: *channel },
            SetChannelAction::DeleteProbe => SetAction::DeleteProbe,
            SetChannelAction::ReadRecord { guild } => SetAction::ReadRecord { guild: *guild },
            SetChannelAction::UpdateRecord { guild, channel } => SetAction::UpdateRecord {
                guild: *guild,
                channel: *channel,
            },
            SetChannelAction::InsertRecord { guild, channel } => SetAction::InsertRecord {
                guild: *guild,
                channel: *channel,
            },
            SetChannelAction::Reply(t) => SetAction::Reply(t@),
            SetChannelAction::Fail(e) => SetAction::Fail(*e),
            SetChannelAction::FailWithLastError => SetAction::FailWithLastError,
            SetChannelAction::Finish => SetAction::Finish,
        }
    }
}

/// How a run of the prefix command begins: nothing without an argument; a
/// reply naming the parse error when the argument is no channel id; otherwise
/// a probe of the channel.
pub open spec fn prefix_start(arg: Option<Seq<char>>, guild: Option<u64>) -> (SetPhase, SetAction) {
    match arg {
        None => (SetPhase::Finished, SetAction::Finish),
        Some(a) => match channel_id_spec(a) {
            None => (
                SetPhase::Finished,
                SetAction::Reply(send_error_reply_spec(a, channel_id_error_text(a))),
            ),
            Some(c) => (
                SetPhase::Probing { arg: a, origin: guild, channel: c },
                SetAction::SendProbe { channel: c },
            ),
        },
    }
}

/// How a run of the slash command begins: an error when the channel belongs
/// to no guild; otherwise a read of the guild's record.
pub open spec fn slash_start(channel: u64, guild: Option<u64>) -> (SetPhase, SetAction) {
    match guild {
        None => (SetPhase::Finished, SetAction::Fail(GuildAccessError::SetChannel)),
        Some(g) => (
            SetPhase::Reading {
                dialect: Dialect::Slash,
                success: slash_established_reply_spec(),
                guild: g,
                channel,
            },
            SetAction::ReadRecord { guild: g },
        ),
    }
}

/// The command that a phase working on the guild's record belongs to.
pub open spec fn record_dialect(p: SetPhase) -> Option<Dialect> {
    match p {
        SetPhase::Reading { dialect, .. } => Some(dialect),
        SetPhase::Writing { dialect, .. } => Some(dialect),
        SetPhase::Confirming { dialect, .. } => Some(dialect),
        _ => None,
    }
}

/// True unless the command gives up on the event and stops the bot: the
/// record read back is not there, or the store fails during the prefix
/// command.
pub open spec fn set_accepts(p: SetPhase, e: SetChannelEvent) -> bool {
    &&& !(p is Confirming && e matches SetChannelEvent::RecordRead(Ok(None)))
    &&& !(record_dialect(p) == Some(Dialect::Prefix) && (e matches SetChannelEvent::RecordRead(
        Err(_),
    ) || e matches SetChannelEvent::RecordWritten(Err(_))))
}

/// One step of a run: from the phase and the outcome of the last action to
/// the next phase and action. An event that the phase does not wait for ends
/// the run.
pub open spec fn set_next(p: SetPhase, e: SetChannelEvent) -> (SetPhase, SetAction) {
    match p {
        SetPhase::Probing { arg, origin, channel } => match e {
            SetChannelEvent::ProbeSent(Ok(())) => (
                SetPhase::Deleting { arg, origin, channel },
                SetAction::DeleteProbe,
            ),
            SetChannelEvent::ProbeSent(Err(err)) => (
                SetPhase::Finished,
                SetAction::Reply(send_error_reply_spec(arg, err@)),
            ),
            _ => (SetPhase::Finished, SetAction::Finish),
        },
        SetPhase::Deleting { arg, origin, channel } => match e {
            SetChannelEvent::ProbeDeleted(Ok(())) => match origin {
                None => (SetPhase::Finished, SetAction::Finish),
                Some(g) => (
                    SetPhase::Reading {
                        dialect: Dialect::Prefix,
                        success: established_reply_spec(arg),
                        guild: g,
                        channel,
                    },
                    SetAction::ReadRecord { guild: g },
                ),
            },
            SetChannelEvent::ProbeDeleted(Err(_)) => (
                SetPhase::Finished,
                SetAction::FailWithLastError,
            ),
            _ => (SetPhase::Finished, SetAction::Finish),
        },
        SetPhase::Reading { dialect, success, guild, channel } => match e {
            SetChannelEvent::RecordRead(Ok(Some(_))) => (
                SetPhase::Writing { dialect, success, guild, channel },
                SetAction::UpdateRecord { guild, channel },
            ),
            SetChannelEvent::RecordRead(Ok(None)) => (
                SetPhase::Writing { dialect, success, guild, channel },
                SetAction::InsertRecord { guild, channel },
            ),
            SetChannelEvent::RecordRead(Err(_)) => (
                SetPhase::Finished,
                SetAction::FailWithLastError,
            ),
            _ => (SetPhase::Finished, SetAction::Finish),
        },
        SetPhase::Writing { dialect, success, guild, channel } => match e {
            SetChannelEvent::RecordWritten(Ok(written)) => (
                SetPhase::Confirming { dialect, success, guild, channel, written },
                SetAction::ReadRecord { guild },
            ),
            SetChannelEvent::RecordWritten(Err(_)) => (
                SetPhase::Finished,
                SetAction::FailWithLastError,
            ),
            _ => (SetPhase::Finished, SetAction::Finish),
        },
        SetPhase::Confirming { success, written, .. } => match e {
            SetChannelEvent::RecordRead(Ok(Some(read_back))) => if same_record(
                read_back,
                written,
            ) {
                (SetPhase::Finished, SetAction::Reply(success))
            } else {
                (SetPhase::Finished, SetAction::Finish)
            },
            SetChannelEvent::RecordRead(Err(_)) => (
                SetPhase::Finished,
                SetAction::FailWithLastError,
            ),
            _ => (SetPhase::Finished, SetAction::Finish),
        },
        SetPhase::Finished => (SetPhase::Finished, SetAction::Finish),
    }
}

/// Begins a run of the prefix command `set_channel`, given its first
/// argument and the guild the message came from.
pub fn start_prefix(arg: Option<&str>, guild: Option<u64>) -> (res: (
    SetChannelState,
    SetChannelAction,
))
    ensures
        (res.0@, res.1@) == prefix_start(
            match arg {
                Some(a) => Some(a@),
                None => None,
            },
            guild,
        ),
{
    match arg {
        None => (SetChannelState::Finished, SetChannelAction::Finish),
        Some(a) => match parse_channel_id(a) {
            Err(e) => (SetChannelState::Finished, SetChannelAction::Reply(send_error_reply(a, &e))),
            Ok(c) => (
                SetChannelState::Probing { arg: a.to_owned(), origin: guild, channel: c },
                SetChannelAction::SendProbe { channel: c },
            ),
        },
    }
}

/// Begins a run of the slash command, given the chosen channel and the guild
/// it belongs to, if any.
pub fn start_slash(channel: u64, guild: Option<u64>) -> (res: (SetChannelState, SetChannelAction))
    ensures
        (res.0@, res.1@) == slash_start(channel, guild),
{
    match guild {
        None => (SetChannelState::Finished, SetChannelAction::Fail(GuildAccessError::SetChannel)),
        Some(g) => (
            SetChannelState::Reading {
                dialect: Dialect::Slash,
                success: slash_established_reply(),
                guild: g,
                channel,
            },
            SetChannelAction::ReadRecord { guild: g },
        ),
    }
}

impl SetChannelState {
    /// Takes the outcome of the last action and says what to do next.
    pub fn step(self, event: SetChannelEvent) -> (res: (SetChannelState, SetChannelAction))
        requires
            set_accepts(self@, event),
        ensures
            (res.0@, res.1@) == set_next(self@, event),
    {
        match self {
            SetChannelState::Probing { arg, origin, channel } => match event {
                SetChannelEvent::ProbeSent(Ok(())) => (
                    SetChannelState::Deleting { arg, origin, channel },
                    SetChannelAction::DeleteProbe,
                ),
                SetChannelEvent::ProbeSent(Err(err)) => {
                    let reply = send_error_reply(arg.as_str(), err.as_str());
                    (SetChannelState::Finished, SetChannelAction::Reply(reply))
                },
                _ => (SetChannelState::Finished, SetChannelAction::Finish),
            },
            SetChannelState::Deleting { arg, origin, channel } => match event {
                SetChannelEvent::ProbeDeleted(Ok(())) => match origin {
                    None => (SetChannelState::Finished, SetChannelAction::Finish),
                    Some(g) => (
                        SetChannelState::Reading {
                            dialect: Dialect::Prefix,
                            success: established_reply(arg.as_str()),
                            guild: g,
                            channel,
                        },
                        SetChannelAction::ReadRecord { guild: g },
                    ),
                },
                SetChannelEvent::ProbeDeleted(Err(_)) => (
                    SetChannelState::Finished,
                    SetChannelAction::FailWithLastError,
                ),
                _ => (SetChannelState::Finished, SetChannelAction::Finish),
            },
            SetChannelState::Reading { dialect, success, guild, channel } => match event {
                SetChannelEvent::RecordRead(Ok(Some(_))) => (
                    SetChannelState::Writing { dialect, success, guild, channel },
                    SetChannelAction::UpdateRecord { guild, channel },
                ),
                SetChannelEvent::RecordRead(Ok(None)) => (
                    SetChannelState::Writing { dialect, success, guild, channel },
                    SetChannelAction::InsertRecord { guild, channel },
                ),
                SetChannelEvent::RecordRead(Err(_)) => (
                    SetChannelState::Finished,
                    SetChannelAction::FailWithLastError,
                ),
                _ => (SetChannelState::Finished, SetChannelAction::Finish),
            },
            SetChannelState::Writing { dialect, success, guild, channel } => match event {
                SetChannelEvent::RecordWritten(Ok(written)) => (
                    SetChannelState::Confirming { dialect, success, guild, channel, written },
                    SetChannelAction::ReadRecord { guild },
                ),
                SetChannelEvent::RecordWritten(Err(_)) => (
                    SetChannelState::Finished,
                    SetChannelAction::FailWithLastError,
                ),
                _ => (SetChannelState::Finished, SetChannelAction::Finish),
            },
            SetChannelState::Confirming { success, written, .. } => match event {
                SetChannelEvent::RecordRead(Ok(Some(read_back))) => {
                    if records_equal(&read_back, &written) {
                        (SetChannelState::Finished, SetChannelAction::Reply(success))
                    } else {
                        (SetChannelState::Finished, SetChannelAction::Finish)
                    }
                },
                SetChannelEvent::RecordRead(Err(_)) => (
                    SetChannelState::Finished,
                    SetChannelAction::FailWithLastError,
                ),
                _ => (SetChannelState::Finished, SetChannelAction::Finish),
            },
            SetChannelState::Finished => (SetChannelState::Finished, SetChannelAction::Finish),
        }
    }

    /// Whether the run is over.
    pub fn is_finished(&self) -> (res: bool)
        ensures
            res == (self@ is Finished),
    {
        match self {
            SetChannelState::Finished => true,
            _ => false,
        }
    }
}

/// How far a run is from its end, in steps.
pub open spec fn set_rank(p: SetPhase) -> nat {
    match p {
        SetPhase::Probing { .. } => 5,
        SetPhase::Deleting { .. } => 4,
        SetPhase::Reading { .. } => 3,
        SetPhase::Writing { .. } => 2,
        SetPhase::Confirming { .. } => 1,
        SetPhase::Finished => 0,
    }
}

/// The records after a set-channel action, given the record that the store
/// wrote: an update or an insert stores that record under the guild; every
/// other action leaves the records as they are.
pub open spec fn apply_set(records: Map<u64, StoredRecord>, a: SetAction, written: StoredRecord) -> Map<u64, StoredRecord> {
    match a {
        SetAction::UpdateRecord { guild, .. } => records.insert(guild, written),
        SetAction::InsertRecord { guild, .. } => records.insert(guild, written),
        _ => records,
    }
}

/// Whether the records admit the action: an update needs the guild's record,
/// an insert needs its absence.
pub open spec fn set_write_fits(records: Map<u64, StoredRecord>, a: SetAction) -> bool {
    match a {
        SetAction::UpdateRecord { guild, .. } => records.dom().contains(guild),
        SetAction::InsertRecord { guild, .. } => !records.dom().contains(guild),
        _ => true,
    }
}

/// How a prefix run begins and where it stops early: without an argument it
/// does nothing; with an argument that is no channel id it replies with the
/// send-error text for that argument and the parse error, and writes nothing;
/// with a channel id it probes exactly that channel; a failed probe is
/// answered with the send-error text for the argument and the probe's error;
/// and a run outside a guild stops once the probe is deleted.
pub proof fn lemma_prefix_outcomes(arg: Seq<char>, guild: Option<u64>, err: String)
    ensures
        prefix_start(None, guild) == (SetPhase::Finished, SetAction::Finish),
        (channel_id_spec(arg) is None) ==> prefix_start(Some(arg), guild) == (
            SetPhase::Finished,
            SetAction::Reply(send_error_reply_spec(arg, channel_id_error_text(arg))),
        ),
        (channel_id_spec(arg) is Some) ==> ({
            let channel = channel_id_spec(arg)->0;
            let (p0, a0) = prefix_start(Some(arg), guild);
            let (p1, a1) = set_next(p0, SetChannelEvent::ProbeSent(Err(err)));
            let (q1, b1) = set_next(p0, SetChannelEvent::ProbeSent(Ok(())));
            let (q2, b2) = set_next(q1, SetChannelEvent::ProbeDeleted(Ok(())));
            &&& a0 == SetAction::SendProbe { channel }
            &&& p1 is Finished
            &&& a1 == SetAction::Reply(send_error_reply_spec(arg, err@))
            &&& b1 == SetAction::DeleteProbe
            &&& guild is None ==> (q2 is Finished && b2 == SetAction::Finish)
        }),
{
}

/// How a slash run begins: a channel of no guild fails with the set-channel
/// access error; a channel of a guild starts with a read of that guild's
/// record.
pub proof fn lemma_slash_outcomes(channel: u64, guild: u64)
    ensures
        slash_start(channel, None) == (SetPhase::Finished, SetAction::Fail(
            GuildAccessError::SetChannel,
        )),
        slash_start(channel, Some(guild)).1 == (SetAction::ReadRecord { guild }),
{
}

/// Every step of a set-channel run brings it closer to its end, so a run is
/// over after at most five steps; a finished run stays finished and does nothing.
pub proof fn lemma_set_run_ends(p: SetPhase, e: SetChannelEvent)
    ensures
        !(p is Finished) ==> set_rank(set_next(p, e).0) < set_rank(p),
        p is Finished ==> set_next(p, e) == (SetPhase::Finished, SetAction::Finish),
{
}

/// A record is written only right after the guild's record was read, and
/// only for the guild and channel that the run was started with.
pub proof fn lemma_set_writes_only_after_read(p: SetPhase, e: SetChannelEvent)
    ensures
        (set_next(p, e).1 is UpdateRecord || set_next(p, e).1 is InsertRecord) ==> {
            &&& p matches SetPhase::Reading { guild, channel, .. }
            &&& e matches SetChannelEvent::RecordRead(Ok(_))
            &&& set_next(p, e).1 matches SetAction::UpdateRecord { guild: g2, channel: c2 } ==> g2
                == guild && c2 == channel
            &&& set_next(p, e).1 matches SetAction::InsertRecord { guild: g2, channel: c2 } ==> g2
                == guild && c2 == channel
        },
{
}

/// The success reply is sent only once the record read back is the very
/// document that was written: same key, same revision, same contents.
pub proof fn lemma_set_confirms_only_stored(p: SetPhase, e: SetChannelEvent)
    ensures
        p is Confirming && set_next(p, e).1 is Reply ==> (e matches SetChannelEvent::RecordRead(
            Ok(Some(read_back)),
        ) && same_record(read_back, p->Confirming_written)),
{
}

/// A failure ends the run with that failure's error and no reply: failing to
/// delete the probe message, and, in the slash command, failing to read or
/// write the record.
pub proof fn lemma_set_failures_end_with_error(
    p: SetPhase,
    e: SetChannelEvent,
)
    ensures
        (p is Deleting && (e matches SetChannelEvent::ProbeDeleted(Err(_)))) ==> set_next(p, e)
            == (SetPhase::Finished, SetAction::FailWithLastError),
        (record_dialect(p) == Some(Dialect::Slash) && (((p is Reading || p is Confirming) && (
        e matches SetChannelEvent::RecordRead(Err(_)))) || (p is Writing && (
        e matches SetChannelEvent::RecordWritten(Err(_)))))) ==> set_next(
            p,
            e,
        ) == (SetPhase::Finished, SetAction::FailWithLastError),
{
}

/// Against records that behave as a map: setting a guild's channel updates
/// only an existing record and inserts only a missing one; the store then
/// holds the written record under the guild, naming the channel, and every
/// other guild's record is as it was; reading the record back gives the
/// written document, so the run ends with the success reply.
pub proof fn lemma_set_stores_and_confirms(
    records: Map<u64, StoredRecord>,
    dialect: Dialect,
    success: Seq<char>,
    guild: u64,
    channel: u64,
    written: StoredRecord,
)
    requires
        written.id == guild,
        written.guild == guild,
        written.channel == channel,
    ensures
        ({
            let (p1, a1) = set_next(
                SetPhase::Reading { dialect, success, guild, channel },
                SetChannelEvent::RecordRead(Ok(stored(records, guild))),
            );
            let after = apply_set(records, a1, written);
            let (p2, a2) = set_next(p1, SetChannelEvent::RecordWritten(Ok(written)));
            let (p3, a3) = set_next(p2, SetChannelEvent::RecordRead(Ok(stored(after, guild))));
            &&& a1 == (if records.dom().contains(guild) {
                SetAction::UpdateRecord { guild, channel }
            } else {
                SetAction::InsertRecord { guild, channel }
            })
            &&& set_write_fits(records, a1)
            &&& after == records.insert(guild, written)
            &&& stored(after, guild) == Some(written)
            &&& forall|other: u64| other != guild ==> stored(after, other) == stored(records, other)
            &&& a2 == SetAction::ReadRecord { guild }
            &&& a3 == SetAction::Reply(success)
            &&& p3 is Finished
        }),
{
    let (p1, a1) = set_next(
        SetPhase::Reading { dialect, success, guild, channel },
        SetChannelEvent::RecordRead(Ok(stored(records, guild))),
    );
    let after = apply_set(records, a1, written);
    assert(after =~= records.insert(guild, written));
}

/// A whole run of the prefix command in a guild, for an argument that names
/// a channel the bot may write to, against records that behave as a map: it
/// probes the channel, deletes the probe, writes the record of that guild
/// naming exactly the channel the argument names (an update where the guild
/// has a record, an insert where not), and replies that the channel named by
/// the argument is established.
pub proof fn lemma_prefix_set_channel_run(
    records: Map<u64, StoredRecord>,
    arg: Seq<char>,
    guild: u64,
    written: StoredRecord,
)
    requires
        channel_id_spec(arg) is Some,
        written.id == guild,
        written.guild == guild,
        written.channel == channel_id_spec(arg)->0,
    ensures
        ({
            let channel = channel_id_spec(arg)->0;
            let (p0, a0) = prefix_start(Some(arg), Some(guild));
            let (p1, a1) = set_next(p0, SetChannelEvent::ProbeSent(Ok(())));
            let (p2, a2) = set_next(p1, SetChannelEvent::ProbeDeleted(Ok(())));
            let (p3, a3) = set_next(p2, SetChannelEvent::RecordRead(Ok(stored(records, guild))));
            let after = apply_set(records, a3, written);
            let (p4, a4) = set_next(p3, SetChannelEvent::RecordWritten(Ok(written)));
            let (p5, a5) = set_next(p4, SetChannelEvent::RecordRead(Ok(stored(after, guild))));
            &&& a0 == SetAction::SendProbe { channel }
            &&& a1 == SetAction::DeleteProbe
            &&& a2 == SetAction::ReadRecord { guild }
            &&& a3 == (if records.dom().contains(guild) {
                SetAction::UpdateRecord { guild, channel }
            } else {
                SetAction::InsertRecord { guild, channel }
            })
            &&& set_write_fits(records, a3)
            &&& after == records.insert(guild, written)
            &&& a4 == SetAction::ReadRecord { guild }
            &&& a5 == SetAction::Reply(established_reply_spec(arg))
            &&& p5 is Finished
        }),
{
    let channel = channel_id_spec(arg)->0;
    lemma_set_stores_and_confirms(
        records,
        Dialect::Prefix,
        established_reply_spec(arg),
        guild,
        channel,
        written,
    );
}

/// A whole run of the slash command for a channel of a guild, against records
/// that behave as a map: it writes the record of that guild naming exactly
/// the chosen channel (an update where the guild has a record, an insert
/// where not) and replies that the channel is established.
pub proof fn lemma_slash_set_channel_run(
    records: Map<u64, StoredRecord>,
    channel: u64,
    guild: u64,
    written: StoredRecord,
)
    requires
        written.id == guild,
        written.guild == guild,
        written.channel == channel,
    ensures
        ({
            let (p0, a0) = slash_start(channel, Some(guild));
            let (p1, a1) = set_next(p0, SetChannelEvent::RecordRead(Ok(stored(records, guild))));
            let after = apply_set(records, a1, written);
            let (p2, a2) = set_next(p1, SetChannelEvent::RecordWritten(Ok(written)));
            let (p3, a3) = set_next(p2, SetChannelEvent::RecordRead(Ok(stored(after, guild))));
            &&& a0 == SetAction::ReadRecord { guild }
            &&& a1 == (if records.dom().contains(guild) {
                SetAction::UpdateRecord { guild, channel }
            } else {
                SetAction::InsertRecord { guild, channel }
            })
            &&& set_write_fits(records, a1)
            &&& after == records.insert(guild, written)
            &&& a3 == SetAction::Reply(slash_established_reply_spec())
            &&& p3 is Finished
        }),
{
    lemma_set_stores_and_confirms(
        records,
        Dialect::Slash,
        slash_established_reply_spec(),
        guild,
        channel,
        written,
    );
}

} // verus!
