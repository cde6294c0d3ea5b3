use hourly_fortune::channels::{GuildAccessError, StoredRecord};
use hourly_fortune::set_channel::{
    start_prefix, start_slash, SetChannelAction, SetChannelEvent, SetChannelState,
};
use std::collections::HashMap;

fn reply_text(a: &SetChannelAction) -> Option<&str> {
    match a {
        SetChannelAction::Reply(t) => Some(t.as_str()),
        _ => None,
    }
}

fn record(guild: u64, channel: u64, revision: u32) -> StoredRecord {
    StoredRecord { id: guild, revision, digest: [revision as u8; 32], guild, channel }
}

/// Writes a record as a store would: the revision counts the writes.
fn write(records: &mut HashMap<u64, StoredRecord>, guild: u64, channel: u64) -> StoredRecord {
    let revision = records.get(&guild).map_or(0, |r| r.revision) + 1;
    let written = record(guild, channel, revision);
    records.insert(guild, written);
    written
}

/// Runs a flow against an in-memory record map, with probes that succeed.
fn run(
    mut state: SetChannelState,
    mut action: SetChannelAction,
    records: &mut HashMap<u64, StoredRecord>,
) -> SetChannelAction {
    loop {
        let event = match &action {
            SetChannelAction::SendProbe { .. } => SetChannelEvent::ProbeSent(Ok(())),
            SetChannelAction::DeleteProbe => SetChannelEvent::ProbeDeleted(Ok(())),
            SetChannelAction::ReadRecord { guild } => {
                SetChannelEvent::RecordRead(Ok(records.get(guild).copied()))
            }
            SetChannelAction::UpdateRecord { guild, channel } => {
                assert!(records.contains_key(guild));
                SetChannelEvent::RecordWritten(Ok(write(records, *guild, *channel)))
            }
            SetChannelAction::InsertRecord { guild, channel } => {
                assert!(!records.contains_key(guild));
                SetChannelEvent::RecordWritten(Ok(write(records, *guild, *channel)))
            }
            _ => return action,
        };
        let (s, a) = state.step(event);
        state = s;
        action = a;
    }
}

#[test]
fn prefix_without_argument_does_nothing() {
    let (state, action) = start_prefix(None, Some(5));
    assert!(state.is_finished());
    assert!(matches!(action, SetChannelAction::Finish));
}

#[test]
fn prefix_with_channel_id_probes_it() {
    let (state, action) = start_prefix(Some("123"), Some(5));
    assert!(!state.is_finished());
    assert!(matches!(action, SetChannelAction::SendProbe { channel: 123 }));
    match state {
        SetChannelState::Probing { arg, origin, channel } => {
            assert_eq!(arg, "123");
            assert_eq!(origin, Some(5));
            assert_eq!(channel, 123);
        }
        _ => panic!("expected a probe"),
    }
    let (_, plus) = start_prefix(Some("+42"), None);
    assert!(matches!(plus, SetChannelAction::SendProbe { channel: 42 }));
}

#[test]
fn prefix_with_bad_argument_replies_with_parse_error() {
    let (state, action) = start_prefix(Some("abc"), Some(5));
    assert!(state.is_finished());
    assert_eq!(
        reply_text(&action),
        Some("Error sending message in abc! Error message: invalid digit found in string")
    );
    let (_, zero) = start_prefix(Some("0"), Some(5));
    assert_eq!(
        reply_text(&zero),
        Some("Error sending message in 0! Error message: number would be zero for non-zero type")
    );
    let (_, empty) = start_prefix(Some(""), Some(5));
    assert_eq!(
        reply_text(&empty),
        Some("Error sending message in ! Error message: cannot parse integer from empty string")
    );
    let (_, big) = start_prefix(Some("18446744073709551616"), Some(5));
    assert_eq!(
        reply_text(&big),
        Some("Error sending message in 18446744073709551616! Error message: number too large to fit in target type")
    );
    let (_, mention) = start_prefix(Some("<#123>"), Some(5));
    assert!(reply_text(&mention).is_some());
}

#[test]
fn largest_id_is_accepted() {
    let (_, action) = start_prefix(Some("18446744073709551615"), Some(5));
    assert!(matches!(action, SetChannelAction::SendProbe { channel: u64::MAX }));
}

#[test]
fn failed_probe_replies_with_send_error() {
    let (state, _) = start_prefix(Some("77"), Some(5));
    let (state, action) = state.step(SetChannelEvent::ProbeSent(Err("Missing Access".to_string())));
    assert!(state.is_finished());
    assert_eq!(
        reply_text(&action),
        Some("Error sending message in 77! Error message: Missing Access")
    );
}

#[test]
fn prefix_run_inserts_then_confirms() {
    let mut records = HashMap::new();
    let (state, action) = start_prefix(Some("77"), Some(5));
    let last = run(state, action, &mut records);
    assert_eq!(
        reply_text(&last),
        Some("77 successfully established as the Hourly Fortune channel!")
    );
    assert_eq!(records.get(&5).map(|r| r.channel), Some(77));
}

#[test]
fn prefix_run_updates_existing_record() {
    let mut records = HashMap::from([(5u64, record(5, 10, 1)), (6u64, record(6, 11, 1))]);
    let (state, action) = start_prefix(Some("77"), Some(5));
    let last = run(state, action, &mut records);
    assert!(reply_text(&last).is_some());
    assert_eq!(records.get(&5).map(|r| (r.channel, r.revision)), Some((77, 2)));
    assert_eq!(records.get(&6).map(|r| (r.channel, r.revision)), Some((11, 1)));
}

#[test]
fn prefix_outside_guild_stops_after_probe() {
    let mut records = HashMap::new();
    let (state, action) = start_prefix(Some("77"), None);
    let last = run(state, action, &mut records);
    assert!(matches!(last, SetChannelAction::Finish));
    assert!(records.is_empty());
}

#[test]
fn read_then_write_choice() {
    let (state, _) = start_slash(9, Some(3));
    let (state, action) = state.step(SetChannelEvent::RecordRead(Ok(Some(record(3, 1, 1)))));
    assert!(matches!(action, SetChannelAction::UpdateRecord { guild: 3, channel: 9 }));
    let (_, action) = state.step(SetChannelEvent::RecordWritten(Ok(record(3, 9, 2))));
    assert!(matches!(action, SetChannelAction::ReadRecord { guild: 3 }));
    let (state, _) = start_slash(9, Some(3));
    let (_, action) = state.step(SetChannelEvent::RecordRead(Ok(None)));
    assert!(matches!(action, SetChannelAction::InsertRecord { guild: 3, channel: 9 }));
}

fn confirming() -> SetChannelState {
    let (state, _) = start_slash(9, Some(3));
    let (state, _) = state.step(SetChannelEvent::RecordRead(Ok(None)));
    let (state, _) = state.step(SetChannelEvent::RecordWritten(Ok(record(3, 9, 1))));
    state
}

#[test]
fn confirmation_mismatch_ends_silently() {
    let (state, action) = confirming().step(SetChannelEvent::RecordRead(Ok(Some(record(3, 8, 1)))));
    assert!(state.is_finished());
    assert!(matches!(action, SetChannelAction::Finish));
}

#[test]
fn confirmation_compares_the_revision_too() {
    let (_, action) = confirming().step(SetChannelEvent::RecordRead(Ok(Some(record(3, 9, 2)))));
    assert!(matches!(action, SetChannelAction::Finish));
    let mut digest_changed = record(3, 9, 1);
    digest_changed.digest[31] = 200;
    let (_, action) = confirming().step(SetChannelEvent::RecordRead(Ok(Some(digest_changed))));
    assert!(matches!(action, SetChannelAction::Finish));
    let (_, action) = confirming().step(SetChannelEvent::RecordRead(Ok(Some(record(3, 9, 1)))));
    assert!(reply_text(&action).is_some());
}

#[test]
fn failed_probe_deletion_ends_with_its_error() {
    let (state, _) = start_prefix(Some("77"), Some(5));
    let (state, _) = state.step(SetChannelEvent::ProbeSent(Ok(())));
    let (state, action) = state.step(SetChannelEvent::ProbeDeleted(Err("gone".to_string())));
    assert!(state.is_finished());
    assert!(matches!(action, SetChannelAction::FailWithLastError));
}

#[test]
fn slash_store_failures_end_with_their_error() {
    let (state, _) = start_slash(9, Some(3));
    let (_, action) = state.step(SetChannelEvent::RecordRead(Err("locked".to_string())));
    assert!(matches!(action, SetChannelAction::FailWithLastError));
    let (state, _) = start_slash(9, Some(3));
    let (state, _) = state.step(SetChannelEvent::RecordRead(Ok(None)));
    let (_, action) = state.step(SetChannelEvent::RecordWritten(Err("full".to_string())));
    assert!(matches!(action, SetChannelAction::FailWithLastError));
    let (_, action) = confirming().step(SetChannelEvent::RecordRead(Err("locked".to_string())));
    assert!(matches!(action, SetChannelAction::FailWithLastError));
}

#[test]
fn slash_run_confirms_with_its_own_text() {
    let mut records = HashMap::new();
    let (state, action) = start_slash(9, Some(3));
    assert!(matches!(action, SetChannelAction::ReadRecord { guild: 3 }));
    let last = run(state, action, &mut records);
    assert_eq!(
        reply_text(&last),
        Some("Channel successfully establisted as the Hourly Fortune channel!")
    );
    assert_eq!(records.get(&3).map(|r| r.channel), Some(9));
}

#[test]
fn slash_channel_outside_guild_fails() {
    let (state, action) = start_slash(9, None);
    assert!(state.is_finished());
    assert!(matches!(action, SetChannelAction::Fail(GuildAccessError::SetChannel)));
}

#[test]
fn unexpected_event_ends_the_run() {
    let (state, _) = start_slash(9, Some(3));
    let (state, action) = state.step(SetChannelEvent::ProbeDeleted(Ok(())));
    assert!(state.is_finished());
    assert!(matches!(action, SetChannelAction::Finish));
    let (state, action) = state.step(SetChannelEvent::RecordWritten(Ok(record(3, 9, 1))));
    assert!(state.is_finished());
    assert!(matches!(action, SetChannelAction::Finish));
}

#[test]
fn decimal_text_of_an_id_names_that_id() {
    for id in [1u64, 9, 10, 4_000_000_000, u64::MAX] {
        let text = hourly_fortune::text::decimal(id);
        let (_, action) = start_prefix(Some(text.as_str()), Some(1));
        assert!(matches!(action, SetChannelAction::SendProbe { channel } if channel == id));
    }
}
