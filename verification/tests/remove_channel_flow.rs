use hourly_fortune::channels::{Dialect, GuildAccessError, StoredRecord};
use hourly_fortune::remove_channel::{
    start_remove, RemoveChannelAction, RemoveChannelEvent, RemoveChannelState,
};
use hourly_fortune::set_channel::{start_slash, SetChannelAction, SetChannelEvent};
use std::collections::HashMap;

fn reply_text(a: &RemoveChannelAction) -> Option<&str> {
    match a {
        RemoveChannelAction::Reply(t) => Some(t.as_str()),
        _ => None,
    }
}

fn record(guild: u64, channel: u64) -> StoredRecord {
    StoredRecord { id: guild, revision: 1, digest: [0; 32], guild, channel }
}

fn run(
    dialect: Dialect,
    guild: Option<u64>,
    records: &mut HashMap<u64, StoredRecord>,
) -> RemoveChannelAction {
    let (mut state, mut action) = start_remove(dialect, guild);
    loop {
        let event = match &action {
            RemoveChannelAction::ReadRecord { guild } => {
                RemoveChannelEvent::RecordRead(Ok(records.get(guild).copied()))
            }
            RemoveChannelAction::DeleteRecord { guild } => {
                records.remove(guild);
                RemoveChannelEvent::RecordDeleted(Ok(()))
            }
            _ => return action,
        };
        let (s, a) = state.step(event);
        state = s;
        action = a;
    }
}

#[test]
fn removes_an_existing_record() {
    let mut records = HashMap::from([(5u64, record(5, 10)), (6u64, record(6, 11))]);
    let last = run(Dialect::Prefix, Some(5), &mut records);
    assert_eq!(reply_text(&last), Some("Channel successfully removed!"));
    assert_eq!(records.keys().copied().collect::<Vec<u64>>(), vec![6]);
}

#[test]
fn removing_twice_reports_no_channel() {
    let mut records = HashMap::from([(5u64, record(5, 10))]);
    run(Dialect::Slash, Some(5), &mut records);
    let last = run(Dialect::Slash, Some(5), &mut records);
    assert_eq!(
        reply_text(&last),
        Some("No channel set! Set a channel for hourly fortunes using the `set_channel` command!")
    );
    assert!(records.is_empty());
}

#[test]
fn outside_a_guild() {
    let (state, action) = start_remove(Dialect::Prefix, None);
    assert!(state == RemoveChannelState::Finished);
    assert_eq!(reply_text(&action), Some("Server ID not accessable from message!"));
    let (state, action) = start_remove(Dialect::Slash, None);
    assert!(state == RemoveChannelState::Finished);
    assert!(matches!(action, RemoveChannelAction::Fail(GuildAccessError::RemoveChannel)));
}

#[test]
fn failed_delete() {
    let state = RemoveChannelState::Deleting { dialect: Dialect::Prefix, guild: 5 };
    let (state, action) = state.step(RemoveChannelEvent::RecordDeleted(Err("disk full".to_string())));
    assert!(state == RemoveChannelState::Finished);
    assert_eq!(reply_text(&action), Some("Error removing channel! Error message: disk full"));
    let state = RemoveChannelState::Deleting { dialect: Dialect::Slash, guild: 5 };
    let (_, action) = state.step(RemoveChannelEvent::RecordDeleted(Err("disk full".to_string())));
    assert!(matches!(action, RemoveChannelAction::FailWithLastError));
}

#[test]
fn read_leads_to_delete() {
    let (state, action) = start_remove(Dialect::Prefix, Some(4));
    assert!(matches!(action, RemoveChannelAction::ReadRecord { guild: 4 }));
    let (state, action) = state.step(RemoveChannelEvent::RecordRead(Ok(Some(record(4, 1)))));
    assert!(state == RemoveChannelState::Deleting { dialect: Dialect::Prefix, guild: 4 });
    assert!(matches!(action, RemoveChannelAction::DeleteRecord { guild: 4 }));
}

#[test]
fn slash_read_failure_ends_with_its_error() {
    let (state, _) = start_remove(Dialect::Slash, Some(4));
    let (state, action) = state.step(RemoveChannelEvent::RecordRead(Err("locked".to_string())));
    assert!(state == RemoveChannelState::Finished);
    assert!(matches!(action, RemoveChannelAction::FailWithLastError));
}

#[test]
fn unexpected_event_ends_the_removal() {
    let (state, _) = start_remove(Dialect::Prefix, Some(4));
    let (state, action) = state.step(RemoveChannelEvent::RecordDeleted(Ok(())));
    assert!(state == RemoveChannelState::Finished);
    assert!(matches!(action, RemoveChannelAction::Finish));
}

#[test]
fn set_then_remove_leaves_other_guilds() {
    let mut records = HashMap::from([(6u64, record(6, 11))]);
    let (mut state, mut action) = start_slash(40, Some(5));
    loop {
        let event = match &action {
            SetChannelAction::ReadRecord { guild } => {
                SetChannelEvent::RecordRead(Ok(records.get(guild).copied()))
            }
            SetChannelAction::InsertRecord { guild, channel }
            | SetChannelAction::UpdateRecord { guild, channel } => {
                let written = record(*guild, *channel);
                records.insert(*guild, written);
                SetChannelEvent::RecordWritten(Ok(written))
            }
            _ => break,
        };
        let (s, a) = state.step(event);
        state = s;
        action = a;
    }
    assert_eq!(records.get(&5).map(|r| r.channel), Some(40));
    let last = run(Dialect::Prefix, Some(5), &mut records);
    assert_eq!(reply_text(&last), Some("Channel successfully removed!"));
    assert_eq!(records.keys().copied().collect::<Vec<u64>>(), vec![6]);
}
