use hourly_fortune::channels::{
    established_reply, no_channel_reply, no_guild_reply, probe_text, remove_error_reply,
    removed_reply, send_error_reply, slash_established_reply, FortuneChannel, GuildAccessError,
};
use hourly_fortune::commands::{
    cow_reply, explode_reply, not_implemented_reply, route_interaction, Data,
    ShardManagerContainer, SlashCommand,
};
use hourly_fortune::cows::{
    checked_cow_choices, cow_choices, cow_listing_command, cow_names, cowsay_slash_command, naming_command, resolve_cow,
    CowChoice,
};
use hourly_fortune::schedule::{hourly_post_due, post_channels, LoopGuard};

#[test]
fn listing_command_is_the_cow_list_pipeline() {
    let cl = cow_listing_command();
    assert_eq!(cl.program, "sh");
    assert_eq!(
        cl.args,
        vec!["-c".to_string(), "cowsay -l | tail -n +2 | sed 's/ /\\n/g' | head -25".to_string()]
    );
}

#[test]
fn cow_names_are_the_listed_lines() {
    assert_eq!(cow_names("apt\nbud-frogs\nbunny\n"), vec!["apt", "bud-frogs", "bunny"]);
    assert_eq!(cow_names("  tux  "), vec!["tux"]);
    assert_eq!(cow_names(""), vec![""]);
    assert_eq!(cow_names("a\n\nb"), vec!["a", "", "b"]);
}

fn strings(v: &[&str]) -> Vec<String> {
    v.iter().map(|s| s.to_string()).collect()
}

/// Choices for the given cow names and naming-script outputs.
fn choices(names: &[&str], outputs: &[&str]) -> Vec<CowChoice> {
    cow_choices(&strings(names), &strings(outputs))
}

#[test]
fn naming_command_substitutes_the_cow() {
    let cl = naming_command("bud-frogs");
    assert_eq!(cl.program, "sh");
    assert_eq!(
        cl.args,
        vec![
            "-c".to_string(),
            "echo \"bud-frogs\" | sed 's/-/ /g' | awk '{for(i=1;i<=NF;i++){ $i=toupper(substr($i,1,1)) substr($i,2) }}1' | sed 's/ //g'".to_string()
        ]
    );
}

#[test]
fn choices_pair_names_with_trimmed_outputs() {
    let c = choices(&["apt", "bud-frogs", "default"], &["Apt\n", " BudFrogs\n", "Default"]);
    let pairs: Vec<(&str, &str)> = c.iter().map(|c| (c.variant.as_str(), c.name.as_str())).collect();
    assert_eq!(pairs, vec![("Apt", "apt"), ("BudFrogs", "bud-frogs"), ("Default", "default")]);
}

#[test]
fn choices_need_identifier_names() {
    let names = strings(&["a", "b"]);
    assert!(checked_cow_choices(&names, &strings(&["A\n", "B\n"])).is_some());
    assert!(checked_cow_choices(&names, &strings(&["A\n", "\n"])).is_none());
    assert!(checked_cow_choices(&names, &strings(&["A", "enum"])).is_none());
    assert!(checked_cow_choices(&names, &strings(&["1cow", "B"])).is_none());
    assert!(checked_cow_choices(&names, &strings(&["Small Cow", "B"])).is_none());
    assert!(checked_cow_choices(&names, &strings(&["Self", "B"])).is_none());
    assert!(checked_cow_choices(&names, &strings(&["Ünicorn", "_b"])).is_some());
    assert_eq!(checked_cow_choices(&Vec::new(), &Vec::new()).map(|v| v.len()), Some(0));
}

#[test]
fn resolving_choices() {
    let choices = choices(&["apt", "bud-frogs", "bud--frogs"], &["Apt", "BudFrogs", "BudFrogs"]);
    assert_eq!(resolve_cow(&choices, None), Some("default".to_string()));
    assert_eq!(resolve_cow(&choices, Some("BudFrogs")), Some("bud-frogs".to_string()));
    assert_eq!(resolve_cow(&choices, Some("Apt")), Some("apt".to_string()));
    assert_eq!(resolve_cow(&choices, Some("apt")), None);
    assert_eq!(resolve_cow(&Vec::<CowChoice>::new(), Some("Apt")), None);
}

#[test]
fn slash_cowsay_command_line() {
    let choices = choices(&["apt", "bud-frogs"], &["Apt", "BudFrogs"]);
    let msg = "moo".to_string();
    let cl = cowsay_slash_command(&msg, &choices, Some("BudFrogs")).unwrap();
    assert_eq!(cl.program, "cowsay");
    assert_eq!(cl.args, vec!["-f", "bud-frogs", "--", "moo"]);
    let default = cowsay_slash_command(&msg, &choices, None).unwrap();
    assert_eq!(default.args, vec!["-f", "default", "--", "moo"]);
    assert!(cowsay_slash_command(&msg, &choices, Some("Nope")).is_none());
}

#[test]
fn hourly_post_at_the_top_of_the_hour() {
    assert!(hourly_post_due(0));
    assert!(!hourly_post_due(60));
    assert!(hourly_post_due(3600));
    assert!(hourly_post_due(3659));
    assert!(!hourly_post_due(3599));
    assert!(hourly_post_due(-3600));
    assert!(!hourly_post_due(-1));
    assert!(!hourly_post_due(1_700_000_000));
    assert!(hourly_post_due(1_699_999_200));
    assert!(!hourly_post_due(i64::MAX));
    assert!(!hourly_post_due(i64::MIN));
}

#[test]
fn hourly_post_needs_a_date_chrono_can_hold() {
    assert!(hourly_post_due(-8_334_601_228_800));
    assert!(!hourly_post_due(-8_334_601_232_400));
    assert!(hourly_post_due(8_210_266_873_200));
    assert!(!hourly_post_due(8_210_266_876_800));
}

#[test]
fn checks_a_minute_apart_post_once_per_hour() {
    for start in [0i64, 30, 59, 1_700_000_017] {
        let due: Vec<i64> = (0..(5 * 60)).map(|k| start + 60 * k).filter(|t| hourly_post_due(*t)).collect();
        let hours: Vec<i64> = due.iter().map(|t| t.div_euclid(3600)).collect();
        let mut distinct = hours.clone();
        distinct.dedup();
        assert_eq!(hours, distinct);
        assert_eq!(due.len(), 5);
    }
}

#[test]
fn post_channels_lists_every_record() {
    let records = vec![FortuneChannel::new(1, 10), FortuneChannel::new(2, 20)];
    assert_eq!(post_channels(&records), vec![10, 20]);
    assert_eq!(post_channels(&Vec::new()), Vec::<u64>::new());
}

#[test]
fn loops_start_once() {
    let mut guard = LoopGuard::new();
    assert!(!guard.is_running());
    assert!(guard.cache_ready());
    assert!(guard.is_running());
    assert!(!guard.cache_ready());
    assert!(!guard.cache_ready());
}

#[test]
fn records_and_errors() {
    let r = FortuneChannel::new(7, 70);
    assert_eq!(r.guild(), 7);
    assert_eq!(r.channel(), 70);
    assert_eq!(r.channel, 70);
    assert_eq!(r.natural_id(), 7);
    assert_eq!(GuildAccessError::SetChannel.message(), "No server associated with channel");
    assert_eq!(GuildAccessError::RemoveChannel.message(), "Server ID not accessable from message");
}

#[test]
fn routing_slash_commands() {
    assert_eq!(route_interaction("cowsay"), SlashCommand::Cowsay);
    assert_eq!(route_interaction("ping"), SlashCommand::Ping);
    assert_eq!(route_interaction("Cowsay"), SlashCommand::Unknown);
    assert_eq!(route_interaction(""), SlashCommand::Unknown);
    assert_eq!(not_implemented_reply(), "not implemented :(");
}

#[test]
fn simple_replies() {
    assert_eq!(cow_reply(Some("moo")), "```moo```");
    assert_eq!(cow_reply(None), "Something went wrong executing cowsay!");
    assert_eq!(explode_reply(), "https://tenor.com/view/explode-boom-explosion-gif-17473499");
    let _data = Data {};
    let _key = ShardManagerContainer;
}

#[test]
fn channel_command_replies() {
    assert_eq!(probe_text(), "test");
    assert_eq!(
        established_reply("<#1>"),
        "<#1> successfully established as the Hourly Fortune channel!"
    );
    assert_eq!(
        slash_established_reply(),
        "Channel successfully establisted as the Hourly Fortune channel!"
    );
    assert_eq!(send_error_reply("x", "boom"), "Error sending message in x! Error message: boom");
    assert_eq!(no_guild_reply(), "Server ID not accessable from message!");
    assert_eq!(removed_reply(), "Channel successfully removed!");
    assert_eq!(remove_error_reply("io"), "Error removing channel! Error message: io");
    assert_eq!(
        no_channel_reply(),
        "No channel set! Set a channel for hourly fortunes using the `set_channel` command!"
    );
}
