use redactor::filter::{
    append_id_list, is_blacklisted, is_whitelisted, parse_continuation_file, parse_date,
    parse_timestamp, ConfigError, FilterConfig, Selection,
};
use redactor::model::{Channel, ChannelKind, Date, Guild, Message, Timestamp};

fn channel(id: u64, kind: &str, guild: Option<u64>) -> Channel {
    Channel {
        id,
        name: None,
        kind: ChannelKind::from_type_name(kind.to_string()),
        guild: guild.map(|g| Guild { id: g, name: "g".to_string() }),
        recipients: None,
    }
}

fn config() -> FilterConfig {
    FilterConfig {
        delete_guilds: true,
        delete_dms: true,
        delete_groups: true,
        after: None,
        before: None,
        delete_list: vec![],
        preserve_list: vec![],
    }
}

fn date(year: i32, month: u32, day: u32) -> Date {
    Date { year, month, day }
}

fn message(content: &str, attachments: &str, day: Date) -> Message {
    Message {
        id: 1,
        timestamp: Timestamp { date: day, hour: 12, minute: 0, second: 0 },
        content: content.to_string(),
        attachments: attachments.to_string(),
    }
}

#[test]
fn channel_kinds_are_read_from_type_names() {
    assert!(matches!(ChannelKind::from_type_name("GUILD_TEXT".to_string()), ChannelKind::Guild));
    assert!(matches!(ChannelKind::from_type_name("DM".to_string()), ChannelKind::DirectMessage));
    assert!(matches!(
        ChannelKind::from_type_name("GROUP_DM".to_string()),
        ChannelKind::GroupDirectMessage
    ));
    match ChannelKind::from_type_name("GUILD_VOICE".to_string()) {
        ChannelKind::Other(s) => assert_eq!(s, "GUILD_VOICE"),
        other => panic!("unexpected {:?}", other),
    }
}

#[test]
fn guildless_channel_is_listed_by_its_own_id_only() {
    let c = channel(5, "DM", None);
    assert!(is_blacklisted(&vec![5], &c));
    assert!(!is_blacklisted(&vec![6, 7], &c));
    assert!(is_whitelisted(&vec![5], &c));
    assert!(!is_whitelisted(&vec![6], &c));
}

#[test]
fn guild_channel_is_listed_by_its_guild_id() {
    let c = channel(5, "GUILD_TEXT", Some(9));
    assert!(is_blacklisted(&vec![9], &c));
    assert!(is_whitelisted(&vec![1, 9], &c));
    assert!(!is_whitelisted(&vec![1, 2], &c));
}

#[test]
fn empty_allow_list_allows_every_channel() {
    assert!(is_whitelisted(&vec![], &channel(5, "DM", None)));
    assert!(!is_blacklisted(&vec![], &channel(5, "DM", None)));
}

#[test]
fn selection_tests_category_then_allow_list_then_deny_list() {
    let mut c = config();
    c.delete_guilds = false;
    assert_eq!(c.channel_selection(&channel(1, "GUILD_TEXT", Some(2))), Selection::CategoryDisabled);
    assert_eq!(c.channel_selection(&channel(1, "DM", None)), Selection::Selected);
    assert_eq!(c.channel_selection(&channel(1, "SOMETHING", None)), Selection::Selected);
    let mut c = config();
    c.delete_dms = false;
    assert_eq!(c.channel_selection(&channel(1, "DM", None)), Selection::CategoryDisabled);
    let mut c = config();
    c.delete_groups = false;
    assert_eq!(c.channel_selection(&channel(1, "GROUP_DM", None)), Selection::CategoryDisabled);
    let mut c = config();
    c.delete_list = vec![3];
    assert_eq!(c.channel_selection(&channel(1, "DM", None)), Selection::NotAllowed);
    assert_eq!(c.channel_selection(&channel(3, "DM", None)), Selection::Selected);
    let mut c = config();
    c.preserve_list = vec![2];
    assert_eq!(c.channel_selection(&channel(1, "GUILD_TEXT", Some(2))), Selection::Preserved);
}

#[test]
fn both_lists_non_empty_is_a_configuration_error() {
    let mut base = config();
    base.preserve_list = vec![1];
    base.delete_list = vec![2];
    assert!(matches!(FilterConfig::assemble(base, None, None), Err(ConfigError::ConflictingLists)));
    let mut base = config();
    base.preserve_list = vec![1];
    assert!(matches!(
        FilterConfig::assemble(base, None, Some("7\n")),
        Err(ConfigError::ConflictingLists)
    ));
}

#[test]
fn assembly_adds_file_ids() {
    let mut base = config();
    base.preserve_list = vec![1];
    let c = FilterConfig::assemble(base, Some(" 2\n3 \n"), Some("  \n")).unwrap();
    assert_eq!(c.preserve_list, vec![1, 2, 3]);
    assert!(c.delete_list.is_empty());
}

#[test]
fn assembly_checks_dates_first() {
    let mut base = config();
    base.after = Some(date(2024, 5, 2));
    base.before = Some(date(2024, 5, 1));
    base.preserve_list = vec![1];
    base.delete_list = vec![2];
    assert!(matches!(FilterConfig::assemble(base, Some("x"), None), Err(ConfigError::DateRange)));
    let mut base = config();
    base.after = Some(date(2024, 5, 1));
    base.before = Some(date(2024, 5, 1));
    assert!(FilterConfig::assemble(base, None, None).is_ok());
}

#[test]
fn assembly_reports_a_bad_id_line() {
    match FilterConfig::assemble(config(), Some("12\n"), Some("4\nx\n")) {
        Err(ConfigError::InvalidId(line)) => assert_eq!(line, "x"),
        other => panic!("unexpected {:?}", other),
    }
    match FilterConfig::assemble(config(), Some("12\nabc\n"), None) {
        Err(ConfigError::InvalidId(line)) => assert_eq!(line, "abc"),
        other => panic!("unexpected {:?}", other),
    }
}

#[test]
fn id_list_lines_are_trimmed() {
    let mut list = vec![9];
    append_id_list(&mut list, "\n 1 \r\n+2\n3\n\n").unwrap();
    assert_eq!(list, vec![9, 1, 2, 3]);
}

#[test]
fn id_list_rejects_inner_blank_line_and_keeps_list() {
    let mut list = vec![9];
    assert_eq!(append_id_list(&mut list, "1\n\n2").unwrap_err(), "");
    assert_eq!(append_id_list(&mut list, "1\n x1 \n y").unwrap_err(), " x1 ");
    assert!(append_id_list(&mut list, "18446744073709551616").is_err());
    assert!(append_id_list(&mut list, "-1").is_err());
    assert_eq!(list, vec![9]);
    append_id_list(&mut list, "18446744073709551615").unwrap();
    assert_eq!(list, vec![9, u64::MAX]);
}

#[test]
fn whitespace_only_id_list_adds_nothing() {
    let mut list = vec![];
    append_id_list(&mut list, " \n\t ").unwrap();
    assert!(list.is_empty());
}

#[test]
fn continuation_file_skips_blank_lines() {
    assert_eq!(parse_continuation_file("1\n\n 2 \n").unwrap(), vec![1, 2]);
    assert_eq!(parse_continuation_file("").unwrap(), Vec::<u64>::new());
    assert_eq!(parse_continuation_file("5\nnope\n").unwrap_err(), "nope");
}

#[test]
fn dates_are_read_as_year_month_day() {
    assert_eq!(parse_date("2023-07-04").unwrap(), date(2023, 7, 4));
    assert!(matches!(parse_date("2023-13-01"), Err(ConfigError::InvalidDate(_))));
    assert!(matches!(parse_date("yesterday"), Err(ConfigError::InvalidDate(t)) if t == "yesterday"));
}

#[test]
fn timestamps_are_read_to_the_second() {
    let t = parse_timestamp("2021-03-04 05:06:07").unwrap();
    assert_eq!(t, Timestamp { date: date(2021, 3, 4), hour: 5, minute: 6, second: 7 });
    assert!(parse_timestamp("2021-03-04").is_none());
}

#[test]
fn date_bounds_are_inclusive() {
    let mut c = config();
    c.after = Some(date(2022, 1, 10));
    c.before = Some(date(2022, 1, 20));
    assert!(c.is_message_eligible(&message("hi", "", date(2022, 1, 10))));
    assert!(c.is_message_eligible(&message("hi", "", date(2022, 1, 20))));
    assert!(!c.is_message_eligible(&message("hi", "", date(2022, 1, 9))));
    assert!(!c.is_message_eligible(&message("hi", "", date(2022, 1, 21))));
    assert!(!c.is_message_eligible(&message("hi", "", date(2021, 12, 31))));
}

#[test]
fn messages_without_content_or_attachments_are_skipped() {
    let c = config();
    assert!(!c.is_message_eligible(&message("", "", date(2022, 1, 1))));
    assert!(c.is_message_eligible(&message("", "https://cdn/x.png", date(2022, 1, 1))));
    assert!(c.is_message_eligible(&message("x", "", date(2022, 1, 1))));
}
