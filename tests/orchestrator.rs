use redactor::client::{Action, ActionOutcome, FatalError};
use redactor::filter::{FilterConfig, Selection};
use redactor::model::{Channel, ChannelKind, Date, DeletionMode, Guild, Message, Timestamp};
use redactor::orchestrator::{get_displayname, work_items, Command, Orchestrator, Redaction, Response};
use std::collections::HashMap;

fn config() -> FilterConfig {
    FilterConfig {
        delete_guilds: true,
        delete_dms: true,
        delete_groups: true,
        after: None,
        before: None,
        delete_list: vec![],
        preserve_list: vec![],
    }
}

fn redaction(mode: DeletionMode) -> Redaction {
    Redaction {
        mode,
        preserve_attachments: false,
        words: vec!["alpha".to_string(), "beta".to_string()],
        emojis: vec!["smile".to_string()],
        corpus: vec![],
    }
}

fn message(id: u64, content: &str, day: u32) -> Message {
    Message {
        id,
        timestamp: Timestamp { date: Date { year: 2024, month: 1, day }, hour: 0, minute: 0, second: 0 },
        content: content.to_string(),
        attachments: String::new(),
    }
}

fn guild_channel(id: u64) -> Channel {
    Channel {
        id,
        name: Some("general".to_string()),
        kind: ChannelKind::from_type_name("GUILD_TEXT".to_string()),
        guild: Some(Guild { id: 900, name: "guild".to_string() }),
        recipients: None,
    }
}

struct Calls {
    deletes: usize,
    edits: usize,
}

/// Runs the orchestrator to the end, answering each attempt with `answer`.
fn drive(o: &mut Orchestrator, mut answer: impl FnMut(usize) -> ActionOutcome) -> Calls {
    let mut calls = Calls { deletes: 0, edits: 0 };
    let mut n = 0;
    loop {
        match o.next() {
            Command::Finished => return calls,
            Command::Perform { action, .. } => {
                match action {
                    Action::Delete => calls.deletes += 1,
                    Action::Edit { .. } => calls.edits += 1,
                }
                let outcome = answer(n);
                n += 1;
                o.report(&outcome);
            }
        }
    }
}

#[test]
fn response_of_each_outcome() {
    assert_eq!(Response::ok(), Response { success: true, retry: false });
    assert_eq!(Response::from_outcome(&ActionOutcome::RateLimited(5)), Response { success: false, retry: true });
    assert_eq!(
        Response::from_outcome(&ActionOutcome::Fatal(FatalError::Transport("x".to_string()))),
        Response { success: false, retry: false }
    );
}

#[test]
fn work_items_keep_channel_then_message_order() {
    let groups = vec![
        (guild_channel(1), vec![message(10, "a", 1), message(11, "b", 1)]),
        (guild_channel(2), vec![]),
        (guild_channel(3), vec![message(30, "c", 1)]),
    ];
    let items = work_items(&groups);
    let ids: Vec<(u64, usize, u64)> = items.iter().map(|w| (w.channel_id, w.channel_index, w.message.id)).collect();
    assert_eq!(ids, vec![(1, 0, 10), (1, 0, 11), (3, 2, 30)]);
}

#[test]
fn rate_limited_then_success_takes_two_attempts() {
    let groups = vec![(guild_channel(1), vec![message(10, "hello", 1)])];
    let mut o = Orchestrator::new(work_items(&groups), config(), redaction(DeletionMode::Delete));
    let mut progress_after = vec![];
    let mut n = 0;
    loop {
        match o.next() {
            Command::Finished => break,
            Command::Perform { item, .. } => {
                assert_eq!(item, 0);
                let outcome = if n == 0 { ActionOutcome::RateLimited(10) } else { ActionOutcome::Success };
                n += 1;
                let r = o.report(&outcome);
                assert_eq!(r.retry, n == 1);
                progress_after.push(o.progress());
            }
        }
    }
    assert_eq!(n, 2);
    assert_eq!(o.attempts(), 2);
    assert_eq!(progress_after, vec![0, 1]);
    assert!(o.failed_messages().is_empty());
}

#[test]
fn fatal_is_not_retried_and_is_summarised() {
    let groups = vec![(guild_channel(1), vec![message(10, "secret text", 1)])];
    let mut o = Orchestrator::new(work_items(&groups), config(), redaction(DeletionMode::Delete));
    let calls = drive(&mut o, |_| ActionOutcome::Fatal(FatalError::Transport("x".to_string())));
    assert_eq!(calls.deletes, 1);
    assert_eq!(o.attempts(), 1);
    assert_eq!(o.progress(), 1);
    assert_eq!(o.failed_messages().len(), 1);
    assert_eq!(o.failed_messages()[0].id, 10);
    assert_eq!(o.failed_messages()[0].content, "secret text");
}

#[test]
fn one_guild_channel_of_three_messages_is_deleted() {
    let c = config();
    let channel = guild_channel(1);
    assert_eq!(c.channel_selection(&channel), Selection::Selected);
    let groups = vec![(channel, vec![message(1, "a", 1), message(2, "b", 2), message(3, "c", 3)])];
    let mut o = Orchestrator::new(work_items(&groups), c, redaction(DeletionMode::Delete));
    let calls = drive(&mut o, |_| ActionOutcome::Success);
    assert_eq!(calls.deletes, 3);
    assert_eq!(calls.edits, 0);
    assert!(o.failed_messages().is_empty());
    assert_eq!(o.progress(), 3);
}

#[test]
fn ineligible_messages_are_skipped_without_a_call() {
    let mut c = config();
    c.after = Some(Date { year: 2024, month: 1, day: 2 });
    let groups = vec![(guild_channel(1), vec![message(1, "old", 1), message(2, "", 5), message(3, "new", 3)])];
    let mut o = Orchestrator::new(work_items(&groups), c, redaction(DeletionMode::Delete));
    let mut seen = vec![];
    loop {
        match o.next() {
            Command::Finished => break,
            Command::Perform { item, .. } => {
                seen.push(item);
                o.report(&ActionOutcome::Success);
            }
        }
    }
    assert_eq!(seen, vec![2]);
    assert_eq!(o.progress(), 3);
}

#[test]
fn random_words_mode_edits() {
    let groups = vec![(guild_channel(1), vec![message(1, "a", 1), message(2, "b", 1)])];
    let mut o = Orchestrator::new(work_items(&groups), config(), redaction(DeletionMode::RandomWords));
    let calls = drive(&mut o, |_| ActionOutcome::Success);
    assert_eq!((calls.deletes, calls.edits), (0, 2));
}

#[test]
fn missing_quote_fails_without_a_call() {
    let groups = vec![(guild_channel(1), vec![message(1, "a", 1)])];
    let mut o = Orchestrator::new(work_items(&groups), config(), redaction(DeletionMode::Shakespeare));
    let calls = drive(&mut o, |_| ActionOutcome::Success);
    assert_eq!((calls.deletes, calls.edits), (0, 0));
    assert_eq!(o.failed_messages().len(), 1);
}

#[test]
fn display_names_are_cached() {
    let mut cache = HashMap::new();
    let mut fetches = 0;
    let name = get_displayname(&mut cache, 7, |id| {
        fetches += 1;
        Ok(format!("user{id}"))
    });
    assert_eq!(name, "user7");
    let name = get_displayname(&mut cache, 7, |_| -> Result<String, String> { panic!("cached") });
    assert_eq!(name, "user7");
    assert_eq!(fetches, 1);
    let name = get_displayname(&mut cache, 8, |_| Err("boom".to_string()));
    assert_eq!(name, "<unknown user>");
    assert!(!cache.contains_key(&8));
}

#[test]
fn empty_word_list_fails_every_item_without_a_call() {
    let groups = vec![(guild_channel(1), vec![message(1, "a", 1), message(2, "b", 1)])];
    let mut r = redaction(DeletionMode::RandomWords);
    r.words.clear();
    let mut o = Orchestrator::new(work_items(&groups), config(), r);
    assert!(matches!(o.next(), Command::Finished));
    assert_eq!(o.failed_messages().len(), 2);
    assert_eq!(o.progress(), 2);
}
