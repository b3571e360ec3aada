//! Drives the work queue: each message goes through its own state machine
//! (pending, attempting, then succeeded or failed), one at a time. The caller
//! performs each action and hands back how it ended; a rate-limited attempt is
//! retried after the wait, without limit, and a fatal one is recorded for the
//! final summary and never retried.
use crate::client::{Action, ActionOutcome};
use crate::filter::FilterConfig;
use crate::model::{Channel, DeletionMode, Message, MessageView};
use crate::quotes::{
    bucket, bucket_length, byte_len, fits_everywhere, generate_shakespeare, is_quote_for,
    lemma_same_bucket,
};
use crate::redact::{generate_redacted, is_filler};
use std::collections::HashMap;
use vstd::prelude::*;

verus! {

broadcast use vstd::std_specs::hash::group_hash_axioms;

/// What one attempt tells the loop: whether the message is done with, and whether
/// it is to be attempted again.
#[derive(Clone, Copy, Debug, PartialEq, Eq, Structural)]
pub struct Response {
    pub success: bool,
    pub retry: bool,
}

impl Response {
    pub fn ok() -> (r: Response)
        ensures
            r.success && !r.retry,
    {
        Response { success: true, retry: false }
    }

    pub open spec fn of(outcome: ActionOutcome) -> Response {
        match outcome {
            ActionOutcome::Success => Response { success: true, retry: false },
            ActionOutcome::RateLimited(_) => Response { success: false, retry: true },
            ActionOutcome::Fatal(_) => Response { success: false, retry: false },
        }
    }

    /// A success ends the message; a rate limit asks for another attempt; a fatal
    /// error ends it as failed.
    pub fn from_outcome(outcome: &ActionOutcome) -> (r: Response)
        ensures
            r == Response::of(*outcome),
    {
        match outcome {
            ActionOutcome::Success => Response::ok(),
            ActionOutcome::RateLimited(_) => Response { success: false, retry: true },
            ActionOutcome::Fatal(_) => Response { success: false, retry: false },
        }
    }
}

/// How each message is treated, with what the replacement text is made from.
#[derive(Debug)]
pub struct Redaction {
    pub mode: DeletionMode,
    pub preserve_attachments: bool,
    /// The words of filler text.
    pub words: Vec<String>,
    /// The emoji names of filler text.
    pub emojis: Vec<String>,
    /// The corpus of quotations.
    pub corpus: Vec<u8>,
}

impl Redaction {
    /// Whether an eligible message may fail without an attempt: in the quote mode
    /// (no fitting quote found), or in the filler mode with no words or emojis.
    pub open spec fn may_fail_early(&self) -> bool {
        ||| self.mode is Shakespeare
        ||| self.fails_always()
    }

    /// Whether no replacement text can ever be made: the filler mode with no words
    /// or no emojis.
    pub open spec fn fails_always(&self) -> bool {
        self.mode is RandomWords && (self.words@.len() == 0 || self.emojis@.len() == 0)
    }

    /// Whether `action` is one that this redaction may take on a message of
    /// `length` UTF-8 bytes.
    pub open spec fn allows(&self, length: nat, action: Action) -> bool {
        match self.mode {
            DeletionMode::Delete => action is Delete,
            DeletionMode::RandomWords => action matches Action::Edit { content, preserve_attachments }
                && preserve_attachments == self.preserve_attachments && is_filler(
                self.words@,
                self.emojis@,
                content@,
            ),
            DeletionMode::Shakespeare => action matches Action::Edit {
                content,
                preserve_attachments,
            } && preserve_attachments == self.preserve_attachments && is_quote_for(
                self.corpus@,
                length,
                content@,
            ) && 0 < content@.len() && byte_len(content@) <= bucket(length),
        }
    }

    /// The action for a message: a deletion, or an edit to new filler text or to a
    /// fitting quote. `None` when no replacement text could be made: the word or
    /// emoji list is empty, or no fitting quote was found.
    pub fn action_for(&self, message: &Message) -> (r: Option<Action>)
        ensures
            r matches Some(a) ==> self.allows(byte_len(message.content@), a),
            self.mode is Delete ==> r is Some,
            self.mode is Shakespeare && fits_everywhere(self.corpus@, byte_len(message.content@))
                ==> r is Some,
            self.mode is RandomWords ==> (r is Some <==> self.words@.len() > 0
                && self.emojis@.len() > 0),
    {
        match self.mode {
            DeletionMode::Delete => Some(Action::Delete),
            DeletionMode::RandomWords => {
                if self.words.len() == 0 || self.emojis.len() == 0 {
                    return None;
                }
                let content = generate_redacted(&self.words, &self.emojis);
                Some(Action::Edit { content, preserve_attachments: self.preserve_attachments })
            },
            DeletionMode::Shakespeare => {
                let length = bucket_length(message.content.as_str());
                proof {
                    lemma_same_bucket(self.corpus@, length as nat, byte_len(message.content@));
                }
                match generate_shakespeare(length, &self.corpus) {
                    Some(content) => Some(
                        Action::Edit { content, preserve_attachments: self.preserve_attachments },
                    ),
                    None => None,
                }
            },
        }
    }
}

/// A message to act on, with the channel it belongs to.
#[derive(Debug)]
pub struct WorkItem {
    pub channel_id: u64,
    /// The channel's place in the list of channel groups.
    pub channel_index: usize,
    pub message: Message,
}

pub struct WorkItemView {
    pub channel_id: u64,
    pub channel_index: usize,
    pub message: MessageView,
}

impl View for WorkItem {
    type V = WorkItemView;

    open spec fn view(&self) -> WorkItemView {
        WorkItemView {
            channel_id: self.channel_id,
            channel_index: self.channel_index,
            message: self.message@,
        }
    }
}

pub open spec fn items_view(items: Seq<WorkItem>) -> Seq<WorkItemView> {
    items.map_values(|w: WorkItem| w@)
}

pub open spec fn messages_view(ms: Seq<Message>) -> Seq<MessageView> {
    ms.map_values(|m: Message| m@)
}

/// The work items of one channel group, in its message order.
pub open spec fn group_items(group: (Channel, Vec<Message>), index: int) -> Seq<WorkItemView> {
    group.1@.map_values(
        |m: Message| WorkItemView { channel_id: group.0.id, channel_index: index as usize, message: m@ },
    )
}

/// The work items of the first `n` groups: group by group, each in message order.
pub open spec fn flatten(groups: Seq<(Channel, Vec<Message>)>, n: int) -> Seq<WorkItemView>
    decreases n,
{
    if n <= 0 {
        Seq::<WorkItemView>::empty()
    } else {
        flatten(groups, n - 1) + group_items(groups[n - 1], n - 1)
    }
}

/// One work item per message, in channel order, then in each channel's message order.
pub fn work_items(groups: &Vec<(Channel, Vec<Message>)>) -> (r: Vec<WorkItem>)
    ensures
        items_view(r@) == flatten(groups@, groups@.len() as int),
{
    let mut items: Vec<WorkItem> = Vec::new();
    let mut i: usize = 0;
    while i < groups.len()
        invariant
            i <= groups@.len(),
            items_view(items@) == flatten(groups@, i as int),
        decreases groups@.len() - i,
    {
        let channel_id = groups[i].0.id;
        let messages = &groups[i].1;
        let ghost before = items_view(items@);
        let mut j: usize = 0;
        while j < messages.len()
            invariant
                i < groups@.len(),
                messages == &groups@[i as int].1,
                channel_id == groups@[i as int].0.id,
                j <= messages@.len(),
                items_view(items@) == before + group_items(groups@[i as int], i as int).take(j as int),
            decreases messages@.len() - j,
        {
            let item = WorkItem { channel_id, channel_index: i, message: messages[j].duplicate() };
            let ghost prev = items@;
            items.push(item);
            proof {
                assert(items_view(items@) =~= items_view(prev).push(item@));
                assert(group_items(groups@[i as int], i as int).take(j as int + 1) =~= group_items(
                    groups@[i as int],
                    i as int,
                ).take(j as int).push(item@));
            }
            j = j + 1;
        }
        proof {
            assert(group_items(groups@[i as int], i as int).take(j as int) =~= group_items(
                groups@[i as int],
                i as int,
            ));
        }
        i = i + 1;
    }
    items
}

/// The messages of the eligible items in `lo..hi`.
pub open spec fn eligible_between(
    config: FilterConfig,
    items: Seq<WorkItemView>,
    lo: int,
    hi: int,
) -> Seq<MessageView>
    decreases hi - lo,
{
    if hi <= lo {
        Seq::<MessageView>::empty()
    } else if config.eligible(items[hi - 1].message) {
        eligible_between(config, items, lo, hi - 1).push(items[hi - 1].message)
    } else {
        eligible_between(config, items, lo, hi - 1)
    }
}

/// What the caller does next.
#[derive(Debug)]
pub enum Command {
    /// Attempt `action` on the work item at `item`, then `report` how it ended.
    Perform { item: usize, action: Action },
    /// Every item is done with.
    Finished,
}

/// The run over a work queue. Items before `cursor` are done with; the item at
/// `cursor` is pending, or being attempted when `attempting`.
pub struct Orchestrator {
    items: Vec<WorkItem>,
    config: FilterConfig,
    redaction: Redaction,
    cursor: usize,
    attempting: bool,
    awaiting: bool,
    attempts: u64,
    progress: u64,
    failed: Vec<Message>,
}

impl Orchestrator {
    pub closed spec fn items(&self) -> Seq<WorkItemView> {
        items_view(self.items@)
    }

    pub closed spec fn config(&self) -> FilterConfig {
        self.config
    }

    pub closed spec fn redaction(&self) -> Redaction {
        self.redaction
    }

    /// The place of the current item; the number of items done with.
    pub closed spec fn cursor(&self) -> nat {
        self.cursor as nat
    }

    /// Whether the current item has been attempted and is not done with.
    pub closed spec fn is_attempting(&self) -> bool {
        self.attempting
    }

    /// Whether an attempt was handed out and its outcome is awaited.
    pub closed spec fn is_awaiting(&self) -> bool {
        self.awaiting
    }

    /// Attempts made on the current item.
    pub closed spec fn attempt_count(&self) -> nat {
        self.attempts as nat
    }

    /// Items done with: succeeded, failed or skipped.
    pub closed spec fn progress_count(&self) -> nat {
        self.progress as nat
    }

    /// The messages that failed for good, in order.
    pub closed spec fn failures(&self) -> Seq<MessageView> {
        messages_view(self.failed@)
    }

    pub closed spec fn wf(&self) -> bool {
        &&& self.cursor <= self.items@.len()
        &&& self.progress == self.cursor
        &&& (self.attempting ==> self.cursor < self.items@.len())
        &&& (self.awaiting ==> self.attempting)
    }

    /// A run over `items`, with nothing done yet.
    pub fn new(items: Vec<WorkItem>, config: FilterConfig, redaction: Redaction) -> (r: Orchestrator)
        ensures
            r.wf(),
            r.items() == items_view(items@),
            r.config() == config,
            r.redaction() == redaction,
            r.cursor() == 0,
            !r.is_attempting(),
            !r.is_awaiting(),
            r.progress_count() == 0,
            r.failures() == Seq::<MessageView>::empty(),
    {
        let r = Orchestrator {
            items,
            config,
            redaction,
            cursor: 0,
            attempting: false,
            awaiting: false,
            attempts: 0,
            progress: 0,
            failed: Vec::new(),
        };
        assert(messages_view(r.failed@) =~= Seq::<MessageView>::empty());
        r
    }

    /// The work item at `index`.
    pub fn item(&self, index: usize) -> (r: &WorkItem)
        requires
            index < self.items().len(),
        ensures
            r@ == self.items()[index as int],
    {
        &self.items[index]
    }

    pub fn progress(&self) -> (r: u64)
        requires
            self.wf(),
        ensures
            r == self.progress_count(),
    {
        self.progress
    }

    pub fn attempts(&self) -> (r: u64)
        ensures
            r == self.attempt_count(),
    {
        self.attempts
    }

    /// The messages that failed for good, with their original content.
    pub fn failed_messages(&self) -> (r: &Vec<Message>)
        ensures
            messages_view(r@) == self.failures(),
    {
        &self.failed
    }

    /// The next attempt to make. Items that are not eligible are skipped as done;
    /// an item whose replacement text cannot be made fails without an attempt. The
    /// item of a rate-limited attempt is attempted again.
    pub fn next(&mut self) -> (r: Command)
        requires
            old(self).wf(),
            !old(self).is_awaiting(),
        ensures
            final(self).wf(),
            final(self).items() == old(self).items(),
            final(self).config() == old(self).config(),
            final(self).redaction() == old(self).redaction(),
            old(self).cursor() <= final(self).cursor(),
            final(self).failures() == old(self).failures() + eligible_between(
                old(self).config(),
                old(self).items(),
                old(self).cursor() as int,
                final(self).cursor() as int,
            ),
            final(self).progress_count() == final(self).cursor(),
            final(self).progress_count() == old(self).progress_count() + (final(self).cursor()
                - old(self).cursor()),
            forall|k: int|
                old(self).cursor() <= k < final(self).cursor() && old(self).config().eligible(
                    #[trigger] old(self).items()[k].message,
                ) ==> old(self).redaction().may_fail_early(),
            old(self).redaction().fails_always() ==> r is Finished,
            r is Finished ==> final(self).cursor() == final(self).items().len()
                && !final(self).is_awaiting(),
            r matches Command::Perform { item, action } ==> item == final(self).cursor()
                && item < final(self).items().len() && final(self).is_awaiting(),
            r matches Command::Perform { item, action } ==> final(self).config().eligible(
                final(self).items()[item as int].message,
            ),
            r matches Command::Perform { item, action } ==> final(self).redaction().allows(
                byte_len(final(self).items()[item as int].message.content),
                action,
            ),
            r matches Command::Perform { item, action } ==> (old(self).is_attempting() && item
                == old(self).cursor() ==> final(self).attempt_count() == old(self).attempt_count()
                + 1 || old(self).attempt_count() == u64::MAX),
            r matches Command::Perform { item, action } ==> (!(old(self).is_attempting() && item
                == old(self).cursor()) ==> final(self).attempt_count() == 1),
    {
        let ghost start = self.cursor as int;
        let ghost failed0 = messages_view(self.failed@);
        while self.cursor < self.items.len()
            invariant
                self.wf(),
                !self.awaiting,
                self.items == old(self).items,
                self.config == old(self).config,
                self.redaction == old(self).redaction,
                old(self).cursor <= self.cursor,
                self.attempting ==> self.cursor == old(self).cursor && self.attempts == old(
                    self,
                ).attempts && old(self).attempting,
                messages_view(self.failed@) == failed0 + eligible_between(
                    self.config,
                    items_view(self.items@),
                    start,
                    self.cursor as int,
                ),
                old(self).attempting && self.cursor == old(self).cursor ==> self.attempting,
                old(self).progress == old(self).cursor,
                forall|k: int|
                    start <= k < self.cursor && self.config.eligible(
                        #[trigger] items_view(self.items@)[k].message,
                    ) ==> self.redaction.may_fail_early(),
                failed0 == messages_view(old(self).failed@),
                start == old(self).cursor,
            decreases self.items@.len() - self.cursor,
        {
            let i = self.cursor;
            let ghost iv = items_view(self.items@);
            assert(iv[i as int] == self.items@[i as int]@);
            if !self.config.is_message_eligible(&self.items[i].message) {
                self.cursor = i + 1;
                self.progress = self.progress + 1;
                self.attempting = false;
                assert(eligible_between(self.config, iv, start, i + 1) == eligible_between(
                    self.config,
                    iv,
                    start,
                    i as int,
                ));
            } else {
                match self.redaction.action_for(&self.items[i].message) {
                    Some(action) => {
                        if self.attempting {
                            self.attempts = self.attempts.saturating_add(1);
                        } else {
                            self.attempts = 1;
                        }
                        self.attempting = true;
                        self.awaiting = true;
                        return Command::Perform { item: i, action };
                    },
                    None => {
                        let ghost prev = self.failed@;
                        let m = self.items[i].message.duplicate();
                        self.failed.push(m);
                        proof {
                            assert(messages_view(self.failed@) =~= messages_view(prev).push(m@));
                        }
                        self.cursor = i + 1;
                        self.progress = self.progress + 1;
                        self.attempting = false;
                    },
                }
            }
        }
        Command::Finished
    }

    /// Records how the awaited attempt ended. A success or a fatal error ends the
    /// item (a fatal one is recorded with its message) and moves to the next; a
    /// rate limit keeps the item, to be attempted again after the wait.
    pub fn report(&mut self, outcome: &ActionOutcome) -> (r: Response)
        requires
            old(self).wf(),
            old(self).is_awaiting(),
        ensures
            final(self).wf(),
            r == Response::of(*outcome),
            !final(self).is_awaiting(),
            final(self).items() == old(self).items(),
            final(self).config() == old(self).config(),
            final(self).redaction() == old(self).redaction(),
            final(self).attempt_count() == old(self).attempt_count(),
            match *outcome {
                ActionOutcome::Success => {
                    &&& final(self).cursor() == old(self).cursor() + 1
                    &&& final(self).progress_count() == old(self).progress_count() + 1
                    &&& !final(self).is_attempting()
                    &&& final(self).failures() == old(self).failures()
                },
                ActionOutcome::RateLimited(_) => {
                    &&& final(self).cursor() == old(self).cursor()
                    &&& final(self).progress_count() == old(self).progress_count()
                    &&& final(self).is_attempting()
                    &&& final(self).failures() == old(self).failures()
                },
                ActionOutcome::Fatal(_) => {
                    &&& final(self).cursor() == old(self).cursor() + 1
                    &&& final(self).progress_count() == old(self).progress_count() + 1
                    &&& !final(self).is_attempting()
                    &&& final(self).failures() == old(self).failures().push(
                        old(self).items()[old(self).cursor() as int].message,
                    )
                },
            },
    {
        let r = Response::from_outcome(outcome);
        self.awaiting = false;
        if r.retry {
            return r;
        }
        let i = self.cursor;
        let n = self.items.len();
        assert(i < n);
        if !r.success {
            let ghost prev = self.failed@;
            let m = self.items[i].message.duplicate();
            self.failed.push(m);
            proof {
                assert(messages_view(self.failed@) =~= messages_view(prev).push(m@));
            }
        }
        self.cursor = i + 1;
        self.progress = self.progress + 1;
        self.attempting = false;
        r
    }
}

/// The name shown for a user whose display name could not be found.
pub const UNKNOWN_USER: &'static str = "<unknown user>";

/// A user's display name, from the run's cache, else from `fetch`: a fetched name
/// is remembered; a failed lookup gives `UNKNOWN_USER` and is not remembered.
pub fn get_displayname<F: FnOnce(u64) -> Result<String, String>>(
    cache: &mut HashMap<u64, String>,
    user_id: u64,
    fetch: F,
) -> (r: String)
    requires
        !old(cache)@.contains_key(user_id) ==> fetch.requires((user_id,)),
    ensures
        old(cache)@.contains_key(user_id) ==> r@ == old(cache)@[user_id]@ && final(cache)@ == old(
            cache,
        )@,
        !old(cache)@.contains_key(user_id) ==> exists|f: Result<String, String>|
            fetch.ensures((user_id,), f) && match f {
                Ok(name) => r@ == name@ && final(cache)@ == old(cache)@.insert(user_id, name),
                Err(_) => r@ == UNKNOWN_USER@ && final(cache)@ == old(cache)@,
            },
{
    if let Some(name) = cache.get(&user_id) {
        return name.clone();
    }
    let f = fetch(user_id);
    match f {
        Ok(name) => {
            let shown = name.clone();
            cache.insert(user_id, name);
            shown
        },
        Err(_) => UNKNOWN_USER.to_owned(),
    }
}

} // verus!
