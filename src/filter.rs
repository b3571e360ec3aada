//! Which channels and messages of the export become work: the filter
//! configuration, its assembly, and the channel and message tests.
use crate::model::{date_le, Channel, ChannelKind, Date, Message, MessageView, Timestamp};
use crate::text::{first_bad_line, parse_id_lines, split_lines, to_chars, trim, ids_of_lines, trimmed};
use chrono::{Datelike, Timelike};
use vstd::prelude::*;

verus! {

/// Why the filter configuration cannot be assembled.
#[derive(Debug)]
pub enum ConfigError {
    /// A date bound that is not written `YYYY-MM-DD`; holds the text.
    InvalidDate(String),
    /// The `after` bound falls after the `before` bound.
    DateRange,
    /// A line of an id list file that is not an id.
    InvalidId(String),
    /// Both an allow-list and a deny-list were given.
    ConflictingLists,
}

/// Which channels and messages are acted on.
#[derive(Debug)]
pub struct FilterConfig {
    pub delete_guilds: bool,
    pub delete_dms: bool,
    pub delete_groups: bool,
    /// Messages of days before this one are left alone.
    pub after: Option<Date>,
    /// Messages of days after this one are left alone.
    pub before: Option<Date>,
    /// The allow-list: channel or guild ids; when empty, every channel is allowed.
    pub delete_list: Vec<u64>,
    /// The deny-list: channel or guild ids whose messages are preserved.
    pub preserve_list: Vec<u64>,
}

/// Whether the channel's own id, or the id of its guild, is in `list`.
pub open spec fn listed(list: Seq<u64>, channel: Channel) -> bool {
    ||| list.contains(channel.id)
    ||| (channel.guild is Some && list.contains(channel.guild->Some_0.id))
}

/// A channel without a guild is matched against a list by its own id alone.
pub proof fn lemma_guildless_channel_listed_by_own_id(list: Seq<u64>, channel: Channel)
    requires
        channel.guild is None,
    ensures
        listed(list, channel) <==> list.contains(channel.id),
{
}

fn contains_id(list: &Vec<u64>, id: u64) -> (r: bool)
    ensures
        r == list@.contains(id),
{
    let mut i: usize = 0;
    while i < list.len()
        invariant
            i <= list@.len(),
            forall|k: int| 0 <= k < i ==> list@[k] != id,
        decreases list@.len() - i,
    {
        if list[i] == id {
            assert(list@[i as int] == id);
            return true;
        }
        i = i + 1;
    }
    false
}

/// Whether the channel is in the deny-list, by its id or its guild's id.
pub fn is_blacklisted(preserve_list: &Vec<u64>, channel: &Channel) -> (r: bool)
    ensures
        r == listed(preserve_list@, *channel),
{
    if contains_id(preserve_list, channel.id) {
        return true;
    }
    if let Some(guild) = &channel.guild {
        if contains_id(preserve_list, guild.id) {
            return true;
        }
    }
    false
}

/// Whether the channel passes the allow-list: an empty list lets every channel pass.
pub fn is_whitelisted(delete_list: &Vec<u64>, channel: &Channel) -> (r: bool)
    ensures
        r == (delete_list@.len() == 0 || listed(delete_list@, *channel)),
{
    if delete_list.len() == 0 {
        return true;
    }
    if contains_id(delete_list, channel.id) {
        return true;
    }
    if let Some(guild) = &channel.guild {
        if contains_id(delete_list, guild.id) {
            return true;
        }
    }
    false
}

/// What the filter decides for one channel, in the order the tests are made.
#[derive(Clone, Copy, Debug, PartialEq, Eq, Structural)]
pub enum Selection {
    Selected,
    /// Its category (guild, direct or group) is switched off.
    CategoryDisabled,
    /// The allow-list is not empty and names neither the channel nor its guild.
    NotAllowed,
    /// The deny-list names the channel or its guild.
    Preserved,
}

impl FilterConfig {
    /// Whether messages of channels of this kind are acted on.
    pub open spec fn category_enabled(&self, kind: ChannelKind) -> bool {
        match kind {
            ChannelKind::Guild => self.delete_guilds,
            ChannelKind::DirectMessage => self.delete_dms,
            ChannelKind::GroupDirectMessage => self.delete_groups,
            ChannelKind::Other(_) => true,
        }
    }

    pub open spec fn selection_of(&self, channel: Channel) -> Selection {
        if !self.category_enabled(channel.kind) {
            Selection::CategoryDisabled
        } else if !(self.delete_list@.len() == 0 || listed(self.delete_list@, channel)) {
            Selection::NotAllowed
        } else if listed(self.preserve_list@, channel) {
            Selection::Preserved
        } else {
            Selection::Selected
        }
    }

    /// Decides whether the channel's messages become work: first its category, then
    /// the allow-list, then the deny-list.
    pub fn channel_selection(&self, channel: &Channel) -> (r: Selection)
        ensures
            r == self.selection_of(*channel),
    {
        let enabled = match &channel.kind {
            ChannelKind::Guild => self.delete_guilds,
            ChannelKind::DirectMessage => self.delete_dms,
            ChannelKind::GroupDirectMessage => self.delete_groups,
            ChannelKind::Other(_) => true,
        };
        if !enabled {
            Selection::CategoryDisabled
        } else if !is_whitelisted(&self.delete_list, channel) {
            Selection::NotAllowed
        } else if is_blacklisted(&self.preserve_list, channel) {
            Selection::Preserved
        } else {
            Selection::Selected
        }
    }

    /// Whether the day of `t` lies within the date bounds, both inclusive.
    pub open spec fn in_date_range(&self, t: Timestamp) -> bool {
        &&& (self.after is Some ==> date_le(self.after->Some_0, t.date))
        &&& (self.before is Some ==> date_le(t.date, self.before->Some_0))
    }

    /// Whether a message is acted on: its day is within the bounds, and it has
    /// content or attachments (one with neither is a system message).
    pub open spec fn eligible(&self, m: MessageView) -> bool {
        &&& self.in_date_range(m.timestamp)
        &&& (m.content.len() > 0 || m.attachments.len() > 0)
    }

    pub fn is_message_eligible(&self, m: &Message) -> (r: bool)
        ensures
            r == self.eligible(m@),
    {
        if let Some(after) = &self.after {
            if !after.on_or_before(&m.timestamp.date) {
                return false;
            }
        }
        if let Some(before) = &self.before {
            if !m.timestamp.date.on_or_before(before) {
                return false;
            }
        }
        m.content.unicode_len() > 0 || m.attachments.unicode_len() > 0
    }

    /// Completes a configuration from the contents of the id list files: the
    /// date bounds are checked first, then each file's ids are added to its list,
    /// and the two lists may not both be non-empty.
    pub fn assemble(
        base: FilterConfig,
        preserve_file: Option<&str>,
        delete_file: Option<&str>,
    ) -> (r: Result<FilterConfig, ConfigError>)
        ensures
            ({
                let bad_range = base.after is Some && base.before is Some && !date_le(
                    base.after->Some_0,
                    base.before->Some_0,
                );
                let pre = file_ids_or_none(preserve_file);
                let del = file_ids_or_none(delete_file);
                let pre_list = base.preserve_list@ + pre->Some_0;
                let del_list = base.delete_list@ + del->Some_0;
                &&& (bad_range <==> r matches Err(ConfigError::DateRange))
                &&& (!bad_range && (pre is None || del is None) <==> r matches Err(
                    ConfigError::InvalidId(_),
                ))
                &&& (!bad_range && pre is Some && del is Some && pre_list.len() > 0
                    && del_list.len() > 0 <==> r matches Err(ConfigError::ConflictingLists))
                &&& (r matches Err(ConfigError::InvalidId(line)) ==> line@ == if pre is None {
                    first_bad_line(split_lines(trimmed(preserve_file->Some_0@)), false)
                } else {
                    first_bad_line(split_lines(trimmed(delete_file->Some_0@)), false)
                })
                &&& (r matches Ok(c) ==> {
                    &&& c.delete_guilds == base.delete_guilds
                    &&& c.delete_dms == base.delete_dms
                    &&& c.delete_groups == base.delete_groups
                    &&& c.after == base.after
                    &&& c.before == base.before
                    &&& c.preserve_list@ == pre_list
                    &&& c.delete_list@ == del_list
                })
            }),
            r is Ok ==> r->Ok_0.preserve_list@.len() == 0 || r->Ok_0.delete_list@.len() == 0,
            base.preserve_list@.len() > 0 && base.delete_list@.len() > 0 ==> r is Err,
    {
        let mut base = base;
        if let (Some(after), Some(before)) = (&base.after, &base.before) {
            if !after.on_or_before(before) {
                return Err(ConfigError::DateRange);
            }
        }
        if let Some(content) = preserve_file {
            if let Err(line) = append_id_list(&mut base.preserve_list, content) {
                return Err(ConfigError::InvalidId(line));
            }
        }
        if let Some(content) = delete_file {
            if let Err(line) = append_id_list(&mut base.delete_list, content) {
                return Err(ConfigError::InvalidId(line));
            }
        }
        if base.preserve_list.len() > 0 && base.delete_list.len() > 0 {
            return Err(ConfigError::ConflictingLists);
        }
        Ok(base)
    }
}

/// The ids of an id list file: the whole text trimmed, then one id per line, each
/// line trimmed; a text of whitespace alone lists none.
pub open spec fn file_ids(content: Seq<char>) -> Option<Seq<u64>> {
    if trimmed(content).len() == 0 {
        Some(Seq::<u64>::empty())
    } else {
        ids_of_lines(split_lines(trimmed(content)), false)
    }
}

/// The ids of an optional file; no file lists none.
pub open spec fn file_ids_or_none(content: Option<&str>) -> Option<Seq<u64>> {
    match content {
        Some(c) => file_ids(c@),
        None => Some(Seq::<u64>::empty()),
    }
}

/// Adds the ids of an id list file to `list`; on an error, holding the first line
/// that is not an id, `list` is left as it was.
pub fn append_id_list(list: &mut Vec<u64>, file_content: &str) -> (r: Result<(), String>)
    ensures
        r is Ok <==> file_ids(file_content@) is Some,
        r is Ok ==> final(list)@ == old(list)@ + file_ids(file_content@)->Some_0,
        r is Err ==> final(list)@ == old(list)@,
        r matches Err(line) ==> line@ == first_bad_line(split_lines(trimmed(file_content@)), false),
{
    let t = trim(file_content);
    if t.unicode_len() == 0 {
        assert(old(list)@ + Seq::<u64>::empty() =~= old(list)@);
        return Ok(());
    }
    let chars = to_chars(t);
    match parse_id_lines(&chars, false) {
        Ok(ids) => {
            let mut ids = ids;
            list.append(&mut ids);
            Ok(())
        },
        Err(line) => Err(line),
    }
}

/// The ids of a continuation file: one per line, each line trimmed, blank lines
/// skipped; the error holds the first line that is not an id.
pub fn parse_continuation_file(content: &str) -> (r: Result<Vec<u64>, String>)
    ensures
        r is Ok <==> ids_of_lines(split_lines(content@), true) is Some,
        r is Ok ==> r->Ok_0@ == ids_of_lines(split_lines(content@), true)->Some_0,
        r matches Err(line) ==> line@ == first_bad_line(split_lines(content@), true),
{
    let chars = to_chars(content);
    parse_id_lines(&chars, true)
}

/// The day that `s` writes as `YYYY-MM-DD`, if it writes one.
pub uninterp spec fn date_written(s: Seq<char>) -> Option<Date>;

/// The time that `s` writes as `YYYY-MM-DD HH:MM:SS`, if it writes one.
pub uninterp spec fn timestamp_written(s: Seq<char>) -> Option<Timestamp>;

/// Relies on chrono's `NaiveDate::parse_from_str` with the format `%Y-%m-%d`: the
/// day written, when the text is one.
#[verifier::external_body]
fn read_date(s: &str) -> (r: Option<Date>)
    ensures
        r == date_written(s@),
{
    match chrono::NaiveDate::parse_from_str(s, "%Y-%m-%d") {
        Ok(d) => Some(Date { year: d.year(), month: d.month(), day: d.day() }),
        Err(_) => None,
    }
}

/// Relies on chrono's `NaiveDateTime::parse_from_str` with the format
/// `%Y-%m-%d %H:%M:%S`: the time written, when the text is one.
#[verifier::external_body]
fn read_timestamp(s: &str) -> (r: Option<Timestamp>)
    ensures
        r == timestamp_written(s@),
{
    match chrono::NaiveDateTime::parse_from_str(s, "%Y-%m-%d %H:%M:%S") {
        Ok(t) => Some(
            Timestamp {
                date: Date { year: t.year(), month: t.month(), day: t.day() },
                hour: t.hour(),
                minute: t.minute(),
                second: t.second(),
            },
        ),
        Err(_) => None,
    }
}

/// Reads a date bound written `YYYY-MM-DD`.
pub fn parse_date(s: &str) -> (r: Result<Date, ConfigError>)
    ensures
        r is Ok <==> date_written(s@) is Some,
        r is Ok ==> r->Ok_0 == date_written(s@)->Some_0,
        r matches Err(ConfigError::InvalidDate(t)) ==> t@ == s@,
        r is Err ==> r->Err_0 is InvalidDate,
{
    match read_date(s) {
        Some(d) => Ok(d),
        None => Err(ConfigError::InvalidDate(s.to_owned())),
    }
}

/// Reads a message time written `YYYY-MM-DD HH:MM:SS`; `None` when it is not one.
pub fn parse_timestamp(s: &str) -> (r: Option<Timestamp>)
    ensures
        r == timestamp_written(s@),
{
    read_timestamp(s)
}

} // verus!
