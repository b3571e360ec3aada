//! The records of a message export: channels, guilds, messages and calendar dates.
use vstd::prelude::*;

verus! {

/// A calendar day, as the year, month (1 to 12) and day of month (1 to 31).
#[derive(Clone, Copy, Debug, PartialEq, Eq, Structural)]
pub struct Date {
    pub year: i32,
    pub month: u32,
    pub day: u32,
}

/// A point in time of the export, with second precision (UTC).
#[derive(Clone, Copy, Debug, PartialEq, Eq, Structural)]
pub struct Timestamp {
    pub date: Date,
    pub hour: u32,
    pub minute: u32,
    pub second: u32,
}

/// Calendar order on days: by year, then month, then day.
pub open spec fn date_le(a: Date, b: Date) -> bool {
    ||| a.year < b.year
    ||| (a.year == b.year && a.month < b.month)
    ||| (a.year == b.year && a.month == b.month && a.day <= b.day)
}

impl Date {
    /// Whether `self` falls on or before `other`.
    pub fn on_or_before(&self, other: &Date) -> (r: bool)
        ensures
            r == date_le(*self, *other),
    {
        if self.year != other.year {
            self.year < other.year
        } else if self.month != other.month {
            self.month < other.month
        } else {
            self.day <= other.day
        }
    }
}

/// A guild (server) that owns channels.
#[derive(Debug)]
pub struct Guild {
    pub id: u64,
    pub name: String,
}

/// What kind of conversation a channel is, read once from the export's type name.
#[derive(Debug)]
pub enum ChannelKind {
    Guild,
    DirectMessage,
    GroupDirectMessage,
    Other(String),
}

/// One channel of the export.
#[derive(Debug)]
pub struct Channel {
    pub id: u64,
    pub name: Option<String>,
    pub kind: ChannelKind,
    pub guild: Option<Guild>,
    pub recipients: Option<Vec<String>>,
}

/// The export's name of a guild text channel.
pub const GUILD_TEXT: &'static str = "GUILD_TEXT";
/// The export's name of a direct-message channel.
pub const DIRECT_MESSAGE: &'static str = "DM";
/// The export's name of a group direct-message channel.
pub const GROUP_DIRECT_MESSAGE: &'static str = "GROUP_DM";

/// The kind that an export type name stands for.
pub open spec fn kind_of(name: Seq<char>) -> ChannelKindTag {
    if name == GUILD_TEXT@ {
        ChannelKindTag::Guild
    } else if name == DIRECT_MESSAGE@ {
        ChannelKindTag::DirectMessage
    } else if name == GROUP_DIRECT_MESSAGE@ {
        ChannelKindTag::GroupDirectMessage
    } else {
        ChannelKindTag::Other
    }
}

/// The variant of a `ChannelKind`, without its payload.
#[derive(Clone, Copy, Debug, PartialEq, Eq, Structural)]
pub enum ChannelKindTag {
    Guild,
    DirectMessage,
    GroupDirectMessage,
    Other,
}

impl ChannelKind {
    pub open spec fn tag(&self) -> ChannelKindTag {
        match self {
            ChannelKind::Guild => ChannelKindTag::Guild,
            ChannelKind::DirectMessage => ChannelKindTag::DirectMessage,
            ChannelKind::GroupDirectMessage => ChannelKindTag::GroupDirectMessage,
            ChannelKind::Other(_) => ChannelKindTag::Other,
        }
    }

    /// Reads the export's type name of a channel; an unknown name is kept as it is.
    pub fn from_type_name(name: String) -> (r: ChannelKind)
        ensures
            r.tag() == kind_of(name@),
            r is Other ==> r->Other_0@ == name@,
    {
        if same_text(name.as_str(), GUILD_TEXT) {
            ChannelKind::Guild
        } else if same_text(name.as_str(), DIRECT_MESSAGE) {
            ChannelKind::DirectMessage
        } else if same_text(name.as_str(), GROUP_DIRECT_MESSAGE) {
            ChannelKind::GroupDirectMessage
        } else {
            ChannelKind::Other(name)
        }
    }
}

/// Whether two texts hold the same characters.
pub fn same_text(a: &str, b: &str) -> (r: bool)
    ensures
        r == (a@ == b@),
{
    let n = a.unicode_len();
    if n != b.unicode_len() {
        return false;
    }
    let mut i: usize = 0;
    while i < n
        invariant
            n == a@.len(),
            n == b@.len(),
            i <= n,
            forall|k: int| 0 <= k < i ==> a@[k] == b@[k],
        decreases n - i,
    {
        if a.get_char(i) != b.get_char(i) {
            return false;
        }
        i = i + 1;
    }
    assert(a@ =~= b@);
    true
}

/// What the library reads of a message.
pub struct MessageView {
    pub id: u64,
    pub timestamp: Timestamp,
    pub content: Seq<char>,
    pub attachments: Seq<char>,
}

/// One message of the export.
#[derive(Debug)]
pub struct Message {
    pub id: u64,
    pub timestamp: Timestamp,
    pub content: String,
    /// The export's attachment field; empty when the message has none.
    pub attachments: String,
}

impl View for Message {
    type V = MessageView;

    open spec fn view(&self) -> MessageView {
        MessageView {
            id: self.id,
            timestamp: self.timestamp,
            content: self.content@,
            attachments: self.attachments@,
        }
    }
}

impl Message {
    /// A copy of the message.
    pub fn duplicate(&self) -> (r: Message)
        ensures
            r@ == self@,
    {
        Message {
            id: self.id,
            timestamp: self.timestamp,
            content: self.content.clone(),
            attachments: self.attachments.clone(),
        }
    }
}

/// How each selected message is treated.
#[derive(Clone, Copy, Debug, PartialEq, Eq, Structural)]
pub enum DeletionMode {
    /// The message is deleted.
    Delete,
    /// The message is edited to random filler words.
    RandomWords,
    /// The message is edited to a quotation of the corpus.
    Shakespeare,
}

} // verus!
