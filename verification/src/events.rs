//! Slack real-time events and their decoding from the JSON text of a frame.
//!
//! A frame's text is read as a JSON object whose fields keep their order. The
//! first field names the event (`"type"`); the fields that the event declares
//! are read under their own keys.

use vstd::prelude::*;
use vstd::string::*;
use slack_api::{Bot, Channel, File, FileComment, Message, MessagePinnedItem, MessageUnpinnedItem, User};
use crate::decode::{decode_fields, decode_fields_spec, fields_undecided, users_read};
use crate::fields::{json_object_fields, json_object_fields_of};

verus! {

/// Represents Slack [rtm event](https://api.slack.com/rtm) types.
#[derive(Clone, Debug)]
pub enum Event {
    /// Represents the slack [`hello`](https://api.slack.com/events/hello) event.
    Hello,
    /// Represents the slack [`message`](https://api.slack.com/events/message)
    /// event.
    Message(Message),
    /// Represents the slack
    /// [`user_typing`](https://api.slack.com/events/user_typing) event.
    UserTyping { channel: String, user: String },
    /// Represents the slack
    /// [`channel_marked`](https://api.slack.com/events/channel_marked) event.
    ChannelMarked { channel: String, ts: String },
    /// Represents the slack
    /// [`channel_created`](https://api.slack.com/events/channel_created) event.
    ChannelCreated { channel: Channel },
    /// Represents the slack
    /// [`channel_joined`](https://api.slack.com/events/channel_joined) event.
    ChannelJoined { channel: Channel },
    /// Represents the slack
    /// [`channel_left`](https://api.slack.com/events/channel_left) event.
    ChannelLeft { channel: String },
    /// Represents the slack
    /// [`channel_deleted`](https://api.slack.com/events/channel_deleted) event.
    ChannelDeleted { channel: String },
    /// Represents the slack
    /// [`channel_rename`](https://api.slack.com/events/channel_rename) event.
    ChannelRename { channel: Channel },
    /// Represents the slack
    /// [`channel_archive`](https://api.slack.com/events/channel_archive) event.
    ChannelArchive { channel: String, user: String },
    /// Represents the slack
    /// [`channel_unarchive`](https://api.slack.com/events/channel_unarchive) event.
    ChannelUnArchive { channel: String, user: String },
    /// Represents the slack
    /// [`channel_history_changed`](https://api.slack.
    /// com/events/channel_history_changed) event.
    ChannelHistoryChanged {
        latest: String,
        ts: String,
        event_ts: String,
    },
    /// Represents the slack
    /// [`im_created`](https://api.slack.com/events/im_created) event.
    ImCreated { user: String, channel: Channel },
    /// Represents the slack [`im_open`](https://api.slack.com/events/im_open)
    /// event.
    ImOpen { user: String, channel: String },
    /// Represents the slack [`im_close`](https://api.slack.com/events/im_close)
    /// event.
    ImClose { user: String, channel: String },
    /// Represents the slack [`im_marked`](https://api.slack.com/events/im_marked)
    /// event.
    ImMarked { channel: String, ts: String },
    /// Represents the slack
    /// [`im_history_changed`](https://api.slack.com/events/im_history_changed)
    /// event.
    ImHistoryChanged {
        latest: String,
        ts: String,
        event_ts: String,
    },
    /// Represents the slack
    /// [`group_joined`](https://api.slack.com/events/group_joined) event.
    GroupJoined { channel: Channel },
    /// Represents the slack
    /// [`group_left`](https://api.slack.com/events/group_left) event.
    GroupLeft { channel: Channel },
    /// Represents the slack
    /// [`group_open`](https://api.slack.com/events/group_open) event.
    GroupOpen { user: String, channel: String },
    /// Represents the slack
    /// [`group_close`](https://api.slack.com/events/group_close) event.
    GroupClose { user: String, channel: String },
    /// Represents the slack
    /// [`group_archive`](https://api.slack.com/events/group_archive) event.
    GroupArchive { channel: String },
    /// Represents the slack
    /// [`group_unarchive`](https://api.slack.com/events/group_unarchive) event.
    GroupUnArchive { channel: String },
    /// Represents the slack
    /// [`group_rename`](https://api.slack.com/events/group_rename) event.
    GroupRename { channel: Channel },
    /// Represents the slack
    /// [`group_marked`](https://api.slack.com/events/group_marked) event.
    GroupMarked { channel: String, ts: String },
    /// Represents the slack
    /// [`group_history_changed`](https://api.slack.
    /// com/events/group_history_changed) event.
    GroupHistoryChanged {
        latest: String,
        ts: String,
        event_ts: String,
    },
    /// Represents the slack
    /// [`file_created`](https://api.slack.com/events/file_created) event.
    FileCreated { file: File },
    /// Represents the slack
    /// [`file_shared`](https://api.slack.com/events/file_shared) event.
    FileShared { file: File },
    /// Represents the slack
    /// [`file_unshared`](https://api.slack.com/events/file_unshared) event.
    FileUnShared { file: File },
    /// Represents the slack
    /// [`file_public`](https://api.slack.com/events/file_public) event.
    FilePublic { file: File },
    /// Represents the slack
    /// [`file_private`](https://api.slack.com/events/file_private) event.
    FilePrivate { file: String },
    /// Represents the slack
    /// [`file_change`](https://api.slack.com/events/file_change) event.
    FileChange { file: File },
    /// Represents the slack
    /// [`file_deleted`](https://api.slack.com/events/file_deleted) event.
    FileDeleted { file_id: String, event_ts: String },
    /// Represents the slack
    /// [`file_comment_added`](https://api.slack.com/events/file_comment_added)
    /// event.
    FileCommentAdded { file: File, comment: FileComment },
    /// Represents the slack
    /// [`file_comment_edited`](https://api.slack.com/events/file_comment_edited)
    /// event.
    FileCommentEdited { file: File, comment: FileComment },
    /// Represents the slack
    /// [`file_comment_deleted`](https://api.slack.com/events/file_comment_deleted)
    /// event.
    FileCommentDeleted { file: File, comment: String },
    /// Represents the slack [`pin_added`](https://api.slack.com/events/pin_added)
    /// event.
    PinAdded {
        user: String,
        channel_id: String,
        item: MessagePinnedItem,
        event_ts: String,
    },
    /// Represents the slack
    /// [`pin_removed`](https://api.slack.com/events/pin_removed) event.
    PinRemoved {
        user: String,
        channel_id: String,
        item: MessageUnpinnedItem,
        has_pins: bool,
        event_ts: String,
    },
    /// Represents the slack
    /// [`presence_change`](https://api.slack.com/events/presence_change) event.
    PresenceChange { user: String, presence: String },
    /// Represents the slack
    /// [`manual_presence_change`](https://api.slack.
    /// com/events/manual_presence_change) event.
    ManualPresenceChange { presence: String },
    /// Represents the slack
    /// [`pref_change`](https://api.slack.com/events/pref_change) event.
    PrefChange { name: String, value: String },
    /// Represents the slack
    /// [`user_change`](https://api.slack.com/events/user_change) event.
    UserChange { user: User },
    /// Represents the slack [`team_join`](https://api.slack.com/events/team_join)
    /// event.
    TeamJoin { user: User },
    /// Represents the slack
    /// [`star_added`](https://api.slack.com/events/star_added) event.
    StarAdded {
        user: String,
        item: slack_api::stars::ListResponseItem,
        event_ts: String,
    },
    /// Represents the slack
    /// [`star_removed`](https://api.slack.com/events/star_removed) event.
    StarRemoved {
        user: String,
        item: slack_api::stars::ListResponseItem,
        event_ts: String,
    },
    /// Represents the slack
    /// [`reaction_added`](https://api.slack.com/events/reaction_added) event.
    ReactionAdded {
        user: String,
        reaction: String,
        item: slack_api::reactions::ListResponseItem,
        item_user: String,
        event_ts: String,
    },
    /// Represents the slack
    /// [`reaction_removed`](https://api.slack.com/events/reaction_removed) event.
    ReactionRemoved {
        user: String,
        reaction: String,
        item: slack_api::reactions::ListResponseItem,
        item_user: String,
        event_ts: String,
    },
    /// Represents the slack
    /// [`emoji_changed`](https://api.slack.com/event/emoji_changed) event.
    EmojiChanged { event_ts: String },
    /// Represents the slack
    /// [`commands_changed`](https://api.slack.com/event/commands_changed) event.
    CommandsChanged { event_ts: String },
    /// Represents the slack
    /// [`team_plan_change`](https://api.slack.com/event/team_plan_change) event.
    TeamPlanChange { plan: String },
    /// Represents the slack
    /// [`team_pref_change`](https://api.slack.com/event/team_pref_change) event.
    TeamPrefChange { name: String, value: bool },
    /// Represents the slack
    /// [`team_rename`](https://api.slack.com/event/team_rename) event.
    TeamRename { name: String },
    /// Represents the slack
    /// [`team_domain_change`](https://api.slack.com/event/team_domain_change)
    /// event.
    TeamDomainChange { url: String, domain: String },
    /// Represents the slack
    /// [`email_domain_changeed`](https://api.slack.
    /// com/event/email_domain_changeed) event.
    EmailDomainChanged {
        email_domain: String,
        event_ts: String,
    },
    /// Represents the slack [`bot_added`](https://api.slack.com/event/bot_added)
    /// event.
    BotAdded { bot: Bot },
    /// Represents the slack
    /// [`bot_changed`](https://api.slack.com/event/bot_changed) event.
    BotChanged { bot: Bot },
    /// Represents the slack
    /// [`accounts_changed`](https://api.slack.com/event/accounts_changed) event.
    AccountsChanged,
    /// Represents the slack
    /// [`team_migration_started`](https://api.slack.
    /// com/event/team_migration_started) event.
    TeamMigrationStarted,
    /// Represents the slack
    /// [`reconnect_url`](https://api.slack.com/event/reconnect_url)
    /// event.
    ReconnectUrl,
    /// Represents a confirmation of a message sent
    MessageSent {
        reply_to: isize,
        ts: String,
        text: String,
    },
    /// Represents an error sending a message
    MessageError {
        reply_to: isize,
        code: isize,
        message: String,
    },
}

/// An [`Event`] with its strings taken by their views; the user that
/// `UserChange` and `TeamJoin` carry is left out, as it has no view.
pub enum EventView {
    Hello,
    Message(Message),
    UserTyping { channel: Seq<char>, user: Seq<char> },
    ChannelMarked { channel: Seq<char>, ts: Seq<char> },
    ChannelCreated { channel: Channel },
    ChannelJoined { channel: Channel },
    ChannelLeft { channel: Seq<char> },
    ChannelDeleted { channel: Seq<char> },
    ChannelRename { channel: Channel },
    ChannelArchive { channel: Seq<char>, user: Seq<char> },
    ChannelUnArchive { channel: Seq<char>, user: Seq<char> },
    ChannelHistoryChanged { latest: Seq<char>, ts: Seq<char>, event_ts: Seq<char> },
    ImCreated { user: Seq<char>, channel: Channel },
    ImOpen { user: Seq<char>, channel: Seq<char> },
    ImClose { user: Seq<char>, channel: Seq<char> },
    ImMarked { channel: Seq<char>, ts: Seq<char> },
    ImHistoryChanged { latest: Seq<char>, ts: Seq<char>, event_ts: Seq<char> },
    GroupJoined { channel: Channel },
    GroupLeft { channel: Channel },
    GroupOpen { user: Seq<char>, channel: Seq<char> },
    GroupClose { user: Seq<char>, channel: Seq<char> },
    GroupArchive { channel: Seq<char> },
    GroupUnArchive { channel: Seq<char> },
    GroupRename { channel: Channel },
    GroupMarked { channel: Seq<char>, ts: Seq<char> },
    GroupHistoryChanged { latest: Seq<char>, ts: Seq<char>, event_ts: Seq<char> },
    FileCreated { file: File },
    FileShared { file: File },
    FileUnShared { file: File },
    FilePublic { file: File },
    FilePrivate { file: Seq<char> },
    FileChange { file: File },
    FileDeleted { file_id: Seq<char>, event_ts: Seq<char> },
    FileCommentAdded { file: File, comment: FileComment },
    FileCommentEdited { file: File, comment: FileComment },
    FileCommentDeleted { file: File, comment: Seq<char> },
    PinAdded { user: Seq<char>, channel_id: Seq<char>, item: MessagePinnedItem, event_ts: Seq<char> },
    PinRemoved { user: Seq<char>, channel_id: Seq<char>, item: MessageUnpinnedItem, has_pins: bool, event_ts: Seq<char> },
    PresenceChange { user: Seq<char>, presence: Seq<char> },
    ManualPresenceChange { presence: Seq<char> },
    PrefChange { name: Seq<char>, value: Seq<char> },
    UserChange,
    TeamJoin,
    StarAdded { user: Seq<char>, item: slack_api::stars::ListResponseItem, event_ts: Seq<char> },
    StarRemoved { user: Seq<char>, item: slack_api::stars::ListResponseItem, event_ts: Seq<char> },
    ReactionAdded { user: Seq<char>, reaction: Seq<char>, item: slack_api::reactions::ListResponseItem, item_user: Seq<char>, event_ts: Seq<char> },
    ReactionRemoved { user: Seq<char>, reaction: Seq<char>, item: slack_api::reactions::ListResponseItem, item_user: Seq<char>, event_ts: Seq<char> },
    EmojiChanged { event_ts: Seq<char> },
    CommandsChanged { event_ts: Seq<char> },
    TeamPlanChange { plan: Seq<char> },
    TeamPrefChange { name: Seq<char>, value: bool },
    TeamRename { name: Seq<char> },
    TeamDomainChange { url: Seq<char>, domain: Seq<char> },
    EmailDomainChanged { email_domain: Seq<char>, event_ts: Seq<char> },
    BotAdded { bot: Bot },
    BotChanged { bot: Bot },
    AccountsChanged,
    TeamMigrationStarted,
    ReconnectUrl,
    MessageSent { reply_to: isize, ts: Seq<char>, text: Seq<char> },
    MessageError { reply_to: isize, code: isize, message: Seq<char> },
}

impl View for Event {
    type V = EventView;

    open spec fn view(&self) -> EventView {
        match self {
            Event::Hello => EventView::Hello,
            Event::Message(m) => EventView::Message(*m),
            Event::UserTyping { channel, user } => EventView::UserTyping { channel: channel@, user: user@ },
            Event::ChannelMarked { channel, ts } => EventView::ChannelMarked { channel: channel@, ts: ts@ },
            Event::ChannelCreated { channel } => EventView::ChannelCreated { channel: *channel },
            Event::ChannelJoined { channel } => EventView::ChannelJoined { channel: *channel },
            Event::ChannelLeft { channel } => EventView::ChannelLeft { channel: channel@ },
            Event::ChannelDeleted { channel } => EventView::ChannelDeleted { channel: channel@ },
            Event::ChannelRename { channel } => EventView::ChannelRename { channel: *channel },
            Event::ChannelArchive { channel, user } => EventView::ChannelArchive { channel: channel@, user: user@ },
            Event::ChannelUnArchive { channel, user } => EventView::ChannelUnArchive { channel: channel@, user: user@ },
            Event::ChannelHistoryChanged { latest, ts, event_ts } => EventView::ChannelHistoryChanged { latest: latest@, ts: ts@, event_ts: event_ts@ },
            Event::ImCreated { user, channel } => EventView::ImCreated { user: user@, channel: *channel },
            Event::ImOpen { user, channel } => EventView::ImOpen { user: user@, channel: channel@ },
            Event::ImClose { user, channel } => EventView::ImClose { user: user@, channel: channel@ },
            Event::ImMarked { channel, ts } => EventView::ImMarked { channel: channel@, ts: ts@ },
            Event::ImHistoryChanged { latest, ts, event_ts } => EventView::ImHistoryChanged { latest: latest@, ts: ts@, event_ts: event_ts@ },
            Event::GroupJoined { channel } => EventView::GroupJoined { channel: *channel },
            Event::GroupLeft { channel } => EventView::GroupLeft { channel: *channel },
            Event::GroupOpen { user, channel } => EventView::GroupOpen { user: user@, channel: channel@ },
            Event::GroupClose { user, channel } => EventView::GroupClose { user: user@, channel: channel@ },
            Event::GroupArchive { channel } => EventView::GroupArchive { channel: channel@ },
            Event::GroupUnArchive { channel } => EventView::GroupUnArchive { channel: channel@ },
            Event::GroupRename { channel } => EventView::GroupRename { channel: *channel },
            Event::GroupMarked { channel, ts } => EventView::GroupMarked { channel: channel@, ts: ts@ },
            Event::GroupHistoryChanged { latest, ts, event_ts } => EventView::GroupHistoryChanged { latest: latest@, ts: ts@, event_ts: event_ts@ },
            Event::FileCreated { file } => EventView::FileCreated { file: *file },
            Event::FileShared { file } => EventView::FileShared { file: *file },
            Event::FileUnShared { file } => EventView::FileUnShared { file: *file },
            Event::FilePublic { file } => EventView::FilePublic { file: *file },
            Event::FilePrivate { file } => EventView::FilePrivate { file: file@ },
            Event::FileChange { file } => EventView::FileChange { file: *file },
            Event::FileDeleted { file_id, event_ts } => EventView::FileDeleted { file_id: file_id@, event_ts: event_ts@ },
            Event::FileCommentAdded { file, comment } => EventView::FileCommentAdded { file: *file, comment: *comment },
            Event::FileCommentEdited { file, comment } => EventView::FileCommentEdited { file: *file, comment: *comment },
            Event::FileCommentDeleted { file, comment } => EventView::FileCommentDeleted { file: *file, comment: comment@ },
            Event::PinAdded { user, channel_id, item, event_ts } => EventView::PinAdded { user: user@, channel_id: channel_id@, item: *item, event_ts: event_ts@ },
            Event::PinRemoved { user, channel_id, item, has_pins, event_ts } => EventView::PinRemoved { user: user@, channel_id: channel_id@, item: *item, has_pins: *has_pins, event_ts: event_ts@ },
            Event::PresenceChange { user, presence } => EventView::PresenceChange { user: user@, presence: presence@ },
            Event::ManualPresenceChange { presence } => EventView::ManualPresenceChange { presence: presence@ },
            Event::PrefChange { name, value } => EventView::PrefChange { name: name@, value: value@ },
            Event::UserChange { .. } => EventView::UserChange,
            Event::TeamJoin { .. } => EventView::TeamJoin,
            Event::StarAdded { user, item, event_ts } => EventView::StarAdded { user: user@, item: *item, event_ts: event_ts@ },
            Event::StarRemoved { user, item, event_ts } => EventView::StarRemoved { user: user@, item: *item, event_ts: event_ts@ },
            Event::ReactionAdded { user, reaction, item, item_user, event_ts } => EventView::ReactionAdded { user: user@, reaction: reaction@, item: *item, item_user: item_user@, event_ts: event_ts@ },
            Event::ReactionRemoved { user, reaction, item, item_user, event_ts } => EventView::ReactionRemoved { user: user@, reaction: reaction@, item: *item, item_user: item_user@, event_ts: event_ts@ },
            Event::EmojiChanged { event_ts } => EventView::EmojiChanged { event_ts: event_ts@ },
            Event::CommandsChanged { event_ts } => EventView::CommandsChanged { event_ts: event_ts@ },
            Event::TeamPlanChange { plan } => EventView::TeamPlanChange { plan: plan@ },
            Event::TeamPrefChange { name, value } => EventView::TeamPrefChange { name: name@, value: *value },
            Event::TeamRename { name } => EventView::TeamRename { name: name@ },
            Event::TeamDomainChange { url, domain } => EventView::TeamDomainChange { url: url@, domain: domain@ },
            Event::EmailDomainChanged { email_domain, event_ts } => EventView::EmailDomainChanged { email_domain: email_domain@, event_ts: event_ts@ },
            Event::BotAdded { bot } => EventView::BotAdded { bot: *bot },
            Event::BotChanged { bot } => EventView::BotChanged { bot: *bot },
            Event::AccountsChanged => EventView::AccountsChanged,
            Event::TeamMigrationStarted => EventView::TeamMigrationStarted,
            Event::ReconnectUrl => EventView::ReconnectUrl,
            Event::MessageSent { reply_to, ts, text } => EventView::MessageSent { reply_to: *reply_to, ts: ts@, text: text@ },
            Event::MessageError { reply_to, code, message } => EventView::MessageError { reply_to: *reply_to, code: *code, message: message@ },
        }
    }
}

/// Why the JSON text of a frame gave no event.
#[derive(Clone, Debug)]
pub enum EventError {
    /// The text is not a JSON object; holds the JSON parser's message.
    Malformed(String),
    /// The named field is read as text but holds another JSON value; its
    /// description is this crate's own.
    NotText(String),
    /// A `user_typing` event lacks its channel or its user; holds what was found.
    MissingFields { channel: Option<String>, user: Option<String> },
    /// The event lacks the named field.
    MissingField(String),
    /// The named field does not read as the type the event declares for it;
    /// holds the JSON parser's message.
    BadField { key: String, error: String },
    /// The `type` field names no event.
    UnknownType(String),
    /// A `message` event whose body the Web API crate refuses; holds its message.
    BadMessage(String),
    /// A timestamp that the Web API crate cannot decode without overflow may
    /// stand in the named field (`None`: in the body of a `message` event).
    TimestampOverflow(Option<String>),
}

/// An [`EventError`] with its strings taken by their views.
pub enum EventErrorView {
    Malformed(Seq<char>),
    NotText(Seq<char>),
    MissingFields { channel: Option<Seq<char>>, user: Option<Seq<char>> },
    MissingField(Seq<char>),
    BadField { key: Seq<char>, error: Seq<char> },
    UnknownType(Seq<char>),
    BadMessage(Seq<char>),
    TimestampOverflow(Option<Seq<char>>),
}

impl View for EventError {
    type V = EventErrorView;

    open spec fn view(&self) -> EventErrorView {
        match self {
            EventError::Malformed(m) => EventErrorView::Malformed(m@),
            EventError::NotText(k) => EventErrorView::NotText(k@),
            EventError::MissingFields { channel, user } => EventErrorView::MissingFields {
                channel: channel.deep_view(),
                user: user.deep_view(),
            },
            EventError::MissingField(k) => EventErrorView::MissingField(k@),
            EventError::BadField { key, error } => EventErrorView::BadField { key: key@, error: error@ },
            EventError::UnknownType(t) => EventErrorView::UnknownType(t@),
            EventError::BadMessage(m) => EventErrorView::BadMessage(m@),
            EventError::TimestampOverflow(k) => EventErrorView::TimestampOverflow(k.deep_view()),
        }
    }
}

/// The `Debug` text of a pair of optional strings, as `format!("{:?}", ..)`
/// writes it.
pub uninterp spec fn pair_debug_text(a: Option<Seq<char>>, b: Option<Seq<char>>) -> Seq<char>;

/// Writes the pair `(a, b)` with `format!("{:?}", ..)`. The contract claims that
/// the text is a function of the two strings, named `pair_debug_text`.
#[verifier::external_body]
fn pair_debug(a: &Option<String>, b: &Option<String>) -> (r: String)
    ensures
        r@ == pair_debug_text(a.deep_view(), b.deep_view()),
{
    format!("{:?}", (a, b))
}

/// The text that describes an error.
pub open spec fn description_of(e: EventErrorView) -> Seq<char> {
    match e {
        EventErrorView::Malformed(m) => m,
        EventErrorView::NotText(k) => "invalid type: field `"@ + k + "` is not a string"@,
        EventErrorView::MissingFields { channel, user } => "missing fields: "@ + pair_debug_text(channel, user),
        EventErrorView::MissingField(k) => "missing field `"@ + k + "`"@,
        EventErrorView::BadField { key, error } => "invalid field `"@ + key + "`: "@ + error,
        EventErrorView::UnknownType(t) => "Unknown Message type: "@ + t,
        EventErrorView::BadMessage(m) => m,
        EventErrorView::TimestampOverflow(Some(k)) => "timestamp out of range in field `"@ + k + "`"@,
        EventErrorView::TimestampOverflow(None) => "timestamp out of range in the message"@,
    }
}

impl EventError {
    /// The text that describes this error.
    pub fn description(&self) -> (r: String)
        ensures
            r@ == description_of(self@),
    {
        match self {
            EventError::Malformed(m) => m.clone(),
            EventError::NotText(k) => {
                let mut s = String::from_str("invalid type: field `");
                s.append(k.as_str());
                s.append("` is not a string");
                s
            },
            EventError::MissingFields { channel, user } => {
                let mut s = String::from_str("missing fields: ");
                let pair = pair_debug(channel, user);
                s.append(pair.as_str());
                s
            },
            EventError::MissingField(k) => {
                let mut s = String::from_str("missing field `");
                s.append(k.as_str());
                s.append("`");
                s
            },
            EventError::BadField { key, error } => {
                let mut s = String::from_str("invalid field `");
                s.append(key.as_str());
                s.append("`: ");
                s.append(error.as_str());
                s
            },
            EventError::UnknownType(t) => {
                let mut s = String::from_str("Unknown Message type: ");
                s.append(t.as_str());
                s
            },
            EventError::BadMessage(m) => m.clone(),
            EventError::TimestampOverflow(Some(k)) => {
                let mut s = String::from_str("timestamp out of range in field `");
                s.append(k.as_str());
                s.append("`");
                s
            },
            EventError::TimestampOverflow(None) => String::from_str("timestamp out of range in the message"),
        }
    }
}

/// A decoding result with its event and its error taken by their views.
pub open spec fn decoded_view(r: Result<Event, EventError>) -> Result<EventView, EventErrorView> {
    match r {
        Ok(e) => Ok(e@),
        Err(e) => Err(e@),
    }
}

/// `r` is what decoding the frame text `text` gives: `None` where the text
/// leaves the event undecided, else the event or the error.
pub open spec fn decodes_to(text: Seq<char>, r: Option<Result<Event, EventError>>) -> bool {
    match json_object_fields_of(text) {
        Err(m) => r matches Some(Err(e)) && e@ == EventErrorView::Malformed(m),
        Ok(fields) => if fields_undecided(fields) {
            r is None
        } else {
            r matches Some(d) && decoded_view(d) == decode_fields_spec(fields) && users_read(fields, d)
        },
    }
}

impl Event {
    /// Decodes the JSON text of a websocket frame into the event it reports.
    /// `None` stands for the texts that the event decoder does not handle: an
    /// empty object, or one whose first field holds text under a key other
    /// than `type`.
    ///
    /// The text is read into a JSON map before any field is looked at, so a
    /// key that repeats counts once, at its first place, with its last value
    /// (a `channel` that is not text followed by one that is gives an event).
    /// Fields that an event does not declare are passed over, `user_typing`
    /// included. A field that should be text but is not is reported as
    /// [`EventError::NotText`], with this crate's own description rather than
    /// a JSON parser's message. Frames that hold a timestamp the Web API crate
    /// cannot decode without overflow are refused with
    /// [`EventError::TimestampOverflow`].
    pub fn from_json(text: &str) -> (r: Option<Result<Event, EventError>>)
        ensures
            decodes_to(text@, r),
    {
        let fields = match json_object_fields(text) {
            Err(m) => {
                return Some(Err(EventError::Malformed(m)));
            },
            Ok(fields) => fields,
        };
        if fields.len() == 0 {
            return None;
        }
        assert(fields.deep_view()[0] == fields@[0].deep_view());
        if fields[0].2.is_some() && !crate::fields::text_is(&fields[0].0, "type") {
            return None;
        }
        Some(decode_fields(&fields))
    }
}

} // verus!
