//! Decoding the fields of a frame into the event that its `type` field names.

use vstd::prelude::*;
use vstd::string::*;
use crate::events::{decoded_view, Event, EventError, EventErrorView, EventView};
use crate::timestamps::{holds_timestamp_overflow, timestamp_may_overflow};
use crate::fields::{user_field_gives, Field, FieldView, bool_field, bot_field, channel_field, file_comment_field, file_field, object_text, parse_message, parsed_message, pinned_item_field, reaction_item_field, read_bool, read_bot, read_channel, read_file, read_file_comment, read_pinned_item, read_reaction_item, read_star_item, read_text, read_unpinned_item, read_user, rest_object_text, star_item_field, text_field, text_is, unpinned_item_field, user_field};

verus! {

/// The user that a `user_change` or `team_join` event holds is one that its
/// `user` field can give; the event view leaves users out.
pub open spec fn users_read(fs: Seq<FieldView>, r: Result<Event, EventError>) -> bool {
    match r {
        Ok(Event::UserChange { user }) => user_field_gives(fs, "user"@, user),
        Ok(Event::TeamJoin { user }) => user_field_gives(fs, "user"@, user),
        _ => true,
    }
}

/// The channel and the user that the fields of a `user_typing` event give, the
/// last of each winning; or the key of the first of them whose value is not text.
pub open spec fn typing_fields(fields: Seq<FieldView>) -> Result<(Option<Seq<char>>, Option<Seq<char>>), Seq<char>>
    decreases fields.len(),
{
    if fields.len() == 0 {
        Ok((None, None))
    } else {
        match typing_fields(fields.drop_last()) {
            Err(key) => Err(key),
            Ok((channel, user)) => {
                let key = fields.last().0;
                let value = fields.last().2;
                if key == "channel"@ {
                    match value {
                        Some(t) => Ok((Some(t), user)),
                        None => Err(key),
                    }
                } else if key == "user"@ {
                    match value {
                        Some(t) => Ok((channel, Some(t))),
                        None => Err(key),
                    }
                } else {
                    Ok((channel, user))
                }
            },
        }
    }
}

/// The `user_typing` event that the channel and user found give, or why it fails.
pub open spec fn typing_event(found: Result<(Option<Seq<char>>, Option<Seq<char>>), Seq<char>>) -> Result<EventView, EventErrorView> {
    match found {
        Err(key) => Err(EventErrorView::NotText(key)),
        Ok((Some(channel), Some(user))) => Ok(EventView::UserTyping { channel, user }),
        Ok((channel, user)) => Err(EventErrorView::MissingFields { channel, user }),
    }
}

/// The `user_typing` event that the fields give, or why they give none.
pub open spec fn user_typing_event(fs: Seq<FieldView>) -> Result<EventView, EventErrorView> {
    typing_event(typing_fields(fs.drop_first()))
}

proof fn lemma_typing_error_stays(fields: Seq<FieldView>, n: int)
    requires
        0 <= n <= fields.len(),
        typing_fields(fields.take(n)) is Err,
    ensures
        typing_fields(fields) == typing_fields(fields.take(n)),
    decreases fields.len() - n,
{
    if n < fields.len() {
        assert(fields.take(n + 1).drop_last() =~= fields.take(n));
        lemma_typing_error_stays(fields, n + 1);
    } else {
        assert(fields.take(n) =~= fields);
    }
}

/// Decodes the fields of a `user_typing` event; fields other than `channel`
/// and `user` are passed over.
fn decode_user_typing(fields: &Vec<Field>) -> (r: Result<Event, EventError>)
    requires
        fields.len() > 0,
    ensures
        decoded_view(r) == user_typing_event(fields.deep_view()),
{
    let ghost fv = fields.deep_view();
    let ghost rest = fv.drop_first();
    let mut channel: Option<String> = None;
    let mut user: Option<String> = None;
    let mut i: usize = 1;
    while i < fields.len()
        invariant
            fv == fields.deep_view(),
            rest == fv.drop_first(),
            1 <= i <= fields.len(),
            typing_fields(rest.take(i - 1)) == Ok::<_, Seq<char>>((channel.deep_view(), user.deep_view())),
        decreases fields.len() - i,
    {
        assert(rest.take(i as int).drop_last() =~= rest.take(i - 1));
        assert(rest[i - 1] == fields@[i as int].deep_view());
        let key = &fields[i].0;
        if text_is(key, "channel") {
            match &fields[i].2 {
                Some(t) => {
                    channel = Some(t.clone());
                },
                None => {
                    proof {
                        lemma_typing_error_stays(rest, i as int);
                    }
                    return Err(EventError::NotText(key.clone()));
                },
            }
        } else if text_is(key, "user") {
            match &fields[i].2 {
                Some(t) => {
                    user = Some(t.clone());
                },
                None => {
                    proof {
                        lemma_typing_error_stays(rest, i as int);
                    }
                    return Err(EventError::NotText(key.clone()));
                },
            }
        }
        i = i + 1;
    }
    assert(rest.take(i - 1) =~= rest);
    match (channel, user) {
        (Some(channel), Some(user)) => Ok(Event::UserTyping { channel, user }),
        (channel, user) => Err(EventError::MissingFields { channel, user }),
    }
}

/// The `message` event that the fields give: the message that the Web API
/// crate reads from the fields after `type`, or its error; refused where that
/// body holds a timestamp the crate cannot decode without overflow.
pub open spec fn message_event(fs: Seq<FieldView>) -> Result<EventView, EventErrorView> {
    let body = object_text(fs.drop_first());
    if holds_timestamp_overflow(body) {
        Err(EventErrorView::TimestampOverflow(None))
    } else {
        match parsed_message(body) {
            Ok(m) => Ok(EventView::Message(m)),
            Err(m) => Err(EventErrorView::BadMessage(m)),
        }
    }
}

/// Decodes the fields of a `message` event.
fn decode_message(fields: &Vec<Field>) -> (r: Result<Event, EventError>)
    requires
        fields.len() > 0,
    ensures
        decoded_view(r) == message_event(fields.deep_view()),
{
    let body = rest_object_text(fields);
    if timestamp_may_overflow(body.as_str()) {
        return Err(EventError::TimestampOverflow(None));
    }
    match parse_message(body.as_str()) {
        Ok(m) => Ok(Event::Message(m)),
        Err(m) => Err(EventError::BadMessage(m)),
    }
}

/// The `channel_marked` event that the fields give, or why they give none.
pub open spec fn channel_marked_event(fs: Seq<FieldView>) -> Result<EventView, EventErrorView> {
    match text_field(fs, "channel"@) {
        Err(e) => Err(e),
        Ok(channel) => match text_field(fs, "ts"@) {
            Err(e) => Err(e),
            Ok(ts) => Ok(EventView::ChannelMarked { channel, ts }),
        },
    }
}

/// Decodes the fields of a `channel_marked` event.
fn decode_channel_marked(fields: &Vec<Field>) -> (r: Result<Event, EventError>)
    ensures
        decoded_view(r) == channel_marked_event(fields.deep_view()),
{
    let channel = match read_text(fields, "channel") {
        Ok(v) => v,
        Err(e) => {
            return Err(e);
        },
    };
    let ts = match read_text(fields, "ts") {
        Ok(v) => v,
        Err(e) => {
            return Err(e);
        },
    };
    Ok(Event::ChannelMarked { channel, ts })
}

/// The `channel_created` event that the fields give, or why they give none.
pub open spec fn channel_created_event(fs: Seq<FieldView>) -> Result<EventView, EventErrorView> {
    match channel_field(fs, "channel"@) {
        Err(e) => Err(e),
        Ok(channel) => Ok(EventView::ChannelCreated { channel }),
    }
}

/// Decodes the fields of a `channel_created` event.
fn decode_channel_created(fields: &Vec<Field>) -> (r: Result<Event, EventError>)
    ensures
        decoded_view(r) == channel_created_event(fields.deep_view()),
{
    let channel = match read_channel(fields, "channel") {
        Ok(v) => v,
        Err(e) => {
            return Err(e);
        },
    };
    Ok(Event::ChannelCreated { channel })
}

/// The `channel_joined` event that the fields give, or why they give none.
pub open spec fn channel_joined_event(fs: Seq<FieldView>) -> Result<EventView, EventErrorView> {
    match channel_field(fs, "channel"@) {
        Err(e) => Err(e),
        Ok(channel) => Ok(EventView::ChannelJoined { channel }),
    }
}

/// Decodes the fields of a `channel_joined` event.
fn decode_channel_joined(fields: &Vec<Field>) -> (r: Result<Event, EventError>)
    ensures
        decoded_view(r) == channel_joined_event(fields.deep_view()),
{
    let channel = match read_channel(fields, "channel") {
        Ok(v) => v,
        Err(e) => {
            return Err(e);
        },
    };
    Ok(Event::ChannelJoined { channel })
}

/// The `channel_left` event that the fields give, or why they give none.
pub open spec fn channel_left_event(fs: Seq<FieldView>) -> Result<EventView, EventErrorView> {
    match text_field(fs, "channel"@) {
        Err(e) => Err(e),
        Ok(channel) => Ok(EventView::ChannelLeft { channel }),
    }
}

/// Decodes the fields of a `channel_left` event.
fn decode_channel_left(fields: &Vec<Field>) -> (r: Result<Event, EventError>)
    ensures
        decoded_view(r) == channel_left_event(fields.deep_view()),
{
    let channel = match read_text(fields, "channel") {
        Ok(v) => v,
        Err(e) => {
            return Err(e);
        },
    };
    Ok(Event::ChannelLeft { channel })
}

/// The `channel_deleted` event that the fields give, or why they give none.
pub open spec fn channel_deleted_event(fs: Seq<FieldView>) -> Result<EventView, EventErrorView> {
    match text_field(fs, "channel"@) {
        Err(e) => Err(e),
        Ok(channel) => Ok(EventView::ChannelDeleted { channel }),
    }
}

/// Decodes the fields of a `channel_deleted` event.
fn decode_channel_deleted(fields: &Vec<Field>) -> (r: Result<Event, EventError>)
    ensures
        decoded_view(r) == channel_deleted_event(fields.deep_view()),
{
    let channel = match read_text(fields, "channel") {
        Ok(v) => v,
        Err(e) => {
            return Err(e);
        },
    };
    Ok(Event::ChannelDeleted { channel })
}

/// The `channel_rename` event that the fields give, or why they give none.
pub open spec fn channel_rename_event(fs: Seq<FieldView>) -> Result<EventView, EventErrorView> {
    match channel_field(fs, "channel"@) {
        Err(e) => Err(e),
        Ok(channel) => Ok(EventView::ChannelRename { channel }),
    }
}

/// Decodes the fields of a `channel_rename` event.
fn decode_channel_rename(fields: &Vec<Field>) -> (r: Result<Event, EventError>)
    ensures
        decoded_view(r) == channel_rename_event(fields.deep_view()),
{
    let channel = match read_channel(fields, "channel") {
        Ok(v) => v,
        Err(e) => {
            return Err(e);
        },
    };
    Ok(Event::ChannelRename { channel })
}

/// The `channel_archive` event that the fields give, or why they give none.
pub open spec fn channel_archive_event(fs: Seq<FieldView>) -> Result<EventView, EventErrorView> {
    match text_field(fs, "channel"@) {
        Err(e) => Err(e),
        Ok(channel) => match text_field(fs, "user"@) {
            Err(e) => Err(e),
            Ok(user) => Ok(EventView::ChannelArchive { channel, user }),
        },
    }
}

/// Decodes the fields of a `channel_archive` event.
fn decode_channel_archive(fields: &Vec<Field>) -> (r: Result<Event, EventError>)
    ensures
        decoded_view(r) == channel_archive_event(fields.deep_view()),
{
    let channel = match read_text(fields, "channel") {
        Ok(v) => v,
        Err(e) => {
            return Err(e);
        },
    };
    let user = match read_text(fields, "user") {
        Ok(v) => v,
        Err(e) => {
            return Err(e);
        },
    };
    Ok(Event::ChannelArchive { channel, user })
}

/// The `channel_unarchive` event that the fields give, or why they give none.
pub open spec fn channel_un_archive_event(fs: Seq<FieldView>) -> Result<EventView, EventErrorView> {
    match text_field(fs, "channel"@) {
        Err(e) => Err(e),
        Ok(channel) => match text_field(fs, "user"@) {
            Err(e) => Err(e),
            Ok(user) => Ok(EventView::ChannelUnArchive { channel, user }),
        },
    }
}

/// Decodes the fields of a `channel_unarchive` event.
fn decode_channel_un_archive(fields: &Vec<Field>) -> (r: Result<Event, EventError>)
    ensures
        decoded_view(r) == channel_un_archive_event(fields.deep_view()),
{
    let channel = match read_text(fields, "channel") {
        Ok(v) => v,
        Err(e) => {
            return Err(e);
        },
    };
    let user = match read_text(fields, "user") {
        Ok(v) => v,
        Err(e) => {
            return Err(e);
        },
    };
    Ok(Event::ChannelUnArchive { channel, user })
}

/// The `channel_history_changed` event that the fields give, or why they give none.
pub open spec fn channel_history_changed_event(fs: Seq<FieldView>) -> Result<EventView, EventErrorView> {
    match text_field(fs, "latest"@) {
        Err(e) => Err(e),
        Ok(latest) => match text_field(fs, "ts"@) {
            Err(e) => Err(e),
            Ok(ts) => match text_field(fs, "event_ts"@) {
                Err(e) => Err(e),
                Ok(event_ts) => Ok(EventView::ChannelHistoryChanged { latest, ts, event_ts }),
            },
        },
    }
}

/// Decodes the fields of a `channel_history_changed` event.
fn decode_channel_history_changed(fields: &Vec<Field>) -> (r: Result<Event, EventError>)
    ensures
        decoded_view(r) == channel_history_changed_event(fields.deep_view()),
{
    let latest = match read_text(fields, "latest") {
        Ok(v) => v,
        Err(e) => {
            return Err(e);
        },
    };
    let ts = match read_text(fields, "ts") {
        Ok(v) => v,
        Err(e) => {
            return Err(e);
        },
    };
    let event_ts = match read_text(fields, "event_ts") {
        Ok(v) => v,
        Err(e) => {
            return Err(e);
        },
    };
    Ok(Event::ChannelHistoryChanged { latest, ts, event_ts })
}

/// The `im_created` event that the fields give, or why they give none.
pub open spec fn im_created_event(fs: Seq<FieldView>) -> Result<EventView, EventErrorView> {
    match text_field(fs, "user"@) {
        Err(e) => Err(e),
        Ok(user) => match channel_field(fs, "channel"@) {
            Err(e) => Err(e),
            Ok(channel) => Ok(EventView::ImCreated { user, channel }),
        },
    }
}

/// Decodes the fields of a `im_created` event.
fn decode_im_created(fields: &Vec<Field>) -> (r: Result<Event, EventError>)
    ensures
        decoded_view(r) == im_created_event(fields.deep_view()),
{
    let user = match read_text(fields, "user") {
        Ok(v) => v,
        Err(e) => {
            return Err(e);
        },
    };
    let channel = match read_channel(fields, "channel") {
        Ok(v) => v,
        Err(e) => {
            return Err(e);
        },
    };
    Ok(Event::ImCreated { user, channel })
}

/// The `im_open` event that the fields give, or why they give none.
pub open spec fn im_open_event(fs: Seq<FieldView>) -> Result<EventView, EventErrorView> {
    match text_field(fs, "user"@) {
        Err(e) => Err(e),
        Ok(user) => match text_field(fs, "channel"@) {
            Err(e) => Err(e),
            Ok(channel) => Ok(EventView::ImOpen { user, channel }),
        },
    }
}

/// Decodes the fields of a `im_open` event.
fn decode_im_open(fields: &Vec<Field>) -> (r: Result<Event, EventError>)
    ensures
        decoded_view(r) == im_open_event(fields.deep_view()),
{
    let user = match read_text(fields, "user") {
        Ok(v) => v,
        Err(e) => {
            return Err(e);
        },
    };
    let channel = match read_text(fields, "channel") {
        Ok(v) => v,
        Err(e) => {
            return Err(e);
        },
    };
    Ok(Event::ImOpen { user, channel })
}

/// The `im_close` event that the fields give, or why they give none.
pub open spec fn im_close_event(fs: Seq<FieldView>) -> Result<EventView, EventErrorView> {
    match text_field(fs, "user"@) {
        Err(e) => Err(e),
        Ok(user) => match text_field(fs, "channel"@) {
            Err(e) => Err(e),
            Ok(channel) => Ok(EventView::ImClose { user, channel }),
        },
    }
}

/// Decodes the fields of a `im_close` event.
fn decode_im_close(fields: &Vec<Field>) -> (r: Result<Event, EventError>)
    ensures
        decoded_view(r) == im_close_event(fields.deep_view()),
{
    let user = match read_text(fields, "user") {
        Ok(v) => v,
        Err(e) => {
            return Err(e);
        },
    };
    let channel = match read_text(fields, "channel") {
        Ok(v) => v,
        Err(e) => {
            return Err(e);
        },
    };
    Ok(Event::ImClose { user, channel })
}

/// The `im_marked` event that the fields give, or why they give none.
pub open spec fn im_marked_event(fs: Seq<FieldView>) -> Result<EventView, EventErrorView> {
    match text_field(fs, "channel"@) {
        Err(e) => Err(e),
        Ok(channel) => match text_field(fs, "ts"@) {
            Err(e) => Err(e),
            Ok(ts) => Ok(EventView::ImMarked { channel, ts }),
        },
    }
}

/// Decodes the fields of a `im_marked` event.
fn decode_im_marked(fields: &Vec<Field>) -> (r: Result<Event, EventError>)
    ensures
        decoded_view(r) == im_marked_event(fields.deep_view()),
{
    let channel = match read_text(fields, "channel") {
        Ok(v) => v,
        Err(e) => {
            return Err(e);
        },
    };
    let ts = match read_text(fields, "ts") {
        Ok(v) => v,
        Err(e) => {
            return Err(e);
        },
    };
    Ok(Event::ImMarked { channel, ts })
}

/// The `im_history_changed` event that the fields give, or why they give none.
pub open spec fn im_history_changed_event(fs: Seq<FieldView>) -> Result<EventView, EventErrorView> {
    match text_field(fs, "latest"@) {
        Err(e) => Err(e),
        Ok(latest) => match text_field(fs, "ts"@) {
            Err(e) => Err(e),
            Ok(ts) => match text_field(fs, "event_ts"@) {
                Err(e) => Err(e),
                Ok(event_ts) => Ok(EventView::ImHistoryChanged { latest, ts, event_ts }),
            },
        },
    }
}

/// Decodes the fields of a `im_history_changed` event.
fn decode_im_history_changed(fields: &Vec<Field>) -> (r: Result<Event, EventError>)
    ensures
        decoded_view(r) == im_history_changed_event(fields.deep_view()),
{
    let latest = match read_text(fields, "latest") {
        Ok(v) => v,
        Err(e) => {
            return Err(e);
        },
    };
    let ts = match read_text(fields, "ts") {
        Ok(v) => v,
        Err(e) => {
            return Err(e);
        },
    };
    let event_ts = match read_text(fields, "event_ts") {
        Ok(v) => v,
        Err(e) => {
            return Err(e);
        },
    };
    Ok(Event::ImHistoryChanged { latest, ts, event_ts })
}

/// The `group_joined` event that the fields give, or why they give none.
pub open spec fn group_joined_event(fs: Seq<FieldView>) -> Result<EventView, EventErrorView> {
    match channel_field(fs, "channel"@) {
        Err(e) => Err(e),
        Ok(channel) => Ok(EventView::GroupJoined { channel }),
    }
}

/// Decodes the fields of a `group_joined` event.
fn decode_group_joined(fields: &Vec<Field>) -> (r: Result<Event, EventError>)
    ensures
        decoded_view(r) == group_joined_event(fields.deep_view()),
{
    let channel = match read_channel(fields, "channel") {
        Ok(v) => v,
        Err(e) => {
            return Err(e);
        },
    };
    Ok(Event::GroupJoined { channel })
}

/// The `group_left` event that the fields give, or why they give none.
pub open spec fn group_left_event(fs: Seq<FieldView>) -> Result<EventView, EventErrorView> {
    match channel_field(fs, "channel"@) {
        Err(e) => Err(e),
        Ok(channel) => Ok(EventView::GroupLeft { channel }),
    }
}

/// Decodes the fields of a `group_left` event.
fn decode_group_left(fields: &Vec<Field>) -> (r: Result<Event, EventError>)
    ensures
        decoded_view(r) == group_left_event(fields.deep_view()),
{
    let channel = match read_channel(fields, "channel") {
        Ok(v) => v,
        Err(e) => {
            return Err(e);
        },
    };
    Ok(Event::GroupLeft { channel })
}

/// The `group_open` event that the fields give, or why they give none.
pub open spec fn group_open_event(fs: Seq<FieldView>) -> Result<EventView, EventErrorView> {
    match text_field(fs, "user"@) {
        Err(e) => Err(e),
        Ok(user) => match text_field(fs, "channel"@) {
            Err(e) => Err(e),
            Ok(channel) => Ok(EventView::GroupOpen { user, channel }),
        },
    }
}

/// Decodes the fields of a `group_open` event.
fn decode_group_open(fields: &Vec<Field>) -> (r: Result<Event, EventError>)
    ensures
        decoded_view(r) == group_open_event(fields.deep_view()),
{
    let user = match read_text(fields, "user") {
        Ok(v) => v,
        Err(e) => {
            return Err(e);
        },
    };
    let channel = match read_text(fields, "channel") {
        Ok(v) => v,
        Err(e) => {
            return Err(e);
        },
    };
    Ok(Event::GroupOpen { user, channel })
}

/// The `group_close` event that the fields give, or why they give none.
pub open spec fn group_close_event(fs: Seq<FieldView>) -> Result<EventView, EventErrorView> {
    match text_field(fs, "user"@) {
        Err(e) => Err(e),
        Ok(user) => match text_field(fs, "channel"@) {
            Err(e) => Err(e),
            Ok(channel) => Ok(EventView::GroupClose { user, channel }),
        },
    }
}

/// Decodes the fields of a `group_close` event.
fn decode_group_close(fields: &Vec<Field>) -> (r: Result<Event, EventError>)
    ensures
        decoded_view(r) == group_close_event(fields.deep_view()),
{
    let user = match read_text(fields, "user") {
        Ok(v) => v,
        Err(e) => {
            return Err(e);
        },
    };
    let channel = match read_text(fields, "channel") {
        Ok(v) => v,
        Err(e) => {
            return Err(e);
        },
    };
    Ok(Event::GroupClose { user, channel })
}

/// The `group_archive` event that the fields give, or why they give none.
pub open spec fn group_archive_event(fs: Seq<FieldView>) -> Result<EventView, EventErrorView> {
    match text_field(fs, "channel"@) {
        Err(e) => Err(e),
        Ok(channel) => Ok(EventView::GroupArchive { channel }),
    }
}

/// Decodes the fields of a `group_archive` event.
fn decode_group_archive(fields: &Vec<Field>) -> (r: Result<Event, EventError>)
    ensures
        decoded_view(r) == group_archive_event(fields.deep_view()),
{
    let channel = match read_text(fields, "channel") {
        Ok(v) => v,
        Err(e) => {
            return Err(e);
        },
    };
    Ok(Event::GroupArchive { channel })
}

/// The `group_unarchive` event that the fields give, or why they give none.
pub open spec fn group_un_archive_event(fs: Seq<FieldView>) -> Result<EventView, EventErrorView> {
    match text_field(fs, "channel"@) {
        Err(e) => Err(e),
        Ok(channel) => Ok(EventView::GroupUnArchive { channel }),
    }
}

/// Decodes the fields of a `group_unarchive` event.
fn decode_group_un_archive(fields: &Vec<Field>) -> (r: Result<Event, EventError>)
    ensures
        decoded_view(r) == group_un_archive_event(fields.deep_view()),
{
    let channel = match read_text(fields, "channel") {
        Ok(v) => v,
        Err(e) => {
            return Err(e);
        },
    };
    Ok(Event::GroupUnArchive { channel })
}

/// The `group_rename` event that the fields give, or why they give none.
pub open spec fn group_rename_event(fs: Seq<FieldView>) -> Result<EventView, EventErrorView> {
    match channel_field(fs, "channel"@) {
        Err(e) => Err(e),
        Ok(channel) => Ok(EventView::GroupRename { channel }),
    }
}

/// Decodes the fields of a `group_rename` event.
fn decode_group_rename(fields: &Vec<Field>) -> (r: Result<Event, EventError>)
    ensures
        decoded_view(r) == group_rename_event(fields.deep_view()),
{
    let channel = match read_channel(fields, "channel") {
        Ok(v) => v,
        Err(e) => {
            return Err(e);
        },
    };
    Ok(Event::GroupRename { channel })
}

/// The `group_marked` event that the fields give, or why they give none.
pub open spec fn group_marked_event(fs: Seq<FieldView>) -> Result<EventView, EventErrorView> {
    match text_field(fs, "channel"@) {
        Err(e) => Err(e),
        Ok(channel) => match text_field(fs, "ts"@) {
            Err(e) => Err(e),
            Ok(ts) => Ok(EventView::GroupMarked { channel, ts }),
        },
    }
}

/// Decodes the fields of a `group_marked` event.
fn decode_group_marked(fields: &Vec<Field>) -> (r: Result<Event, EventError>)
    ensures
        decoded_view(r) == group_marked_event(fields.deep_view()),
{
    let channel = match read_text(fields, "channel") {
        Ok(v) => v,
        Err(e) => {
            return Err(e);
        },
    };
    let ts = match read_text(fields, "ts") {
        Ok(v) => v,
        Err(e) => {
            return Err(e);
        },
    };
    Ok(Event::GroupMarked { channel, ts })
}

/// The `group_history_changed` event that the fields give, or why they give none.
pub open spec fn group_history_changed_event(fs: Seq<FieldView>) -> Result<EventView, EventErrorView> {
    match text_field(fs, "latest"@) {
        Err(e) => Err(e),
        Ok(latest) => match text_field(fs, "ts"@) {
            Err(e) => Err(e),
            Ok(ts) => match text_field(fs, "event_ts"@) {
                Err(e) => Err(e),
                Ok(event_ts) => Ok(EventView::GroupHistoryChanged { latest, ts, event_ts }),
            },
        },
    }
}

/// Decodes the fields of a `group_history_changed` event.
fn decode_group_history_changed(fields: &Vec<Field>) -> (r: Result<Event, EventError>)
    ensures
        decoded_view(r) == group_history_changed_event(fields.deep_view()),
{
    let latest = match read_text(fields, "latest") {
        Ok(v) => v,
        Err(e) => {
            return Err(e);
        },
    };
    let ts = match read_text(fields, "ts") {
        Ok(v) => v,
        Err(e) => {
            return Err(e);
        },
    };
    let event_ts = match read_text(fields, "event_ts") {
        Ok(v) => v,
        Err(e) => {
            return Err(e);
        },
    };
    Ok(Event::GroupHistoryChanged { latest, ts, event_ts })
}

/// The `file_created` event that the fields give, or why they give none.
pub open spec fn file_created_event(fs: Seq<FieldView>) -> Result<EventView, EventErrorView> {
    match file_field(fs, "file"@) {
        Err(e) => Err(e),
        Ok(file) => Ok(EventView::FileCreated { file }),
    }
}

/// Decodes the fields of a `file_created` event.
fn decode_file_created(fields: &Vec<Field>) -> (r: Result<Event, EventError>)
    ensures
        decoded_view(r) == file_created_event(fields.deep_view()),
{
    let file = match read_file(fields, "file") {
        Ok(v) => v,
        Err(e) => {
            return Err(e);
        },
    };
    Ok(Event::FileCreated { file })
}

/// The `file_shared` event that the fields give, or why they give none.
pub open spec fn file_shared_event(fs: Seq<FieldView>) -> Result<EventView, EventErrorView> {
    match file_field(fs, "file"@) {
        Err(e) => Err(e),
        Ok(file) => Ok(EventView::FileShared { file }),
    }
}

/// Decodes the fields of a `file_shared` event.
fn decode_file_shared(fields: &Vec<Field>) -> (r: Result<Event, EventError>)
    ensures
        decoded_view(r) == file_shared_event(fields.deep_view()),
{
    let file = match read_file(fields, "file") {
        Ok(v) => v,
        Err(e) => {
            return Err(e);
        },
    };
    Ok(Event::FileShared { file })
}

/// The `file_unshared` event that the fields give, or why they give none.
pub open spec fn file_un_shared_event(fs: Seq<FieldView>) -> Result<EventView, EventErrorView> {
    match file_field(fs, "file"@) {
        Err(e) => Err(e),
        Ok(file) => Ok(EventView::FileUnShared { file }),
    }
}

/// Decodes the fields of a `file_unshared` event.
fn decode_file_un_shared(fields: &Vec<Field>) -> (r: Result<Event, EventError>)
    ensures
        decoded_view(r) == file_un_shared_event(fields.deep_view()),
{
    let file = match read_file(fields, "file") {
        Ok(v) => v,
        Err(e) => {
            return Err(e);
        },
    };
    Ok(Event::FileUnShared { file })
}

/// The `file_public` event that the fields give, or why they give none.
pub open spec fn file_public_event(fs: Seq<FieldView>) -> Result<EventView, EventErrorView> {
    match file_field(fs, "file"@) {
        Err(e) => Err(e),
        Ok(file) => Ok(EventView::FilePublic { file }),
    }
}

/// Decodes the fields of a `file_public` event.
fn decode_file_public(fields: &Vec<Field>) -> (r: Result<Event, EventError>)
    ensures
        decoded_view(r) == file_public_event(fields.deep_view()),
{
    let file = match read_file(fields, "file") {
        Ok(v) => v,
        Err(e) => {
            return Err(e);
        },
    };
    Ok(Event::FilePublic { file })
}

/// The `file_private` event that the fields give, or why they give none.
pub open spec fn file_private_event(fs: Seq<FieldView>) -> Result<EventView, EventErrorView> {
    match text_field(fs, "file"@) {
        Err(e) => Err(e),
        Ok(file) => Ok(EventView::FilePrivate { file }),
    }
}

/// Decodes the fields of a `file_private` event.
fn decode_file_private(fields: &Vec<Field>) -> (r: Result<Event, EventError>)
    ensures
        decoded_view(r) == file_private_event(fields.deep_view()),
{
    let file = match read_text(fields, "file") {
        Ok(v) => v,
        Err(e) => {
            return Err(e);
        },
    };
    Ok(Event::FilePrivate { file })
}

/// The `file_change` event that the fields give, or why they give none.
pub open spec fn file_change_event(fs: Seq<FieldView>) -> Result<EventView, EventErrorView> {
    match file_field(fs, "file"@) {
        Err(e) => Err(e),
        Ok(file) => Ok(EventView::FileChange { file }),
    }
}

/// Decodes the fields of a `file_change` event.
fn decode_file_change(fields: &Vec<Field>) -> (r: Result<Event, EventError>)
    ensures
        decoded_view(r) == file_change_event(fields.deep_view()),
{
    let file = match read_file(fields, "file") {
        Ok(v) => v,
        Err(e) => {
            return Err(e);
        },
    };
    Ok(Event::FileChange { file })
}

/// The `file_deleted` event that the fields give, or why they give none.
pub open spec fn file_deleted_event(fs: Seq<FieldView>) -> Result<EventView, EventErrorView> {
    match text_field(fs, "file_id"@) {
        Err(e) => Err(e),
        Ok(file_id) => match text_field(fs, "event_ts"@) {
            Err(e) => Err(e),
            Ok(event_ts) => Ok(EventView::FileDeleted { file_id, event_ts }),
        },
    }
}

/// Decodes the fields of a `file_deleted` event.
fn decode_file_deleted(fields: &Vec<Field>) -> (r: Result<Event, EventError>)
    ensures
        decoded_view(r) == file_deleted_event(fields.deep_view()),
{
    let file_id = match read_text(fields, "file_id") {
        Ok(v) => v,
        Err(e) => {
            return Err(e);
        },
    };
    let event_ts = match read_text(fields, "event_ts") {
        Ok(v) => v,
        Err(e) => {
            return Err(e);
        },
    };
    Ok(Event::FileDeleted { file_id, event_ts })
}

/// The `file_comment_added` event that the fields give, or why they give none.
pub open spec fn file_comment_added_event(fs: Seq<FieldView>) -> Result<EventView, EventErrorView> {
    match file_field(fs, "file"@) {
        Err(e) => Err(e),
        Ok(file) => match file_comment_field(fs, "comment"@) {
            Err(e) => Err(e),
            Ok(comment) => Ok(EventView::FileCommentAdded { file, comment }),
        },
    }
}

/// Decodes the fields of a `file_comment_added` event.
fn decode_file_comment_added(fields: &Vec<Field>) -> (r: Result<Event, EventError>)
    ensures
        decoded_view(r) == file_comment_added_event(fields.deep_view()),
{
    let file = match read_file(fields, "file") {
        Ok(v) => v,
        Err(e) => {
            return Err(e);
        },
    };
    let comment = match read_file_comment(fields, "comment") {
        Ok(v) => v,
        Err(e) => {
            return Err(e);
        },
    };
    Ok(Event::FileCommentAdded { file, comment })
}

/// The `file_comment_edited` event that the fields give, or why they give none.
pub open spec fn file_comment_edited_event(fs: Seq<FieldView>) -> Result<EventView, EventErrorView> {
    match file_field(fs, "file"@) {
        Err(e) => Err(e),
        Ok(file) => match file_comment_field(fs, "comment"@) {
            Err(e) => Err(e),
            Ok(comment) => Ok(EventView::FileCommentEdited { file, comment }),
        },
    }
}

/// Decodes the fields of a `file_comment_edited` event.
fn decode_file_comment_edited(fields: &Vec<Field>) -> (r: Result<Event, EventError>)
    ensures
        decoded_view(r) == file_comment_edited_event(fields.deep_view()),
{
    let file = match read_file(fields, "file") {
        Ok(v) => v,
        Err(e) => {
            return Err(e);
        },
    };
    let comment = match read_file_comment(fields, "comment") {
        Ok(v) => v,
        Err(e) => {
            return Err(e);
        },
    };
    Ok(Event::FileCommentEdited { file, comment })
}

/// The `file_comment_deleted` event that the fields give, or why they give none.
pub open spec fn file_comment_deleted_event(fs: Seq<FieldView>) -> Result<EventView, EventErrorView> {
    match file_field(fs, "file"@) {
        Err(e) => Err(e),
        Ok(file) => match text_field(fs, "comment"@) {
            Err(e) => Err(e),
            Ok(comment) => Ok(EventView::FileCommentDeleted { file, comment }),
        },
    }
}

/// Decodes the fields of a `file_comment_deleted` event.
fn decode_file_comment_deleted(fields: &Vec<Field>) -> (r: Result<Event, EventError>)
    ensures
        decoded_view(r) == file_comment_deleted_event(fields.deep_view()),
{
    let file = match read_file(fields, "file") {
        Ok(v) => v,
        Err(e) => {
            return Err(e);
        },
    };
    let comment = match read_text(fields, "comment") {
        Ok(v) => v,
        Err(e) => {
            return Err(e);
        },
    };
    Ok(Event::FileCommentDeleted { file, comment })
}

/// The `pin_added` event that the fields give, or why they give none.
pub open spec fn pin_added_event(fs: Seq<FieldView>) -> Result<EventView, EventErrorView> {
    match text_field(fs, "user"@) {
        Err(e) => Err(e),
        Ok(user) => match text_field(fs, "channel_id"@) {
            Err(e) => Err(e),
            Ok(channel_id) => match pinned_item_field(fs, "item"@) {
                Err(e) => Err(e),
                Ok(item) => match text_field(fs, "event_ts"@) {
                    Err(e) => Err(e),
                    Ok(event_ts) => Ok(EventView::PinAdded { user, channel_id, item, event_ts }),
                },
            },
        },
    }
}

/// Decodes the fields of a `pin_added` event.
fn decode_pin_added(fields: &Vec<Field>) -> (r: Result<Event, EventError>)
    ensures
        decoded_view(r) == pin_added_event(fields.deep_view()),
{
    let user = match read_text(fields, "user") {
        Ok(v) => v,
        Err(e) => {
            return Err(e);
        },
    };
    let channel_id = match read_text(fields, "channel_id") {
        Ok(v) => v,
        Err(e) => {
            return Err(e);
        },
    };
    let item = match read_pinned_item(fields, "item") {
        Ok(v) => v,
        Err(e) => {
            return Err(e);
        },
    };
    let event_ts = match read_text(fields, "event_ts") {
        Ok(v) => v,
        Err(e) => {
            return Err(e);
        },
    };
    Ok(Event::PinAdded { user, channel_id, item, event_ts })
}

/// The `pin_removed` event that the fields give, or why they give none.
pub open spec fn pin_removed_event(fs: Seq<FieldView>) -> Result<EventView, EventErrorView> {
    match text_field(fs, "user"@) {
        Err(e) => Err(e),
        Ok(user) => match text_field(fs, "channel_id"@) {
            Err(e) => Err(e),
            Ok(channel_id) => match unpinned_item_field(fs, "item"@) {
                Err(e) => Err(e),
                Ok(item) => match bool_field(fs, "has_pins"@) {
                    Err(e) => Err(e),
                    Ok(has_pins) => match text_field(fs, "event_ts"@) {
                        Err(e) => Err(e),
                        Ok(event_ts) => Ok(EventView::PinRemoved { user, channel_id, item, has_pins, event_ts }),
                    },
                },
            },
        },
    }
}

/// Decodes the fields of a `pin_removed` event.
fn decode_pin_removed(fields: &Vec<Field>) -> (r: Result<Event, EventError>)
    ensures
        decoded_view(r) == pin_removed_event(fields.deep_view()),
{
    let user = match read_text(fields, "user") {
        Ok(v) => v,
        Err(e) => {
            return Err(e);
        },
    };
    let channel_id = match read_text(fields, "channel_id") {
        Ok(v) => v,
        Err(e) => {
            return Err(e);
        },
    };
    let item = match read_unpinned_item(fields, "item") {
        Ok(v) => v,
        Err(e) => {
            return Err(e);
        },
    };
    let has_pins = match read_bool(fields, "has_pins") {
        Ok(v) => v,
        Err(e) => {
            return Err(e);
        },
    };
    let event_ts = match read_text(fields, "event_ts") {
        Ok(v) => v,
        Err(e) => {
            return Err(e);
        },
    };
    Ok(Event::PinRemoved { user, channel_id, item, has_pins, event_ts })
}

/// The `presence_change` event that the fields give, or why they give none.
pub open spec fn presence_change_event(fs: Seq<FieldView>) -> Result<EventView, EventErrorView> {
    match text_field(fs, "user"@) {
        Err(e) => Err(e),
        Ok(user) => match text_field(fs, "presence"@) {
            Err(e) => Err(e),
            Ok(presence) => Ok(EventView::PresenceChange { user, presence }),
        },
    }
}

/// Decodes the fields of a `presence_change` event.
fn decode_presence_change(fields: &Vec<Field>) -> (r: Result<Event, EventError>)
    ensures
        decoded_view(r) == presence_change_event(fields.deep_view()),
{
    let user = match read_text(fields, "user") {
        Ok(v) => v,
        Err(e) => {
            return Err(e);
        },
    };
    let presence = match read_text(fields, "presence") {
        Ok(v) => v,
        Err(e) => {
            return Err(e);
        },
    };
    Ok(Event::PresenceChange { user, presence })
}

/// The `manual_presence_change` event that the fields give, or why they give none.
pub open spec fn manual_presence_change_event(fs: Seq<FieldView>) -> Result<EventView, EventErrorView> {
    match text_field(fs, "presence"@) {
        Err(e) => Err(e),
        Ok(presence) => Ok(EventView::ManualPresenceChange { presence }),
    }
}

/// Decodes the fields of a `manual_presence_change` event.
fn decode_manual_presence_change(fields: &Vec<Field>) -> (r: Result<Event, EventError>)
    ensures
        decoded_view(r) == manual_presence_change_event(fields.deep_view()),
{
    let presence = match read_text(fields, "presence") {
        Ok(v) => v,
        Err(e) => {
            return Err(e);
        },
    };
    Ok(Event::ManualPresenceChange { presence })
}

/// The `pref_change` event that the fields give, or why they give none.
pub open spec fn pref_change_event(fs: Seq<FieldView>) -> Result<EventView, EventErrorView> {
    match text_field(fs, "name"@) {
        Err(e) => Err(e),
        Ok(name) => match text_field(fs, "value"@) {
            Err(e) => Err(e),
            Ok(value) => Ok(EventView::PrefChange { name, value }),
        },
    }
}

/// Decodes the fields of a `pref_change` event.
fn decode_pref_change(fields: &Vec<Field>) -> (r: Result<Event, EventError>)
    ensures
        decoded_view(r) == pref_change_event(fields.deep_view()),
{
    let name = match read_text(fields, "name") {
        Ok(v) => v,
        Err(e) => {
            return Err(e);
        },
    };
    let value = match read_text(fields, "value") {
        Ok(v) => v,
        Err(e) => {
            return Err(e);
        },
    };
    Ok(Event::PrefChange { name, value })
}

/// The `user_change` event that the fields give, or why they give none.
pub open spec fn user_change_event(fs: Seq<FieldView>) -> Result<EventView, EventErrorView> {
    match user_field(fs, "user"@) {
        Err(e) => Err(e),
        Ok(_) => Ok(EventView::UserChange),
    }
}

/// Decodes the fields of a `user_change` event.
fn decode_user_change(fields: &Vec<Field>) -> (r: Result<Event, EventError>)
    ensures
        decoded_view(r) == user_change_event(fields.deep_view()),
        users_read(fields.deep_view(), r),
{
    let user = match read_user(fields, "user") {
        Ok(v) => v,
        Err(e) => {
            return Err(e);
        },
    };
    Ok(Event::UserChange { user })
}

/// The `team_join` event that the fields give, or why they give none.
pub open spec fn team_join_event(fs: Seq<FieldView>) -> Result<EventView, EventErrorView> {
    match user_field(fs, "user"@) {
        Err(e) => Err(e),
        Ok(_) => Ok(EventView::TeamJoin),
    }
}

/// Decodes the fields of a `team_join` event.
fn decode_team_join(fields: &Vec<Field>) -> (r: Result<Event, EventError>)
    ensures
        decoded_view(r) == team_join_event(fields.deep_view()),
        users_read(fields.deep_view(), r),
{
    let user = match read_user(fields, "user") {
        Ok(v) => v,
        Err(e) => {
            return Err(e);
        },
    };
    Ok(Event::TeamJoin { user })
}

/// The `star_added` event that the fields give, or why they give none.
pub open spec fn star_added_event(fs: Seq<FieldView>) -> Result<EventView, EventErrorView> {
    match text_field(fs, "user"@) {
        Err(e) => Err(e),
        Ok(user) => match star_item_field(fs, "item"@) {
            Err(e) => Err(e),
            Ok(item) => match text_field(fs, "event_ts"@) {
                Err(e) => Err(e),
                Ok(event_ts) => Ok(EventView::StarAdded { user, item, event_ts }),
            },
        },
    }
}

/// Decodes the fields of a `star_added` event.
fn decode_star_added(fields: &Vec<Field>) -> (r: Result<Event, EventError>)
    ensures
        decoded_view(r) == star_added_event(fields.deep_view()),
{
    let user = match read_text(fields, "user") {
        Ok(v) => v,
        Err(e) => {
            return Err(e);
        },
    };
    let item = match read_star_item(fields, "item") {
        Ok(v) => v,
        Err(e) => {
            return Err(e);
        },
    };
    let event_ts = match read_text(fields, "event_ts") {
        Ok(v) => v,
        Err(e) => {
            return Err(e);
        },
    };
    Ok(Event::StarAdded { user, item, event_ts })
}

/// The `star_removed` event that the fields give, or why they give none.
pub open spec fn star_removed_event(fs: Seq<FieldView>) -> Result<EventView, EventErrorView> {
    match text_field(fs, "user"@) {
        Err(e) => Err(e),
        Ok(user) => match star_item_field(fs, "item"@) {
            Err(e) => Err(e),
            Ok(item) => match text_field(fs, "event_ts"@) {
                Err(e) => Err(e),
                Ok(event_ts) => Ok(EventView::StarRemoved { user, item, event_ts }),
            },
        },
    }
}

/// Decodes the fields of a `star_removed` event.
fn decode_star_removed(fields: &Vec<Field>) -> (r: Result<Event, EventError>)
    ensures
        decoded_view(r) == star_removed_event(fields.deep_view()),
{
    let user = match read_text(fields, "user") {
        Ok(v) => v,
        Err(e) => {
            return Err(e);
        },
    };
    let item = match read_star_item(fields, "item") {
        Ok(v) => v,
        Err(e) => {
            return Err(e);
        },
    };
    let event_ts = match read_text(fields, "event_ts") {
        Ok(v) => v,
        Err(e) => {
            return Err(e);
        },
    };
    Ok(Event::StarRemoved { user, item, event_ts })
}

/// The `reaction_added` event that the fields give, or why they give none.
pub open spec fn reaction_added_event(fs: Seq<FieldView>) -> Result<EventView, EventErrorView> {
    match text_field(fs, "user"@) {
        Err(e) => Err(e),
        Ok(user) => match text_field(fs, "reaction"@) {
            Err(e) => Err(e),
            Ok(reaction) => match reaction_item_field(fs, "item"@) {
                Err(e) => Err(e),
                Ok(item) => match text_field(fs, "item_user"@) {
                    Err(e) => Err(e),
                    Ok(item_user) => match text_field(fs, "event_ts"@) {
                        Err(e) => Err(e),
                        Ok(event_ts) => Ok(EventView::ReactionAdded { user, reaction, item, item_user, event_ts }),
                    },
                },
            },
        },
    }
}

/// Decodes the fields of a `reaction_added` event.
fn decode_reaction_added(fields: &Vec<Field>) -> (r: Result<Event, EventError>)
    ensures
        decoded_view(r) == reaction_added_event(fields.deep_view()),
{
    let user = match read_text(fields, "user") {
        Ok(v) => v,
        Err(e) => {
            return Err(e);
        },
    };
    let reaction = match read_text(fields, "reaction") {
        Ok(v) => v,
        Err(e) => {
            return Err(e);
        },
    };
    let item = match read_reaction_item(fields, "item") {
        Ok(v) => v,
        Err(e) => {
            return Err(e);
        },
    };
    let item_user = match read_text(fields, "item_user") {
        Ok(v) => v,
        Err(e) => {
            return Err(e);
        },
    };
    let event_ts = match read_text(fields, "event_ts") {
        Ok(v) => v,
        Err(e) => {
            return Err(e);
        },
    };
    Ok(Event::ReactionAdded { user, reaction, item, item_user, event_ts })
}

/// The `reaction_removed` event that the fields give, or why they give none.
pub open spec fn reaction_removed_event(fs: Seq<FieldView>) -> Result<EventView, EventErrorView> {
    match text_field(fs, "user"@) {
        Err(e) => Err(e),
        Ok(user) => match text_field(fs, "reaction"@) {
            Err(e) => Err(e),
            Ok(reaction) => match reaction_item_field(fs, "item"@) {
                Err(e) => Err(e),
                Ok(item) => match text_field(fs, "item_user"@) {
                    Err(e) => Err(e),
                    Ok(item_user) => match text_field(fs, "event_ts"@) {
                        Err(e) => Err(e),
                        Ok(event_ts) => Ok(EventView::ReactionRemoved { user, reaction, item, item_user, event_ts }),
                    },
                },
            },
        },
    }
}

/// Decodes the fields of a `reaction_removed` event.
fn decode_reaction_removed(fields: &Vec<Field>) -> (r: Result<Event, EventError>)
    ensures
        decoded_view(r) == reaction_removed_event(fields.deep_view()),
{
    let user = match read_text(fields, "user") {
        Ok(v) => v,
        Err(e) => {
            return Err(e);
        },
    };
    let reaction = match read_text(fields, "reaction") {
        Ok(v) => v,
        Err(e) => {
            return Err(e);
        },
    };
    let item = match read_reaction_item(fields, "item") {
        Ok(v) => v,
        Err(e) => {
            return Err(e);
        },
    };
    let item_user = match read_text(fields, "item_user") {
        Ok(v) => v,
        Err(e) => {
            return Err(e);
        },
    };
    let event_ts = match read_text(fields, "event_ts") {
        Ok(v) => v,
        Err(e) => {
            return Err(e);
        },
    };
    Ok(Event::ReactionRemoved { user, reaction, item, item_user, event_ts })
}

/// The `emoji_changed` event that the fields give, or why they give none.
pub open spec fn emoji_changed_event(fs: Seq<FieldView>) -> Result<EventView, EventErrorView> {
    match text_field(fs, "event_ts"@) {
        Err(e) => Err(e),
        Ok(event_ts) => Ok(EventView::EmojiChanged { event_ts }),
    }
}

/// Decodes the fields of a `emoji_changed` event.
fn decode_emoji_changed(fields: &Vec<Field>) -> (r: Result<Event, EventError>)
    ensures
        decoded_view(r) == emoji_changed_event(fields.deep_view()),
{
    let event_ts = match read_text(fields, "event_ts") {
        Ok(v) => v,
        Err(e) => {
            return Err(e);
        },
    };
    Ok(Event::EmojiChanged { event_ts })
}

/// The `commands_changed` event that the fields give, or why they give none.
pub open spec fn commands_changed_event(fs: Seq<FieldView>) -> Result<EventView, EventErrorView> {
    match text_field(fs, "event_ts"@) {
        Err(e) => Err(e),
        Ok(event_ts) => Ok(EventView::CommandsChanged { event_ts }),
    }
}

/// Decodes the fields of a `commands_changed` event.
fn decode_commands_changed(fields: &Vec<Field>) -> (r: Result<Event, EventError>)
    ensures
        decoded_view(r) == commands_changed_event(fields.deep_view()),
{
    let event_ts = match read_text(fields, "event_ts") {
        Ok(v) => v,
        Err(e) => {
            return Err(e);
        },
    };
    Ok(Event::CommandsChanged { event_ts })
}

/// The `team_plan_change` event that the fields give, or why they give none.
pub open spec fn team_plan_change_event(fs: Seq<FieldView>) -> Result<EventView, EventErrorView> {
    match text_field(fs, "plan"@) {
        Err(e) => Err(e),
        Ok(plan) => Ok(EventView::TeamPlanChange { plan }),
    }
}

/// Decodes the fields of a `team_plan_change` event.
fn decode_team_plan_change(fields: &Vec<Field>) -> (r: Result<Event, EventError>)
    ensures
        decoded_view(r) == team_plan_change_event(fields.deep_view()),
{
    let plan = match read_text(fields, "plan") {
        Ok(v) => v,
        Err(e) => {
            return Err(e);
        },
    };
    Ok(Event::TeamPlanChange { plan })
}

/// The `team_pref_change` event that the fields give, or why they give none.
pub open spec fn team_pref_change_event(fs: Seq<FieldView>) -> Result<EventView, EventErrorView> {
    match text_field(fs, "name"@) {
        Err(e) => Err(e),
        Ok(name) => match bool_field(fs, "value"@) {
            Err(e) => Err(e),
            Ok(value) => Ok(EventView::TeamPrefChange { name, value }),
        },
    }
}

/// Decodes the fields of a `team_pref_change` event.
fn decode_team_pref_change(fields: &Vec<Field>) -> (r: Result<Event, EventError>)
    ensures
        decoded_view(r) == team_pref_change_event(fields.deep_view()),
{
    let name = match read_text(fields, "name") {
        Ok(v) => v,
        Err(e) => {
            return Err(e);
        },
    };
    let value = match read_bool(fields, "value") {
        Ok(v) => v,
        Err(e) => {
            return Err(e);
        },
    };
    Ok(Event::TeamPrefChange { name, value })
}

/// The `team_rename` event that the fields give, or why they give none.
pub open spec fn team_rename_event(fs: Seq<FieldView>) -> Result<EventView, EventErrorView> {
    match text_field(fs, "name"@) {
        Err(e) => Err(e),
        Ok(name) => Ok(EventView::TeamRename { name }),
    }
}

/// Decodes the fields of a `team_rename` event.
fn decode_team_rename(fields: &Vec<Field>) -> (r: Result<Event, EventError>)
    ensures
        decoded_view(r) == team_rename_event(fields.deep_view()),
{
    let name = match read_text(fields, "name") {
        Ok(v) => v,
        Err(e) => {
            return Err(e);
        },
    };
    Ok(Event::TeamRename { name })
}

/// The `team_domain_change` event that the fields give, or why they give none.
pub open spec fn team_domain_change_event(fs: Seq<FieldView>) -> Result<EventView, EventErrorView> {
    match text_field(fs, "url"@) {
        Err(e) => Err(e),
        Ok(url) => match text_field(fs, "domain"@) {
            Err(e) => Err(e),
            Ok(domain) => Ok(EventView::TeamDomainChange { url, domain }),
        },
    }
}

/// Decodes the fields of a `team_domain_change` event.
fn decode_team_domain_change(fields: &Vec<Field>) -> (r: Result<Event, EventError>)
    ensures
        decoded_view(r) == team_domain_change_event(fields.deep_view()),
{
    let url = match read_text(fields, "url") {
        Ok(v) => v,
        Err(e) => {
            return Err(e);
        },
    };
    let domain = match read_text(fields, "domain") {
        Ok(v) => v,
        Err(e) => {
            return Err(e);
        },
    };
    Ok(Event::TeamDomainChange { url, domain })
}

/// The `email_domain_changeed` event that the fields give, or why they give none.
pub open spec fn email_domain_changed_event(fs: Seq<FieldView>) -> Result<EventView, EventErrorView> {
    match text_field(fs, "email_domain"@) {
        Err(e) => Err(e),
        Ok(email_domain) => match text_field(fs, "event_ts"@) {
            Err(e) => Err(e),
            Ok(event_ts) => Ok(EventView::EmailDomainChanged { email_domain, event_ts }),
        },
    }
}

/// Decodes the fields of a `email_domain_changeed` event.
fn decode_email_domain_changed(fields: &Vec<Field>) -> (r: Result<Event, EventError>)
    ensures
        decoded_view(r) == email_domain_changed_event(fields.deep_view()),
{
    let email_domain = match read_text(fields, "email_domain") {
        Ok(v) => v,
        Err(e) => {
            return Err(e);
        },
    };
    let event_ts = match read_text(fields, "event_ts") {
        Ok(v) => v,
        Err(e) => {
            return Err(e);
        },
    };
    Ok(Event::EmailDomainChanged { email_domain, event_ts })
}

/// The `bot_added` event that the fields give, or why they give none.
pub open spec fn bot_added_event(fs: Seq<FieldView>) -> Result<EventView, EventErrorView> {
    match bot_field(fs, "bot"@) {
        Err(e) => Err(e),
        Ok(bot) => Ok(EventView::BotAdded { bot }),
    }
}

/// Decodes the fields of a `bot_added` event.
fn decode_bot_added(fields: &Vec<Field>) -> (r: Result<Event, EventError>)
    ensures
        decoded_view(r) == bot_added_event(fields.deep_view()),
{
    let bot = match read_bot(fields, "bot") {
        Ok(v) => v,
        Err(e) => {
            return Err(e);
        },
    };
    Ok(Event::BotAdded { bot })
}

/// The `bot_changed` event that the fields give, or why they give none.
pub open spec fn bot_changed_event(fs: Seq<FieldView>) -> Result<EventView, EventErrorView> {
    match bot_field(fs, "bot"@) {
        Err(e) => Err(e),
        Ok(bot) => Ok(EventView::BotChanged { bot }),
    }
}

/// Decodes the fields of a `bot_changed` event.
fn decode_bot_changed(fields: &Vec<Field>) -> (r: Result<Event, EventError>)
    ensures
        decoded_view(r) == bot_changed_event(fields.deep_view()),
{
    let bot = match read_bot(fields, "bot") {
        Ok(v) => v,
        Err(e) => {
            return Err(e);
        },
    };
    Ok(Event::BotChanged { bot })
}

/// The event that a decided frame's `type` names, with its fields, or why
/// the fields give none.
pub open spec fn type_event(ty: Seq<char>, fs: Seq<FieldView>) -> Result<EventView, EventErrorView> {
    if ty == "hello"@ {
        Ok(EventView::Hello)
    } else if ty == "message"@ {
        message_event(fs)
    } else if ty == "user_typing"@ {
        user_typing_event(fs)
    } else if ty == "channel_marked"@ {
        channel_marked_event(fs)
    } else if ty == "channel_created"@ {
        channel_created_event(fs)
    } else if ty == "channel_joined"@ {
        channel_joined_event(fs)
    } else if ty == "channel_left"@ {
        channel_left_event(fs)
    } else if ty == "channel_deleted"@ {
        channel_deleted_event(fs)
    } else if ty == "channel_rename"@ {
        channel_rename_event(fs)
    } else if ty == "channel_archive"@ {
        channel_archive_event(fs)
    } else if ty == "channel_unarchive"@ {
        channel_un_archive_event(fs)
    } else if ty == "channel_history_changed"@ {
        channel_history_changed_event(fs)
    } else if ty == "im_created"@ {
        im_created_event(fs)
    } else if ty == "im_open"@ {
        im_open_event(fs)
    } else if ty == "im_close"@ {
        im_close_event(fs)
    } else if ty == "im_marked"@ {
        im_marked_event(fs)
    } else if ty == "im_history_changed"@ {
        im_history_changed_event(fs)
    } else if ty == "group_joined"@ {
        group_joined_event(fs)
    } else if ty == "group_left"@ {
        group_left_event(fs)
    } else if ty == "group_open"@ {
        group_open_event(fs)
    } else if ty == "group_close"@ {
        group_close_event(fs)
    } else if ty == "group_archive"@ {
        group_archive_event(fs)
    } else if ty == "group_unarchive"@ {
        group_un_archive_event(fs)
    } else if ty == "group_rename"@ {
        group_rename_event(fs)
    } else if ty == "group_marked"@ {
        group_marked_event(fs)
    } else if ty == "group_history_changed"@ {
        group_history_changed_event(fs)
    } else if ty == "file_created"@ {
        file_created_event(fs)
    } else if ty == "file_shared"@ {
        file_shared_event(fs)
    } else if ty == "file_unshared"@ {
        file_un_shared_event(fs)
    } else if ty == "file_public"@ {
        file_public_event(fs)
    } else if ty == "file_private"@ {
        file_private_event(fs)
    } else if ty == "file_change"@ {
        file_change_event(fs)
    } else if ty == "file_deleted"@ {
        file_deleted_event(fs)
    } else if ty == "file_comment_added"@ {
        file_comment_added_event(fs)
    } else if ty == "file_comment_edited"@ {
        file_comment_edited_event(fs)
    } else if ty == "file_comment_deleted"@ {
        file_comment_deleted_event(fs)
    } else if ty == "pin_added"@ {
        pin_added_event(fs)
    } else if ty == "pin_removed"@ {
        pin_removed_event(fs)
    } else if ty == "presence_change"@ {
        presence_change_event(fs)
    } else if ty == "manual_presence_change"@ {
        manual_presence_change_event(fs)
    } else if ty == "pref_change"@ {
        pref_change_event(fs)
    } else if ty == "user_change"@ {
        user_change_event(fs)
    } else if ty == "team_join"@ {
        team_join_event(fs)
    } else if ty == "star_added"@ {
        star_added_event(fs)
    } else if ty == "star_removed"@ {
        star_removed_event(fs)
    } else if ty == "reaction_added"@ {
        reaction_added_event(fs)
    } else if ty == "reaction_removed"@ {
        reaction_removed_event(fs)
    } else if ty == "emoji_changed"@ {
        emoji_changed_event(fs)
    } else if ty == "commands_changed"@ {
        commands_changed_event(fs)
    } else if ty == "team_plan_change"@ {
        team_plan_change_event(fs)
    } else if ty == "team_pref_change"@ {
        team_pref_change_event(fs)
    } else if ty == "team_rename"@ {
        team_rename_event(fs)
    } else if ty == "team_domain_change"@ {
        team_domain_change_event(fs)
    } else if ty == "email_domain_changeed"@ {
        email_domain_changed_event(fs)
    } else if ty == "email_domain_changed"@ {
        email_domain_changed_event(fs)
    } else if ty == "bot_added"@ {
        bot_added_event(fs)
    } else if ty == "bot_changed"@ {
        bot_changed_event(fs)
    } else if ty == "accounts_changed"@ {
        Ok(EventView::AccountsChanged)
    } else if ty == "team_migration_started"@ {
        Ok(EventView::TeamMigrationStarted)
    } else if ty == "reconnect_url"@ {
        Ok(EventView::ReconnectUrl)
    } else {
        Err(EventErrorView::UnknownType(ty))
    }
}

/// Decodes the fields of an event whose `type` field holds `ty`.
fn decode_type(ty: &String, fields: &Vec<Field>) -> (r: Result<Event, EventError>)
    requires
        fields.len() > 0,
    ensures
        decoded_view(r) == type_event(ty@, fields.deep_view()),
        users_read(fields.deep_view(), r),
{
    if text_is(ty, "hello") {
        Ok(Event::Hello)
    } else if text_is(ty, "message") {
        decode_message(fields)
    } else if text_is(ty, "user_typing") {
        decode_user_typing(fields)
    } else if text_is(ty, "channel_marked") {
        decode_channel_marked(fields)
    } else if text_is(ty, "channel_created") {
        decode_channel_created(fields)
    } else if text_is(ty, "channel_joined") {
        decode_channel_joined(fields)
    } else if text_is(ty, "channel_left") {
        decode_channel_left(fields)
    } else if text_is(ty, "channel_deleted") {
        decode_channel_deleted(fields)
    } else if text_is(ty, "channel_rename") {
        decode_channel_rename(fields)
    } else if text_is(ty, "channel_archive") {
        decode_channel_archive(fields)
    } else if text_is(ty, "channel_unarchive") {
        decode_channel_un_archive(fields)
    } else if text_is(ty, "channel_history_changed") {
        decode_channel_history_changed(fields)
    } else if text_is(ty, "im_created") {
        decode_im_created(fields)
    } else if text_is(ty, "im_open") {
        decode_im_open(fields)
    } else if text_is(ty, "im_close") {
        decode_im_close(fields)
    } else if text_is(ty, "im_marked") {
        decode_im_marked(fields)
    } else if text_is(ty, "im_history_changed") {
        decode_im_history_changed(fields)
    } else if text_is(ty, "group_joined") {
        decode_group_joined(fields)
    } else if text_is(ty, "group_left") {
        decode_group_left(fields)
    } else if text_is(ty, "group_open") {
        decode_group_open(fields)
    } else if text_is(ty, "group_close") {
        decode_group_close(fields)
    } else if text_is(ty, "group_archive") {
        decode_group_archive(fields)
    } else if text_is(ty, "group_unarchive") {
        decode_group_un_archive(fields)
    } else if text_is(ty, "group_rename") {
        decode_group_rename(fields)
    } else if text_is(ty, "group_marked") {
        decode_group_marked(fields)
    } else if text_is(ty, "group_history_changed") {
        decode_group_history_changed(fields)
    } else if text_is(ty, "file_created") {
        decode_file_created(fields)
    } else if text_is(ty, "file_shared") {
        decode_file_shared(fields)
    } else if text_is(ty, "file_unshared") {
        decode_file_un_shared(fields)
    } else if text_is(ty, "file_public") {
        decode_file_public(fields)
    } else if text_is(ty, "file_private") {
        decode_file_private(fields)
    } else if text_is(ty, "file_change") {
        decode_file_change(fields)
    } else if text_is(ty, "file_deleted") {
        decode_file_deleted(fields)
    } else if text_is(ty, "file_comment_added") {
        decode_file_comment_added(fields)
    } else if text_is(ty, "file_comment_edited") {
        decode_file_comment_edited(fields)
    } else if text_is(ty, "file_comment_deleted") {
        decode_file_comment_deleted(fields)
    } else if text_is(ty, "pin_added") {
        decode_pin_added(fields)
    } else if text_is(ty, "pin_removed") {
        decode_pin_removed(fields)
    } else if text_is(ty, "presence_change") {
        decode_presence_change(fields)
    } else if text_is(ty, "manual_presence_change") {
        decode_manual_presence_change(fields)
    } else if text_is(ty, "pref_change") {
        decode_pref_change(fields)
    } else if text_is(ty, "user_change") {
        decode_user_change(fields)
    } else if text_is(ty, "team_join") {
        decode_team_join(fields)
    } else if text_is(ty, "star_added") {
        decode_star_added(fields)
    } else if text_is(ty, "star_removed") {
        decode_star_removed(fields)
    } else if text_is(ty, "reaction_added") {
        decode_reaction_added(fields)
    } else if text_is(ty, "reaction_removed") {
        decode_reaction_removed(fields)
    } else if text_is(ty, "emoji_changed") {
        decode_emoji_changed(fields)
    } else if text_is(ty, "commands_changed") {
        decode_commands_changed(fields)
    } else if text_is(ty, "team_plan_change") {
        decode_team_plan_change(fields)
    } else if text_is(ty, "team_pref_change") {
        decode_team_pref_change(fields)
    } else if text_is(ty, "team_rename") {
        decode_team_rename(fields)
    } else if text_is(ty, "team_domain_change") {
        decode_team_domain_change(fields)
    } else if text_is(ty, "email_domain_changeed") {
        decode_email_domain_changed(fields)
    } else if text_is(ty, "email_domain_changed") {
        decode_email_domain_changed(fields)
    } else if text_is(ty, "bot_added") {
        decode_bot_added(fields)
    } else if text_is(ty, "bot_changed") {
        decode_bot_changed(fields)
    } else if text_is(ty, "accounts_changed") {
        Ok(Event::AccountsChanged)
    } else if text_is(ty, "team_migration_started") {
        Ok(Event::TeamMigrationStarted)
    } else if text_is(ty, "reconnect_url") {
        Ok(Event::ReconnectUrl)
    } else {
        Err(EventError::UnknownType(ty.clone()))
    }
}

/// The fields leave the event undecided: there are none, or the first holds
/// text under a key other than `type`.
pub open spec fn fields_undecided(fields: Seq<FieldView>) -> bool {
    fields.len() == 0 || (fields[0].2 is Some && fields[0].0 != "type"@)
}

/// The event that decided fields name, or why they name none.
pub open spec fn decode_fields_spec(fields: Seq<FieldView>) -> Result<EventView, EventErrorView>
    recommends
        !fields_undecided(fields),
{
    match fields[0].2 {
        None => Err(EventErrorView::NotText(fields[0].0)),
        Some(ty) => type_event(ty, fields),
    }
}

/// Decodes the fields of a frame's JSON object into the event they name.
pub fn decode_fields(fields: &Vec<Field>) -> (r: Result<Event, EventError>)
    requires
        !fields_undecided(fields.deep_view()),
    ensures
        decoded_view(r) == decode_fields_spec(fields.deep_view()),
        users_read(fields.deep_view(), r),
{
    assert(fields.deep_view()[0] == fields@[0].deep_view());
    match &fields[0].2 {
        None => Err(EventError::NotText(fields[0].0.clone())),
        Some(ty) => decode_type(ty, fields),
    }
}

} // verus!
