//! What decoding gives, stated over the frame's fields: each event type named
//! by the `type` field decodes to the event that represents it, carrying what
//! the fields of the same names hold.

use vstd::prelude::*;
use vstd::string::*;
use crate::decode::{decode_fields_spec, type_event, typing_fields};
use crate::events::{decoded_view, decodes_to, description_of, pair_debug_text, Event, EventError, EventErrorView, EventView};
use crate::fields::json_object_fields_of;
use crate::fields::{
    bool_field, bot_field, channel_field, field_index, file_comment_field, file_field, last_index,
    parsed_bool, parsed_bot, parsed_channel, parsed_file, parsed_file_comment, parsed_pinned_item,
    parsed_reaction_item, parsed_star_item, parsed_unpinned_item, pinned_item_field,
    reaction_item_field, star_item_field, text_field, unpinned_item_field, user_field,
    user_json_error, FieldView,
};
use crate::timestamps::holds_timestamp_overflow;
use crate::fields::{object_text, members_text, member_text, parsed_message};
use slack_api::{Bot, Channel, File, FileComment, MessagePinnedItem, MessageUnpinnedItem};

verus! {

/// The frame's first field is `type` and holds the text `ty`.
pub open spec fn types_as(fs: Seq<FieldView>, ty: Seq<char>) -> bool {
    fs.len() > 0 && fs[0].0 == "type"@ && fs[0].2 == Some(ty)
}

/// Index `i` holds the last field named `key` after the leading `type` field.
pub open spec fn last_named(fs: Seq<FieldView>, key: Seq<char>, i: int) -> bool {
    &&& 1 <= i < fs.len()
    &&& fs[i].0 == key
    &&& forall|j: int| i < j < fs.len() ==> fs[j].0 != key
}

/// The last field named `key` holds the text `v`.
pub open spec fn text_at(fs: Seq<FieldView>, key: Seq<char>, v: Seq<char>) -> bool {
    exists|i: int| last_named(fs, key, i) && fs[i].2 == Some(v)
}

proof fn lemma_last_index_is_last(fs: Seq<FieldView>, key: Seq<char>, n: int)
    requires
        n <= fs.len(),
    ensures
        last_index(fs, key, n) >= 1 ==> (1 <= last_index(fs, key, n) < n && fs[last_index(fs, key, n)].0 == key
            && forall|j: int| last_index(fs, key, n) < j < n ==> fs[j].0 != key),
        last_index(fs, key, n) < 1 ==> forall|j: int| 1 <= j < n ==> fs[j].0 != key,
    decreases n,
{
    if n > 1 {
        lemma_last_index_is_last(fs, key, n - 1);
    }
}

/// The field an event reads under `key` is the last one of that name.
proof fn lemma_field_index(fs: Seq<FieldView>, key: Seq<char>)
    ensures
        field_index(fs, key) >= 1 ==> last_named(fs, key, field_index(fs, key)),
        forall|i: int| #[trigger] last_named(fs, key, i) ==> i == field_index(fs, key),
{
    lemma_last_index_is_last(fs, key, fs.len() as int);
}

proof fn lemma_text_at(fs: Seq<FieldView>, key: Seq<char>, v: Seq<char>)
    ensures
        text_field(fs, key) == Ok::<Seq<char>, EventErrorView>(v) <==> text_at(fs, key, v),
{
    lemma_field_index(fs, key);
    if text_field(fs, key) == Ok::<Seq<char>, EventErrorView>(v) {
        assert(last_named(fs, key, field_index(fs, key)));
    }
}

/// The last field named `key` reads as a user.
pub open spec fn user_ok_at(fs: Seq<FieldView>, key: Seq<char>) -> bool {
    exists|i: int| last_named(fs, key, i) && user_json_error(fs[i].3) is None
}

proof fn lemma_user_ok_at(fs: Seq<FieldView>, key: Seq<char>)
    ensures
        user_field(fs, key) == Ok::<(), EventErrorView>(()) <==> user_ok_at(fs, key),
{
    lemma_field_index(fs, key);
    if user_field(fs, key) == Ok::<(), EventErrorView>(()) {
        assert(last_named(fs, key, field_index(fs, key)));
    }
}

/// The last field named `key` reads as a boolean `v`.
pub open spec fn bool_at(fs: Seq<FieldView>, key: Seq<char>, v: bool) -> bool {
    exists|i: int| last_named(fs, key, i) && parsed_bool(fs[i].3) == Ok::<bool, Seq<char>>(v)
}

proof fn lemma_bool_at(fs: Seq<FieldView>, key: Seq<char>, v: bool)
    ensures
        bool_field(fs, key) == Ok::<bool, EventErrorView>(v) <==> bool_at(fs, key, v),
{
    lemma_field_index(fs, key);
    if bool_field(fs, key) == Ok::<bool, EventErrorView>(v) {
        assert(last_named(fs, key, field_index(fs, key)));
    }
}

/// The last field named `key`, holds no timestamp that overflows, reads as a channel `v`.
pub open spec fn channel_at(fs: Seq<FieldView>, key: Seq<char>, v: Channel) -> bool {
    exists|i: int| last_named(fs, key, i) && !holds_timestamp_overflow(fs[i].3) && parsed_channel(fs[i].3) == Ok::<Channel, Seq<char>>(v)
}

proof fn lemma_channel_at(fs: Seq<FieldView>, key: Seq<char>, v: Channel)
    ensures
        channel_field(fs, key) == Ok::<Channel, EventErrorView>(v) <==> channel_at(fs, key, v),
{
    lemma_field_index(fs, key);
    if channel_field(fs, key) == Ok::<Channel, EventErrorView>(v) {
        assert(last_named(fs, key, field_index(fs, key)));
    }
}

/// The last field named `key`, holds no timestamp that overflows, reads as a file `v`.
pub open spec fn file_at(fs: Seq<FieldView>, key: Seq<char>, v: File) -> bool {
    exists|i: int| last_named(fs, key, i) && !holds_timestamp_overflow(fs[i].3) && parsed_file(fs[i].3) == Ok::<File, Seq<char>>(v)
}

proof fn lemma_file_at(fs: Seq<FieldView>, key: Seq<char>, v: File)
    ensures
        file_field(fs, key) == Ok::<File, EventErrorView>(v) <==> file_at(fs, key, v),
{
    lemma_field_index(fs, key);
    if file_field(fs, key) == Ok::<File, EventErrorView>(v) {
        assert(last_named(fs, key, field_index(fs, key)));
    }
}

/// The last field named `key`, holds no timestamp that overflows, reads as a file comment `v`.
pub open spec fn file_comment_at(fs: Seq<FieldView>, key: Seq<char>, v: FileComment) -> bool {
    exists|i: int| last_named(fs, key, i) && !holds_timestamp_overflow(fs[i].3) && parsed_file_comment(fs[i].3) == Ok::<FileComment, Seq<char>>(v)
}

proof fn lemma_file_comment_at(fs: Seq<FieldView>, key: Seq<char>, v: FileComment)
    ensures
        file_comment_field(fs, key) == Ok::<FileComment, EventErrorView>(v) <==> file_comment_at(fs, key, v),
{
    lemma_field_index(fs, key);
    if file_comment_field(fs, key) == Ok::<FileComment, EventErrorView>(v) {
        assert(last_named(fs, key, field_index(fs, key)));
    }
}

/// The last field named `key`, holds no timestamp that overflows, reads as a pinned item `v`.
pub open spec fn pinned_item_at(fs: Seq<FieldView>, key: Seq<char>, v: MessagePinnedItem) -> bool {
    exists|i: int| last_named(fs, key, i) && !holds_timestamp_overflow(fs[i].3) && parsed_pinned_item(fs[i].3) == Ok::<MessagePinnedItem, Seq<char>>(v)
}

proof fn lemma_pinned_item_at(fs: Seq<FieldView>, key: Seq<char>, v: MessagePinnedItem)
    ensures
        pinned_item_field(fs, key) == Ok::<MessagePinnedItem, EventErrorView>(v) <==> pinned_item_at(fs, key, v),
{
    lemma_field_index(fs, key);
    if pinned_item_field(fs, key) == Ok::<MessagePinnedItem, EventErrorView>(v) {
        assert(last_named(fs, key, field_index(fs, key)));
    }
}

/// The last field named `key`, holds no timestamp that overflows, reads as an unpinned item `v`.
pub open spec fn unpinned_item_at(fs: Seq<FieldView>, key: Seq<char>, v: MessageUnpinnedItem) -> bool {
    exists|i: int| last_named(fs, key, i) && !holds_timestamp_overflow(fs[i].3) && parsed_unpinned_item(fs[i].3) == Ok::<MessageUnpinnedItem, Seq<char>>(v)
}

proof fn lemma_unpinned_item_at(fs: Seq<FieldView>, key: Seq<char>, v: MessageUnpinnedItem)
    ensures
        unpinned_item_field(fs, key) == Ok::<MessageUnpinnedItem, EventErrorView>(v) <==> unpinned_item_at(fs, key, v),
{
    lemma_field_index(fs, key);
    if unpinned_item_field(fs, key) == Ok::<MessageUnpinnedItem, EventErrorView>(v) {
        assert(last_named(fs, key, field_index(fs, key)));
    }
}

/// The last field named `key` reads as a bot `v`.
pub open spec fn bot_at(fs: Seq<FieldView>, key: Seq<char>, v: Bot) -> bool {
    exists|i: int| last_named(fs, key, i) && parsed_bot(fs[i].3) == Ok::<Bot, Seq<char>>(v)
}

proof fn lemma_bot_at(fs: Seq<FieldView>, key: Seq<char>, v: Bot)
    ensures
        bot_field(fs, key) == Ok::<Bot, EventErrorView>(v) <==> bot_at(fs, key, v),
{
    lemma_field_index(fs, key);
    if bot_field(fs, key) == Ok::<Bot, EventErrorView>(v) {
        assert(last_named(fs, key, field_index(fs, key)));
    }
}

/// The last field named `key`, holds no timestamp that overflows, reads as a starred item `v`.
pub open spec fn star_item_at(fs: Seq<FieldView>, key: Seq<char>, v: slack_api::stars::ListResponseItem) -> bool {
    exists|i: int| last_named(fs, key, i) && !holds_timestamp_overflow(fs[i].3) && parsed_star_item(fs[i].3) == Ok::<slack_api::stars::ListResponseItem, Seq<char>>(v)
}

proof fn lemma_star_item_at(fs: Seq<FieldView>, key: Seq<char>, v: slack_api::stars::ListResponseItem)
    ensures
        star_item_field(fs, key) == Ok::<slack_api::stars::ListResponseItem, EventErrorView>(v) <==> star_item_at(fs, key, v),
{
    lemma_field_index(fs, key);
    if star_item_field(fs, key) == Ok::<slack_api::stars::ListResponseItem, EventErrorView>(v) {
        assert(last_named(fs, key, field_index(fs, key)));
    }
}

/// The last field named `key`, holds no timestamp that overflows, reads as an item with a reaction `v`.
pub open spec fn reaction_item_at(fs: Seq<FieldView>, key: Seq<char>, v: slack_api::reactions::ListResponseItem) -> bool {
    exists|i: int| last_named(fs, key, i) && !holds_timestamp_overflow(fs[i].3) && parsed_reaction_item(fs[i].3) == Ok::<slack_api::reactions::ListResponseItem, Seq<char>>(v)
}

proof fn lemma_reaction_item_at(fs: Seq<FieldView>, key: Seq<char>, v: slack_api::reactions::ListResponseItem)
    ensures
        reaction_item_field(fs, key) == Ok::<slack_api::reactions::ListResponseItem, EventErrorView>(v) <==> reaction_item_at(fs, key, v),
{
    lemma_field_index(fs, key);
    if reaction_item_field(fs, key) == Ok::<slack_api::reactions::ListResponseItem, EventErrorView>(v) {
        assert(last_named(fs, key, field_index(fs, key)));
    }
}

/// A `hello` frame decodes to `Hello`, whatever else it holds.
pub proof fn law_hello(fs: Seq<FieldView>)
    requires
        types_as(fs, "hello"@),
    ensures
        decode_fields_spec(fs) == Ok::<EventView, EventErrorView>(EventView::Hello),
{
    broadcast use vstd::string::group_string_axioms;
    reveal_strlit("hello");
    assert("hello"@.len() == 5);
}

/// A `channel_marked` frame decodes to `ChannelMarked` exactly when its fields `channel`, `ts`
/// read as the event declares, and then carries what those fields hold.
pub proof fn law_channel_marked(fs: Seq<FieldView>, channel: Seq<char>, ts: Seq<char>)
    requires
        types_as(fs, "channel_marked"@),
    ensures
        decode_fields_spec(fs) == Ok::<EventView, EventErrorView>(EventView::ChannelMarked { channel, ts })
            <==> text_at(fs, "channel"@, channel) && text_at(fs, "ts"@, ts),
{
    broadcast use vstd::string::group_string_axioms;
    reveal_strlit("channel_marked");
    assert("channel_marked"@.len() == 14);
    reveal_strlit("hello");
    assert("hello"@.len() == 5);
    reveal_strlit("message");
    assert("message"@.len() == 7);
    reveal_strlit("user_typing");
    assert("user_typing"@.len() == 11);
    lemma_text_at(fs, "channel"@, channel);
    lemma_text_at(fs, "ts"@, ts);
    assert(decode_fields_spec(fs) == type_event("channel_marked"@, fs));
    assert(type_event("channel_marked"@, fs) == crate::decode::channel_marked_event(fs));
}

/// A `channel_created` frame decodes to `ChannelCreated` exactly when its fields `channel`
/// read as the event declares, and then carries what those fields hold.
pub proof fn law_channel_created(fs: Seq<FieldView>, channel: Channel)
    requires
        types_as(fs, "channel_created"@),
    ensures
        decode_fields_spec(fs) == Ok::<EventView, EventErrorView>(EventView::ChannelCreated { channel })
            <==> channel_at(fs, "channel"@, channel),
{
    broadcast use vstd::string::group_string_axioms;
    reveal_strlit("channel_created");
    assert("channel_created"@.len() == 15);
    reveal_strlit("hello");
    assert("hello"@.len() == 5);
    reveal_strlit("message");
    assert("message"@.len() == 7);
    reveal_strlit("user_typing");
    assert("user_typing"@.len() == 11);
    reveal_strlit("channel_marked");
    assert("channel_marked"@.len() == 14);
    lemma_channel_at(fs, "channel"@, channel);
    assert(decode_fields_spec(fs) == type_event("channel_created"@, fs));
    assert(type_event("channel_created"@, fs) == crate::decode::channel_created_event(fs));
}

/// A `channel_joined` frame decodes to `ChannelJoined` exactly when its fields `channel`
/// read as the event declares, and then carries what those fields hold.
pub proof fn law_channel_joined(fs: Seq<FieldView>, channel: Channel)
    requires
        types_as(fs, "channel_joined"@),
    ensures
        decode_fields_spec(fs) == Ok::<EventView, EventErrorView>(EventView::ChannelJoined { channel })
            <==> channel_at(fs, "channel"@, channel),
{
    broadcast use vstd::string::group_string_axioms;
    reveal_strlit("channel_joined");
    assert("channel_joined"@.len() == 14);
    reveal_strlit("hello");
    assert("hello"@.len() == 5);
    reveal_strlit("message");
    assert("message"@.len() == 7);
    reveal_strlit("user_typing");
    assert("user_typing"@.len() == 11);
    reveal_strlit("channel_marked");
    assert("channel_marked"@.len() == 14);
    reveal_strlit("channel_created");
    assert("channel_created"@.len() == 15);
    assert("channel_joined"@[8] == 'j' && "channel_marked"@[8] == 'm');
    lemma_channel_at(fs, "channel"@, channel);
    assert(decode_fields_spec(fs) == type_event("channel_joined"@, fs));
    assert(type_event("channel_joined"@, fs) == crate::decode::channel_joined_event(fs));
}

/// A `channel_left` frame decodes to `ChannelLeft` exactly when its fields `channel`
/// read as the event declares, and then carries what those fields hold.
pub proof fn law_channel_left(fs: Seq<FieldView>, channel: Seq<char>)
    requires
        types_as(fs, "channel_left"@),
    ensures
        decode_fields_spec(fs) == Ok::<EventView, EventErrorView>(EventView::ChannelLeft { channel })
            <==> text_at(fs, "channel"@, channel),
{
    broadcast use vstd::string::group_string_axioms;
    reveal_strlit("channel_left");
    assert("channel_left"@.len() == 12);
    reveal_strlit("hello");
    assert("hello"@.len() == 5);
    reveal_strlit("message");
    assert("message"@.len() == 7);
    reveal_strlit("user_typing");
    assert("user_typing"@.len() == 11);
    reveal_strlit("channel_marked");
    assert("channel_marked"@.len() == 14);
    reveal_strlit("channel_created");
    assert("channel_created"@.len() == 15);
    reveal_strlit("channel_joined");
    assert("channel_joined"@.len() == 14);
    lemma_text_at(fs, "channel"@, channel);
    assert(decode_fields_spec(fs) == type_event("channel_left"@, fs));
    assert(type_event("channel_left"@, fs) == crate::decode::channel_left_event(fs));
}

/// A `channel_deleted` frame decodes to `ChannelDeleted` exactly when its fields `channel`
/// read as the event declares, and then carries what those fields hold.
pub proof fn law_channel_deleted(fs: Seq<FieldView>, channel: Seq<char>)
    requires
        types_as(fs, "channel_deleted"@),
    ensures
        decode_fields_spec(fs) == Ok::<EventView, EventErrorView>(EventView::ChannelDeleted { channel })
            <==> text_at(fs, "channel"@, channel),
{
    broadcast use vstd::string::group_string_axioms;
    reveal_strlit("channel_deleted");
    assert("channel_deleted"@.len() == 15);
    reveal_strlit("hello");
    assert("hello"@.len() == 5);
    reveal_strlit("message");
    assert("message"@.len() == 7);
    reveal_strlit("user_typing");
    assert("user_typing"@.len() == 11);
    reveal_strlit("channel_marked");
    assert("channel_marked"@.len() == 14);
    reveal_strlit("channel_created");
    assert("channel_created"@.len() == 15);
    reveal_strlit("channel_joined");
    assert("channel_joined"@.len() == 14);
    reveal_strlit("channel_left");
    assert("channel_left"@.len() == 12);
    assert("channel_deleted"@[8] == 'd' && "channel_created"@[8] == 'c');
    lemma_text_at(fs, "channel"@, channel);
    assert(decode_fields_spec(fs) == type_event("channel_deleted"@, fs));
    assert(type_event("channel_deleted"@, fs) == crate::decode::channel_deleted_event(fs));
}

/// A `channel_rename` frame decodes to `ChannelRename` exactly when its fields `channel`
/// read as the event declares, and then carries what those fields hold.
pub proof fn law_channel_rename(fs: Seq<FieldView>, channel: Channel)
    requires
        types_as(fs, "channel_rename"@),
    ensures
        decode_fields_spec(fs) == Ok::<EventView, EventErrorView>(EventView::ChannelRename { channel })
            <==> channel_at(fs, "channel"@, channel),
{
    broadcast use vstd::string::group_string_axioms;
    reveal_strlit("channel_rename");
    assert("channel_rename"@.len() == 14);
    reveal_strlit("hello");
    assert("hello"@.len() == 5);
    reveal_strlit("message");
    assert("message"@.len() == 7);
    reveal_strlit("user_typing");
    assert("user_typing"@.len() == 11);
    reveal_strlit("channel_marked");
    assert("channel_marked"@.len() == 14);
    reveal_strlit("channel_created");
    assert("channel_created"@.len() == 15);
    reveal_strlit("channel_joined");
    assert("channel_joined"@.len() == 14);
    reveal_strlit("channel_left");
    assert("channel_left"@.len() == 12);
    reveal_strlit("channel_deleted");
    assert("channel_deleted"@.len() == 15);
    assert("channel_rename"@[8] == 'r' && "channel_marked"@[8] == 'm');
    assert("channel_rename"@[8] == 'r' && "channel_joined"@[8] == 'j');
    lemma_channel_at(fs, "channel"@, channel);
    assert(decode_fields_spec(fs) == type_event("channel_rename"@, fs));
    assert(type_event("channel_rename"@, fs) == crate::decode::channel_rename_event(fs));
}

/// A `channel_archive` frame decodes to `ChannelArchive` exactly when its fields `channel`, `user`
/// read as the event declares, and then carries what those fields hold.
pub proof fn law_channel_archive(fs: Seq<FieldView>, channel: Seq<char>, user: Seq<char>)
    requires
        types_as(fs, "channel_archive"@),
    ensures
        decode_fields_spec(fs) == Ok::<EventView, EventErrorView>(EventView::ChannelArchive { channel, user })
            <==> text_at(fs, "channel"@, channel) && text_at(fs, "user"@, user),
{
    broadcast use vstd::string::group_string_axioms;
    reveal_strlit("channel_archive");
    assert("channel_archive"@.len() == 15);
    reveal_strlit("hello");
    assert("hello"@.len() == 5);
    reveal_strlit("message");
    assert("message"@.len() == 7);
    reveal_strlit("user_typing");
    assert("user_typing"@.len() == 11);
    reveal_strlit("channel_marked");
    assert("channel_marked"@.len() == 14);
    reveal_strlit("channel_created");
    assert("channel_created"@.len() == 15);
    reveal_strlit("channel_joined");
    assert("channel_joined"@.len() == 14);
    reveal_strlit("channel_left");
    assert("channel_left"@.len() == 12);
    reveal_strlit("channel_deleted");
    assert("channel_deleted"@.len() == 15);
    reveal_strlit("channel_rename");
    assert("channel_rename"@.len() == 14);
    assert("channel_archive"@[8] == 'a' && "channel_created"@[8] == 'c');
    assert("channel_archive"@[8] == 'a' && "channel_deleted"@[8] == 'd');
    lemma_text_at(fs, "channel"@, channel);
    lemma_text_at(fs, "user"@, user);
    assert(decode_fields_spec(fs) == type_event("channel_archive"@, fs));
    assert(type_event("channel_archive"@, fs) == crate::decode::channel_archive_event(fs));
}

/// A `channel_unarchive` frame decodes to `ChannelUnArchive` exactly when its fields `channel`, `user`
/// read as the event declares, and then carries what those fields hold.
pub proof fn law_channel_unarchive(fs: Seq<FieldView>, channel: Seq<char>, user: Seq<char>)
    requires
        types_as(fs, "channel_unarchive"@),
    ensures
        decode_fields_spec(fs) == Ok::<EventView, EventErrorView>(EventView::ChannelUnArchive { channel, user })
            <==> text_at(fs, "channel"@, channel) && text_at(fs, "user"@, user),
{
    broadcast use vstd::string::group_string_axioms;
    reveal_strlit("channel_unarchive");
    assert("channel_unarchive"@.len() == 17);
    reveal_strlit("hello");
    assert("hello"@.len() == 5);
    reveal_strlit("message");
    assert("message"@.len() == 7);
    reveal_strlit("user_typing");
    assert("user_typing"@.len() == 11);
    reveal_strlit("channel_marked");
    assert("channel_marked"@.len() == 14);
    reveal_strlit("channel_created");
    assert("channel_created"@.len() == 15);
    reveal_strlit("channel_joined");
    assert("channel_joined"@.len() == 14);
    reveal_strlit("channel_left");
    assert("channel_left"@.len() == 12);
    reveal_strlit("channel_deleted");
    assert("channel_deleted"@.len() == 15);
    reveal_strlit("channel_rename");
    assert("channel_rename"@.len() == 14);
    reveal_strlit("channel_archive");
    assert("channel_archive"@.len() == 15);
    lemma_text_at(fs, "channel"@, channel);
    lemma_text_at(fs, "user"@, user);
    assert(decode_fields_spec(fs) == type_event("channel_unarchive"@, fs));
    assert(type_event("channel_unarchive"@, fs) == crate::decode::channel_un_archive_event(fs));
}

/// A `channel_history_changed` frame decodes to `ChannelHistoryChanged` exactly when its fields `latest`, `ts`, `event_ts`
/// read as the event declares, and then carries what those fields hold.
pub proof fn law_channel_history_changed(fs: Seq<FieldView>, latest: Seq<char>, ts: Seq<char>, event_ts: Seq<char>)
    requires
        types_as(fs, "channel_history_changed"@),
    ensures
        decode_fields_spec(fs) == Ok::<EventView, EventErrorView>(EventView::ChannelHistoryChanged { latest, ts, event_ts })
            <==> text_at(fs, "latest"@, latest) && text_at(fs, "ts"@, ts) && text_at(fs, "event_ts"@, event_ts),
{
    broadcast use vstd::string::group_string_axioms;
    reveal_strlit("channel_history_changed");
    assert("channel_history_changed"@.len() == 23);
    reveal_strlit("hello");
    assert("hello"@.len() == 5);
    reveal_strlit("message");
    assert("message"@.len() == 7);
    reveal_strlit("user_typing");
    assert("user_typing"@.len() == 11);
    reveal_strlit("channel_marked");
    assert("channel_marked"@.len() == 14);
    reveal_strlit("channel_created");
    assert("channel_created"@.len() == 15);
    reveal_strlit("channel_joined");
    assert("channel_joined"@.len() == 14);
    reveal_strlit("channel_left");
    assert("channel_left"@.len() == 12);
    reveal_strlit("channel_deleted");
    assert("channel_deleted"@.len() == 15);
    reveal_strlit("channel_rename");
    assert("channel_rename"@.len() == 14);
    reveal_strlit("channel_archive");
    assert("channel_archive"@.len() == 15);
    reveal_strlit("channel_unarchive");
    assert("channel_unarchive"@.len() == 17);
    lemma_text_at(fs, "latest"@, latest);
    lemma_text_at(fs, "ts"@, ts);
    lemma_text_at(fs, "event_ts"@, event_ts);
    assert(decode_fields_spec(fs) == type_event("channel_history_changed"@, fs));
    assert(type_event("channel_history_changed"@, fs) == crate::decode::channel_history_changed_event(fs));
}

/// A `im_created` frame decodes to `ImCreated` exactly when its fields `user`, `channel`
/// read as the event declares, and then carries what those fields hold.
pub proof fn law_im_created(fs: Seq<FieldView>, user: Seq<char>, channel: Channel)
    requires
        types_as(fs, "im_created"@),
    ensures
        decode_fields_spec(fs) == Ok::<EventView, EventErrorView>(EventView::ImCreated { user, channel })
            <==> text_at(fs, "user"@, user) && channel_at(fs, "channel"@, channel),
{
    broadcast use vstd::string::group_string_axioms;
    reveal_strlit("im_created");
    assert("im_created"@.len() == 10);
    reveal_strlit("hello");
    assert("hello"@.len() == 5);
    reveal_strlit("message");
    assert("message"@.len() == 7);
    reveal_strlit("user_typing");
    assert("user_typing"@.len() == 11);
    reveal_strlit("channel_marked");
    assert("channel_marked"@.len() == 14);
    reveal_strlit("channel_created");
    assert("channel_created"@.len() == 15);
    reveal_strlit("channel_joined");
    assert("channel_joined"@.len() == 14);
    reveal_strlit("channel_left");
    assert("channel_left"@.len() == 12);
    reveal_strlit("channel_deleted");
    assert("channel_deleted"@.len() == 15);
    reveal_strlit("channel_rename");
    assert("channel_rename"@.len() == 14);
    reveal_strlit("channel_archive");
    assert("channel_archive"@.len() == 15);
    reveal_strlit("channel_unarchive");
    assert("channel_unarchive"@.len() == 17);
    reveal_strlit("channel_history_changed");
    assert("channel_history_changed"@.len() == 23);
    lemma_text_at(fs, "user"@, user);
    lemma_channel_at(fs, "channel"@, channel);
    assert(decode_fields_spec(fs) == type_event("im_created"@, fs));
    assert(type_event("im_created"@, fs) == crate::decode::im_created_event(fs));
}

/// A `im_open` frame decodes to `ImOpen` exactly when its fields `user`, `channel`
/// read as the event declares, and then carries what those fields hold.
pub proof fn law_im_open(fs: Seq<FieldView>, user: Seq<char>, channel: Seq<char>)
    requires
        types_as(fs, "im_open"@),
    ensures
        decode_fields_spec(fs) == Ok::<EventView, EventErrorView>(EventView::ImOpen { user, channel })
            <==> text_at(fs, "user"@, user) && text_at(fs, "channel"@, channel),
{
    broadcast use vstd::string::group_string_axioms;
    reveal_strlit("im_open");
    assert("im_open"@.len() == 7);
    reveal_strlit("hello");
    assert("hello"@.len() == 5);
    reveal_strlit("message");
    assert("message"@.len() == 7);
    reveal_strlit("user_typing");
    assert("user_typing"@.len() == 11);
    reveal_strlit("channel_marked");
    assert("channel_marked"@.len() == 14);
    reveal_strlit("channel_created");
    assert("channel_created"@.len() == 15);
    reveal_strlit("channel_joined");
    assert("channel_joined"@.len() == 14);
    reveal_strlit("channel_left");
    assert("channel_left"@.len() == 12);
    reveal_strlit("channel_deleted");
    assert("channel_deleted"@.len() == 15);
    reveal_strlit("channel_rename");
    assert("channel_rename"@.len() == 14);
    reveal_strlit("channel_archive");
    assert("channel_archive"@.len() == 15);
    reveal_strlit("channel_unarchive");
    assert("channel_unarchive"@.len() == 17);
    reveal_strlit("channel_history_changed");
    assert("channel_history_changed"@.len() == 23);
    reveal_strlit("im_created");
    assert("im_created"@.len() == 10);
    assert("im_open"@[0] == 'i' && "message"@[0] == 'm');
    lemma_text_at(fs, "user"@, user);
    lemma_text_at(fs, "channel"@, channel);
    assert(decode_fields_spec(fs) == type_event("im_open"@, fs));
    assert(type_event("im_open"@, fs) == crate::decode::im_open_event(fs));
}

/// A `im_close` frame decodes to `ImClose` exactly when its fields `user`, `channel`
/// read as the event declares, and then carries what those fields hold.
pub proof fn law_im_close(fs: Seq<FieldView>, user: Seq<char>, channel: Seq<char>)
    requires
        types_as(fs, "im_close"@),
    ensures
        decode_fields_spec(fs) == Ok::<EventView, EventErrorView>(EventView::ImClose { user, channel })
            <==> text_at(fs, "user"@, user) && text_at(fs, "channel"@, channel),
{
    broadcast use vstd::string::group_string_axioms;
    reveal_strlit("im_close");
    assert("im_close"@.len() == 8);
    reveal_strlit("hello");
    assert("hello"@.len() == 5);
    reveal_strlit("message");
    assert("message"@.len() == 7);
    reveal_strlit("user_typing");
    assert("user_typing"@.len() == 11);
    reveal_strlit("channel_marked");
    assert("channel_marked"@.len() == 14);
    reveal_strlit("channel_created");
    assert("channel_created"@.len() == 15);
    reveal_strlit("channel_joined");
    assert("channel_joined"@.len() == 14);
    reveal_strlit("channel_left");
    assert("channel_left"@.len() == 12);
    reveal_strlit("channel_deleted");
    assert("channel_deleted"@.len() == 15);
    reveal_strlit("channel_rename");
    assert("channel_rename"@.len() == 14);
    reveal_strlit("channel_archive");
    assert("channel_archive"@.len() == 15);
    reveal_strlit("channel_unarchive");
    assert("channel_unarchive"@.len() == 17);
    reveal_strlit("channel_history_changed");
    assert("channel_history_changed"@.len() == 23);
    reveal_strlit("im_created");
    assert("im_created"@.len() == 10);
    reveal_strlit("im_open");
    assert("im_open"@.len() == 7);
    lemma_text_at(fs, "user"@, user);
    lemma_text_at(fs, "channel"@, channel);
    assert(decode_fields_spec(fs) == type_event("im_close"@, fs));
    assert(type_event("im_close"@, fs) == crate::decode::im_close_event(fs));
}

/// A `im_marked` frame decodes to `ImMarked` exactly when its fields `channel`, `ts`
/// read as the event declares, and then carries what those fields hold.
pub proof fn law_im_marked(fs: Seq<FieldView>, channel: Seq<char>, ts: Seq<char>)
    requires
        types_as(fs, "im_marked"@),
    ensures
        decode_fields_spec(fs) == Ok::<EventView, EventErrorView>(EventView::ImMarked { channel, ts })
            <==> text_at(fs, "channel"@, channel) && text_at(fs, "ts"@, ts),
{
    broadcast use vstd::string::group_string_axioms;
    reveal_strlit("im_marked");
    assert("im_marked"@.len() == 9);
    reveal_strlit("hello");
    assert("hello"@.len() == 5);
    reveal_strlit("message");
    assert("message"@.len() == 7);
    reveal_strlit("user_typing");
    assert("user_typing"@.len() == 11);
    reveal_strlit("channel_marked");
    assert("channel_marked"@.len() == 14);
    reveal_strlit("channel_created");
    assert("channel_created"@.len() == 15);
    reveal_strlit("channel_joined");
    assert("channel_joined"@.len() == 14);
    reveal_strlit("channel_left");
    assert("channel_left"@.len() == 12);
    reveal_strlit("channel_deleted");
    assert("channel_deleted"@.len() == 15);
    reveal_strlit("channel_rename");
    assert("channel_rename"@.len() == 14);
    reveal_strlit("channel_archive");
    assert("channel_archive"@.len() == 15);
    reveal_strlit("channel_unarchive");
    assert("channel_unarchive"@.len() == 17);
    reveal_strlit("channel_history_changed");
    assert("channel_history_changed"@.len() == 23);
    reveal_strlit("im_created");
    assert("im_created"@.len() == 10);
    reveal_strlit("im_open");
    assert("im_open"@.len() == 7);
    reveal_strlit("im_close");
    assert("im_close"@.len() == 8);
    lemma_text_at(fs, "channel"@, channel);
    lemma_text_at(fs, "ts"@, ts);
    assert(decode_fields_spec(fs) == type_event("im_marked"@, fs));
    assert(type_event("im_marked"@, fs) == crate::decode::im_marked_event(fs));
}

/// A `im_history_changed` frame decodes to `ImHistoryChanged` exactly when its fields `latest`, `ts`, `event_ts`
/// read as the event declares, and then carries what those fields hold.
pub proof fn law_im_history_changed(fs: Seq<FieldView>, latest: Seq<char>, ts: Seq<char>, event_ts: Seq<char>)
    requires
        types_as(fs, "im_history_changed"@),
    ensures
        decode_fields_spec(fs) == Ok::<EventView, EventErrorView>(EventView::ImHistoryChanged { latest, ts, event_ts })
            <==> text_at(fs, "latest"@, latest) && text_at(fs, "ts"@, ts) && text_at(fs, "event_ts"@, event_ts),
{
    broadcast use vstd::string::group_string_axioms;
    reveal_strlit("im_history_changed");
    assert("im_history_changed"@.len() == 18);
    reveal_strlit("hello");
    assert("hello"@.len() == 5);
    reveal_strlit("message");
    assert("message"@.len() == 7);
    reveal_strlit("user_typing");
    assert("user_typing"@.len() == 11);
    reveal_strlit("channel_marked");
    assert("channel_marked"@.len() == 14);
    reveal_strlit("channel_created");
    assert("channel_created"@.len() == 15);
    reveal_strlit("channel_joined");
    assert("channel_joined"@.len() == 14);
    reveal_strlit("channel_left");
    assert("channel_left"@.len() == 12);
    reveal_strlit("channel_deleted");
    assert("channel_deleted"@.len() == 15);
    reveal_strlit("channel_rename");
    assert("channel_rename"@.len() == 14);
    reveal_strlit("channel_archive");
    assert("channel_archive"@.len() == 15);
    reveal_strlit("channel_unarchive");
    assert("channel_unarchive"@.len() == 17);
    reveal_strlit("channel_history_changed");
    assert("channel_history_changed"@.len() == 23);
    reveal_strlit("im_created");
    assert("im_created"@.len() == 10);
    reveal_strlit("im_open");
    assert("im_open"@.len() == 7);
    reveal_strlit("im_close");
    assert("im_close"@.len() == 8);
    reveal_strlit("im_marked");
    assert("im_marked"@.len() == 9);
    lemma_text_at(fs, "latest"@, latest);
    lemma_text_at(fs, "ts"@, ts);
    lemma_text_at(fs, "event_ts"@, event_ts);
    assert(decode_fields_spec(fs) == type_event("im_history_changed"@, fs));
    assert(type_event("im_history_changed"@, fs) == crate::decode::im_history_changed_event(fs));
}

/// A `group_joined` frame decodes to `GroupJoined` exactly when its fields `channel`
/// read as the event declares, and then carries what those fields hold.
pub proof fn law_group_joined(fs: Seq<FieldView>, channel: Channel)
    requires
        types_as(fs, "group_joined"@),
    ensures
        decode_fields_spec(fs) == Ok::<EventView, EventErrorView>(EventView::GroupJoined { channel })
            <==> channel_at(fs, "channel"@, channel),
{
    broadcast use vstd::string::group_string_axioms;
    reveal_strlit("group_joined");
    assert("group_joined"@.len() == 12);
    reveal_strlit("hello");
    assert("hello"@.len() == 5);
    reveal_strlit("message");
    assert("message"@.len() == 7);
    reveal_strlit("user_typing");
    assert("user_typing"@.len() == 11);
    reveal_strlit("channel_marked");
    assert("channel_marked"@.len() == 14);
    reveal_strlit("channel_created");
    assert("channel_created"@.len() == 15);
    reveal_strlit("channel_joined");
    assert("channel_joined"@.len() == 14);
    reveal_strlit("channel_left");
    assert("channel_left"@.len() == 12);
    reveal_strlit("channel_deleted");
    assert("channel_deleted"@.len() == 15);
    reveal_strlit("channel_rename");
    assert("channel_rename"@.len() == 14);
    reveal_strlit("channel_archive");
    assert("channel_archive"@.len() == 15);
    reveal_strlit("channel_unarchive");
    assert("channel_unarchive"@.len() == 17);
    reveal_strlit("channel_history_changed");
    assert("channel_history_changed"@.len() == 23);
    reveal_strlit("im_created");
    assert("im_created"@.len() == 10);
    reveal_strlit("im_open");
    assert("im_open"@.len() == 7);
    reveal_strlit("im_close");
    assert("im_close"@.len() == 8);
    reveal_strlit("im_marked");
    assert("im_marked"@.len() == 9);
    reveal_strlit("im_history_changed");
    assert("im_history_changed"@.len() == 18);
    assert("group_joined"@[0] == 'g' && "channel_left"@[0] == 'c');
    lemma_channel_at(fs, "channel"@, channel);
    assert(decode_fields_spec(fs) == type_event("group_joined"@, fs));
    assert(type_event("group_joined"@, fs) == crate::decode::group_joined_event(fs));
}

/// A `group_left` frame decodes to `GroupLeft` exactly when its fields `channel`
/// read as the event declares, and then carries what those fields hold.
pub proof fn law_group_left(fs: Seq<FieldView>, channel: Channel)
    requires
        types_as(fs, "group_left"@),
    ensures
        decode_fields_spec(fs) == Ok::<EventView, EventErrorView>(EventView::GroupLeft { channel })
            <==> channel_at(fs, "channel"@, channel),
{
    broadcast use vstd::string::group_string_axioms;
    reveal_strlit("group_left");
    assert("group_left"@.len() == 10);
    reveal_strlit("hello");
    assert("hello"@.len() == 5);
    reveal_strlit("message");
    assert("message"@.len() == 7);
    reveal_strlit("user_typing");
    assert("user_typing"@.len() == 11);
    reveal_strlit("channel_marked");
    assert("channel_marked"@.len() == 14);
    reveal_strlit("channel_created");
    assert("channel_created"@.len() == 15);
    reveal_strlit("channel_joined");
    assert("channel_joined"@.len() == 14);
    reveal_strlit("channel_left");
    assert("channel_left"@.len() == 12);
    reveal_strlit("channel_deleted");
    assert("channel_deleted"@.len() == 15);
    reveal_strlit("channel_rename");
    assert("channel_rename"@.len() == 14);
    reveal_strlit("channel_archive");
    assert("channel_archive"@.len() == 15);
    reveal_strlit("channel_unarchive");
    assert("channel_unarchive"@.len() == 17);
    reveal_strlit("channel_history_changed");
    assert("channel_history_changed"@.len() == 23);
    reveal_strlit("im_created");
    assert("im_created"@.len() == 10);
    reveal_strlit("im_open");
    assert("im_open"@.len() == 7);
    reveal_strlit("im_close");
    assert("im_close"@.len() == 8);
    reveal_strlit("im_marked");
    assert("im_marked"@.len() == 9);
    reveal_strlit("im_history_changed");
    assert("im_history_changed"@.len() == 18);
    reveal_strlit("group_joined");
    assert("group_joined"@.len() == 12);
    assert("group_left"@[0] == 'g' && "im_created"@[0] == 'i');
    lemma_channel_at(fs, "channel"@, channel);
    assert(decode_fields_spec(fs) == type_event("group_left"@, fs));
    assert(type_event("group_left"@, fs) == crate::decode::group_left_event(fs));
}

/// A `group_open` frame decodes to `GroupOpen` exactly when its fields `user`, `channel`
/// read as the event declares, and then carries what those fields hold.
pub proof fn law_group_open(fs: Seq<FieldView>, user: Seq<char>, channel: Seq<char>)
    requires
        types_as(fs, "group_open"@),
    ensures
        decode_fields_spec(fs) == Ok::<EventView, EventErrorView>(EventView::GroupOpen { user, channel })
            <==> text_at(fs, "user"@, user) && text_at(fs, "channel"@, channel),
{
    broadcast use vstd::string::group_string_axioms;
    reveal_strlit("group_open");
    assert("group_open"@.len() == 10);
    reveal_strlit("hello");
    assert("hello"@.len() == 5);
    reveal_strlit("message");
    assert("message"@.len() == 7);
    reveal_strlit("user_typing");
    assert("user_typing"@.len() == 11);
    reveal_strlit("channel_marked");
    assert("channel_marked"@.len() == 14);
    reveal_strlit("channel_created");
    assert("channel_created"@.len() == 15);
    reveal_strlit("channel_joined");
    assert("channel_joined"@.len() == 14);
    reveal_strlit("channel_left");
    assert("channel_left"@.len() == 12);
    reveal_strlit("channel_deleted");
    assert("channel_deleted"@.len() == 15);
    reveal_strlit("channel_rename");
    assert("channel_rename"@.len() == 14);
    reveal_strlit("channel_archive");
    assert("channel_archive"@.len() == 15);
    reveal_strlit("channel_unarchive");
    assert("channel_unarchive"@.len() == 17);
    reveal_strlit("channel_history_changed");
    assert("channel_history_changed"@.len() == 23);
    reveal_strlit("im_created");
    assert("im_created"@.len() == 10);
    reveal_strlit("im_open");
    assert("im_open"@.len() == 7);
    reveal_strlit("im_close");
    assert("im_close"@.len() == 8);
    reveal_strlit("im_marked");
    assert("im_marked"@.len() == 9);
    reveal_strlit("im_history_changed");
    assert("im_history_changed"@.len() == 18);
    reveal_strlit("group_joined");
    assert("group_joined"@.len() == 12);
    reveal_strlit("group_left");
    assert("group_left"@.len() == 10);
    assert("group_open"@[0] == 'g' && "im_created"@[0] == 'i');
    assert("group_open"@[6] == 'o' && "group_left"@[6] == 'l');
    lemma_text_at(fs, "user"@, user);
    lemma_text_at(fs, "channel"@, channel);
    assert(decode_fields_spec(fs) == type_event("group_open"@, fs));
    assert(type_event("group_open"@, fs) == crate::decode::group_open_event(fs));
}

/// A `group_close` frame decodes to `GroupClose` exactly when its fields `user`, `channel`
/// read as the event declares, and then carries what those fields hold.
pub proof fn law_group_close(fs: Seq<FieldView>, user: Seq<char>, channel: Seq<char>)
    requires
        types_as(fs, "group_close"@),
    ensures
        decode_fields_spec(fs) == Ok::<EventView, EventErrorView>(EventView::GroupClose { user, channel })
            <==> text_at(fs, "user"@, user) && text_at(fs, "channel"@, channel),
{
    broadcast use vstd::string::group_string_axioms;
    reveal_strlit("group_close");
    assert("group_close"@.len() == 11);
    reveal_strlit("hello");
    assert("hello"@.len() == 5);
    reveal_strlit("message");
    assert("message"@.len() == 7);
    reveal_strlit("user_typing");
    assert("user_typing"@.len() == 11);
    reveal_strlit("channel_marked");
    assert("channel_marked"@.len() == 14);
    reveal_strlit("channel_created");
    assert("channel_created"@.len() == 15);
    reveal_strlit("channel_joined");
    assert("channel_joined"@.len() == 14);
    reveal_strlit("channel_left");
    assert("channel_left"@.len() == 12);
    reveal_strlit("channel_deleted");
    assert("channel_deleted"@.len() == 15);
    reveal_strlit("channel_rename");
    assert("channel_rename"@.len() == 14);
    reveal_strlit("channel_archive");
    assert("channel_archive"@.len() == 15);
    reveal_strlit("channel_unarchive");
    assert("channel_unarchive"@.len() == 17);
    reveal_strlit("channel_history_changed");
    assert("channel_history_changed"@.len() == 23);
    reveal_strlit("im_created");
    assert("im_created"@.len() == 10);
    reveal_strlit("im_open");
    assert("im_open"@.len() == 7);
    reveal_strlit("im_close");
    assert("im_close"@.len() == 8);
    reveal_strlit("im_marked");
    assert("im_marked"@.len() == 9);
    reveal_strlit("im_history_changed");
    assert("im_history_changed"@.len() == 18);
    reveal_strlit("group_joined");
    assert("group_joined"@.len() == 12);
    reveal_strlit("group_left");
    assert("group_left"@.len() == 10);
    reveal_strlit("group_open");
    assert("group_open"@.len() == 10);
    assert("group_close"@[0] == 'g' && "user_typing"@[0] == 'u');
    lemma_text_at(fs, "user"@, user);
    lemma_text_at(fs, "channel"@, channel);
    assert(decode_fields_spec(fs) == type_event("group_close"@, fs));
    assert(type_event("group_close"@, fs) == crate::decode::group_close_event(fs));
}

/// A `group_archive` frame decodes to `GroupArchive` exactly when its fields `channel`
/// read as the event declares, and then carries what those fields hold.
pub proof fn law_group_archive(fs: Seq<FieldView>, channel: Seq<char>)
    requires
        types_as(fs, "group_archive"@),
    ensures
        decode_fields_spec(fs) == Ok::<EventView, EventErrorView>(EventView::GroupArchive { channel })
            <==> text_at(fs, "channel"@, channel),
{
    broadcast use vstd::string::group_string_axioms;
    reveal_strlit("group_archive");
    assert("group_archive"@.len() == 13);
    reveal_strlit("hello");
    assert("hello"@.len() == 5);
    reveal_strlit("message");
    assert("message"@.len() == 7);
    reveal_strlit("user_typing");
    assert("user_typing"@.len() == 11);
    reveal_strlit("channel_marked");
    assert("channel_marked"@.len() == 14);
    reveal_strlit("channel_created");
    assert("channel_created"@.len() == 15);
    reveal_strlit("channel_joined");
    assert("channel_joined"@.len() == 14);
    reveal_strlit("channel_left");
    assert("channel_left"@.len() == 12);
    reveal_strlit("channel_deleted");
    assert("channel_deleted"@.len() == 15);
    reveal_strlit("channel_rename");
    assert("channel_rename"@.len() == 14);
    reveal_strlit("channel_archive");
    assert("channel_archive"@.len() == 15);
    reveal_strlit("channel_unarchive");
    assert("channel_unarchive"@.len() == 17);
    reveal_strlit("channel_history_changed");
    assert("channel_history_changed"@.len() == 23);
    reveal_strlit("im_created");
    assert("im_created"@.len() == 10);
    reveal_strlit("im_open");
    assert("im_open"@.len() == 7);
    reveal_strlit("im_close");
    assert("im_close"@.len() == 8);
    reveal_strlit("im_marked");
    assert("im_marked"@.len() == 9);
    reveal_strlit("im_history_changed");
    assert("im_history_changed"@.len() == 18);
    reveal_strlit("group_joined");
    assert("group_joined"@.len() == 12);
    reveal_strlit("group_left");
    assert("group_left"@.len() == 10);
    reveal_strlit("group_open");
    assert("group_open"@.len() == 10);
    reveal_strlit("group_close");
    assert("group_close"@.len() == 11);
    lemma_text_at(fs, "channel"@, channel);
    assert(decode_fields_spec(fs) == type_event("group_archive"@, fs));
    assert(type_event("group_archive"@, fs) == crate::decode::group_archive_event(fs));
}

/// A `group_unarchive` frame decodes to `GroupUnArchive` exactly when its fields `channel`
/// read as the event declares, and then carries what those fields hold.
pub proof fn law_group_unarchive(fs: Seq<FieldView>, channel: Seq<char>)
    requires
        types_as(fs, "group_unarchive"@),
    ensures
        decode_fields_spec(fs) == Ok::<EventView, EventErrorView>(EventView::GroupUnArchive { channel })
            <==> text_at(fs, "channel"@, channel),
{
    broadcast use vstd::string::group_string_axioms;
    reveal_strlit("group_unarchive");
    assert("group_unarchive"@.len() == 15);
    reveal_strlit("hello");
    assert("hello"@.len() == 5);
    reveal_strlit("message");
    assert("message"@.len() == 7);
    reveal_strlit("user_typing");
    assert("user_typing"@.len() == 11);
    reveal_strlit("channel_marked");
    assert("channel_marked"@.len() == 14);
    reveal_strlit("channel_created");
    assert("channel_created"@.len() == 15);
    reveal_strlit("channel_joined");
    assert("channel_joined"@.len() == 14);
    reveal_strlit("channel_left");
    assert("channel_left"@.len() == 12);
    reveal_strlit("channel_deleted");
    assert("channel_deleted"@.len() == 15);
    reveal_strlit("channel_rename");
    assert("channel_rename"@.len() == 14);
    reveal_strlit("channel_archive");
    assert("channel_archive"@.len() == 15);
    reveal_strlit("channel_unarchive");
    assert("channel_unarchive"@.len() == 17);
    reveal_strlit("channel_history_changed");
    assert("channel_history_changed"@.len() == 23);
    reveal_strlit("im_created");
    assert("im_created"@.len() == 10);
    reveal_strlit("im_open");
    assert("im_open"@.len() == 7);
    reveal_strlit("im_close");
    assert("im_close"@.len() == 8);
    reveal_strlit("im_marked");
    assert("im_marked"@.len() == 9);
    reveal_strlit("im_history_changed");
    assert("im_history_changed"@.len() == 18);
    reveal_strlit("group_joined");
    assert("group_joined"@.len() == 12);
    reveal_strlit("group_left");
    assert("group_left"@.len() == 10);
    reveal_strlit("group_open");
    assert("group_open"@.len() == 10);
    reveal_strlit("group_close");
    assert("group_close"@.len() == 11);
    reveal_strlit("group_archive");
    assert("group_archive"@.len() == 13);
    assert("group_unarchive"@[0] == 'g' && "channel_created"@[0] == 'c');
    assert("group_unarchive"@[0] == 'g' && "channel_deleted"@[0] == 'c');
    assert("group_unarchive"@[0] == 'g' && "channel_archive"@[0] == 'c');
    lemma_text_at(fs, "channel"@, channel);
    assert(decode_fields_spec(fs) == type_event("group_unarchive"@, fs));
    assert(type_event("group_unarchive"@, fs) == crate::decode::group_un_archive_event(fs));
}

/// A `group_rename` frame decodes to `GroupRename` exactly when its fields `channel`
/// read as the event declares, and then carries what those fields hold.
pub proof fn law_group_rename(fs: Seq<FieldView>, channel: Channel)
    requires
        types_as(fs, "group_rename"@),
    ensures
        decode_fields_spec(fs) == Ok::<EventView, EventErrorView>(EventView::GroupRename { channel })
            <==> channel_at(fs, "channel"@, channel),
{
    broadcast use vstd::string::group_string_axioms;
    reveal_strlit("group_rename");
    assert("group_rename"@.len() == 12);
    reveal_strlit("hello");
    assert("hello"@.len() == 5);
    reveal_strlit("message");
    assert("message"@.len() == 7);
    reveal_strlit("user_typing");
    assert("user_typing"@.len() == 11);
    reveal_strlit("channel_marked");
    assert("channel_marked"@.len() == 14);
    reveal_strlit("channel_created");
    assert("channel_created"@.len() == 15);
    reveal_strlit("channel_joined");
    assert("channel_joined"@.len() == 14);
    reveal_strlit("channel_left");
    assert("channel_left"@.len() == 12);
    reveal_strlit("channel_deleted");
    assert("channel_deleted"@.len() == 15);
    reveal_strlit("channel_rename");
    assert("channel_rename"@.len() == 14);
    reveal_strlit("channel_archive");
    assert("channel_archive"@.len() == 15);
    reveal_strlit("channel_unarchive");
    assert("channel_unarchive"@.len() == 17);
    reveal_strlit("channel_history_changed");
    assert("channel_history_changed"@.len() == 23);
    reveal_strlit("im_created");
    assert("im_created"@.len() == 10);
    reveal_strlit("im_open");
    assert("im_open"@.len() == 7);
    reveal_strlit("im_close");
    assert("im_close"@.len() == 8);
    reveal_strlit("im_marked");
    assert("im_marked"@.len() == 9);
    reveal_strlit("im_history_changed");
    assert("im_history_changed"@.len() == 18);
    reveal_strlit("group_joined");
    assert("group_joined"@.len() == 12);
    reveal_strlit("group_left");
    assert("group_left"@.len() == 10);
    reveal_strlit("group_open");
    assert("group_open"@.len() == 10);
    reveal_strlit("group_close");
    assert("group_close"@.len() == 11);
    reveal_strlit("group_archive");
    assert("group_archive"@.len() == 13);
    reveal_strlit("group_unarchive");
    assert("group_unarchive"@.len() == 15);
    assert("group_rename"@[0] == 'g' && "channel_left"@[0] == 'c');
    assert("group_rename"@[6] == 'r' && "group_joined"@[6] == 'j');
    lemma_channel_at(fs, "channel"@, channel);
    assert(decode_fields_spec(fs) == type_event("group_rename"@, fs));
    assert(type_event("group_rename"@, fs) == crate::decode::group_rename_event(fs));
}

/// A `group_marked` frame decodes to `GroupMarked` exactly when its fields `channel`, `ts`
/// read as the event declares, and then carries what those fields hold.
pub proof fn law_group_marked(fs: Seq<FieldView>, channel: Seq<char>, ts: Seq<char>)
    requires
        types_as(fs, "group_marked"@),
    ensures
        decode_fields_spec(fs) == Ok::<EventView, EventErrorView>(EventView::GroupMarked { channel, ts })
            <==> text_at(fs, "channel"@, channel) && text_at(fs, "ts"@, ts),
{
    broadcast use vstd::string::group_string_axioms;
    reveal_strlit("group_marked");
    assert("group_marked"@.len() == 12);
    reveal_strlit("hello");
    assert("hello"@.len() == 5);
    reveal_strlit("message");
    assert("message"@.len() == 7);
    reveal_strlit("user_typing");
    assert("user_typing"@.len() == 11);
    reveal_strlit("channel_marked");
    assert("channel_marked"@.len() == 14);
    reveal_strlit("channel_created");
    assert("channel_created"@.len() == 15);
    reveal_strlit("channel_joined");
    assert("channel_joined"@.len() == 14);
    reveal_strlit("channel_left");
    assert("channel_left"@.len() == 12);
    reveal_strlit("channel_deleted");
    assert("channel_deleted"@.len() == 15);
    reveal_strlit("channel_rename");
    assert("channel_rename"@.len() == 14);
    reveal_strlit("channel_archive");
    assert("channel_archive"@.len() == 15);
    reveal_strlit("channel_unarchive");
    assert("channel_unarchive"@.len() == 17);
    reveal_strlit("channel_history_changed");
    assert("channel_history_changed"@.len() == 23);
    reveal_strlit("im_created");
    assert("im_created"@.len() == 10);
    reveal_strlit("im_open");
    assert("im_open"@.len() == 7);
    reveal_strlit("im_close");
    assert("im_close"@.len() == 8);
    reveal_strlit("im_marked");
    assert("im_marked"@.len() == 9);
    reveal_strlit("im_history_changed");
    assert("im_history_changed"@.len() == 18);
    reveal_strlit("group_joined");
    assert("group_joined"@.len() == 12);
    reveal_strlit("group_left");
    assert("group_left"@.len() == 10);
    reveal_strlit("group_open");
    assert("group_open"@.len() == 10);
    reveal_strlit("group_close");
    assert("group_close"@.len() == 11);
    reveal_strlit("group_archive");
    assert("group_archive"@.len() == 13);
    reveal_strlit("group_unarchive");
    assert("group_unarchive"@.len() == 15);
    reveal_strlit("group_rename");
    assert("group_rename"@.len() == 12);
    assert("group_marked"@[0] == 'g' && "channel_left"@[0] == 'c');
    assert("group_marked"@[6] == 'm' && "group_joined"@[6] == 'j');
    assert("group_marked"@[6] == 'm' && "group_rename"@[6] == 'r');
    lemma_text_at(fs, "channel"@, channel);
    lemma_text_at(fs, "ts"@, ts);
    assert(decode_fields_spec(fs) == type_event("group_marked"@, fs));
    assert(type_event("group_marked"@, fs) == crate::decode::group_marked_event(fs));
}

/// A `group_history_changed` frame decodes to `GroupHistoryChanged` exactly when its fields `latest`, `ts`, `event_ts`
/// read as the event declares, and then carries what those fields hold.
pub proof fn law_group_history_changed(fs: Seq<FieldView>, latest: Seq<char>, ts: Seq<char>, event_ts: Seq<char>)
    requires
        types_as(fs, "group_history_changed"@),
    ensures
        decode_fields_spec(fs) == Ok::<EventView, EventErrorView>(EventView::GroupHistoryChanged { latest, ts, event_ts })
            <==> text_at(fs, "latest"@, latest) && text_at(fs, "ts"@, ts) && text_at(fs, "event_ts"@, event_ts),
{
    broadcast use vstd::string::group_string_axioms;
    reveal_strlit("group_history_changed");
    assert("group_history_changed"@.len() == 21);
    reveal_strlit("hello");
    assert("hello"@.len() == 5);
    reveal_strlit("message");
    assert("message"@.len() == 7);
    reveal_strlit("user_typing");
    assert("user_typing"@.len() == 11);
    reveal_strlit("channel_marked");
    assert("channel_marked"@.len() == 14);
    reveal_strlit("channel_created");
    assert("channel_created"@.len() == 15);
    reveal_strlit("channel_joined");
    assert("channel_joined"@.len() == 14);
    reveal_strlit("channel_left");
    assert("channel_left"@.len() == 12);
    reveal_strlit("channel_deleted");
    assert("channel_deleted"@.len() == 15);
    reveal_strlit("channel_rename");
    assert("channel_rename"@.len() == 14);
    reveal_strlit("channel_archive");
    assert("channel_archive"@.len() == 15);
    reveal_strlit("channel_unarchive");
    assert("channel_unarchive"@.len() == 17);
    reveal_strlit("channel_history_changed");
    assert("channel_history_changed"@.len() == 23);
    reveal_strlit("im_created");
    assert("im_created"@.len() == 10);
    reveal_strlit("im_open");
    assert("im_open"@.len() == 7);
    reveal_strlit("im_close");
    assert("im_close"@.len() == 8);
    reveal_strlit("im_marked");
    assert("im_marked"@.len() == 9);
    reveal_strlit("im_history_changed");
    assert("im_history_changed"@.len() == 18);
    reveal_strlit("group_joined");
    assert("group_joined"@.len() == 12);
    reveal_strlit("group_left");
    assert("group_left"@.len() == 10);
    reveal_strlit("group_open");
    assert("group_open"@.len() == 10);
    reveal_strlit("group_close");
    assert("group_close"@.len() == 11);
    reveal_strlit("group_archive");
    assert("group_archive"@.len() == 13);
    reveal_strlit("group_unarchive");
    assert("group_unarchive"@.len() == 15);
    reveal_strlit("group_rename");
    assert("group_rename"@.len() == 12);
    reveal_strlit("group_marked");
    assert("group_marked"@.len() == 12);
    lemma_text_at(fs, "latest"@, latest);
    lemma_text_at(fs, "ts"@, ts);
    lemma_text_at(fs, "event_ts"@, event_ts);
    assert(decode_fields_spec(fs) == type_event("group_history_changed"@, fs));
    assert(type_event("group_history_changed"@, fs) == crate::decode::group_history_changed_event(fs));
}

/// A `file_created` frame decodes to `FileCreated` exactly when its fields `file`
/// read as the event declares, and then carries what those fields hold.
pub proof fn law_file_created(fs: Seq<FieldView>, file: File)
    requires
        types_as(fs, "file_created"@),
    ensures
        decode_fields_spec(fs) == Ok::<EventView, EventErrorView>(EventView::FileCreated { file })
            <==> file_at(fs, "file"@, file),
{
    broadcast use vstd::string::group_string_axioms;
    reveal_strlit("file_created");
    assert("file_created"@.len() == 12);
    reveal_strlit("hello");
    assert("hello"@.len() == 5);
    reveal_strlit("message");
    assert("message"@.len() == 7);
    reveal_strlit("user_typing");
    assert("user_typing"@.len() == 11);
    reveal_strlit("channel_marked");
    assert("channel_marked"@.len() == 14);
    reveal_strlit("channel_created");
    assert("channel_created"@.len() == 15);
    reveal_strlit("channel_joined");
    assert("channel_joined"@.len() == 14);
    reveal_strlit("channel_left");
    assert("channel_left"@.len() == 12);
    reveal_strlit("channel_deleted");
    assert("channel_deleted"@.len() == 15);
    reveal_strlit("channel_rename");
    assert("channel_rename"@.len() == 14);
    reveal_strlit("channel_archive");
    assert("channel_archive"@.len() == 15);
    reveal_strlit("channel_unarchive");
    assert("channel_unarchive"@.len() == 17);
    reveal_strlit("channel_history_changed");
    assert("channel_history_changed"@.len() == 23);
    reveal_strlit("im_created");
    assert("im_created"@.len() == 10);
    reveal_strlit("im_open");
    assert("im_open"@.len() == 7);
    reveal_strlit("im_close");
    assert("im_close"@.len() == 8);
    reveal_strlit("im_marked");
    assert("im_marked"@.len() == 9);
    reveal_strlit("im_history_changed");
    assert("im_history_changed"@.len() == 18);
    reveal_strlit("group_joined");
    assert("group_joined"@.len() == 12);
    reveal_strlit("group_left");
    assert("group_left"@.len() == 10);
    reveal_strlit("group_open");
    assert("group_open"@.len() == 10);
    reveal_strlit("group_close");
    assert("group_close"@.len() == 11);
    reveal_strlit("group_archive");
    assert("group_archive"@.len() == 13);
    reveal_strlit("group_unarchive");
    assert("group_unarchive"@.len() == 15);
    reveal_strlit("group_rename");
    assert("group_rename"@.len() == 12);
    reveal_strlit("group_marked");
    assert("group_marked"@.len() == 12);
    reveal_strlit("group_history_changed");
    assert("group_history_changed"@.len() == 21);
    assert("file_created"@[0] == 'f' && "channel_left"@[0] == 'c');
    assert("file_created"@[0] == 'f' && "group_joined"@[0] == 'g');
    assert("file_created"@[0] == 'f' && "group_rename"@[0] == 'g');
    assert("file_created"@[0] == 'f' && "group_marked"@[0] == 'g');
    lemma_file_at(fs, "file"@, file);
    assert(decode_fields_spec(fs) == type_event("file_created"@, fs));
    assert(type_event("file_created"@, fs) == crate::decode::file_created_event(fs));
}

/// A `file_shared` frame decodes to `FileShared` exactly when its fields `file`
/// read as the event declares, and then carries what those fields hold.
pub proof fn law_file_shared(fs: Seq<FieldView>, file: File)
    requires
        types_as(fs, "file_shared"@),
    ensures
        decode_fields_spec(fs) == Ok::<EventView, EventErrorView>(EventView::FileShared { file })
            <==> file_at(fs, "file"@, file),
{
    broadcast use vstd::string::group_string_axioms;
    reveal_strlit("file_shared");
    assert("file_shared"@.len() == 11);
    reveal_strlit("hello");
    assert("hello"@.len() == 5);
    reveal_strlit("message");
    assert("message"@.len() == 7);
    reveal_strlit("user_typing");
    assert("user_typing"@.len() == 11);
    reveal_strlit("channel_marked");
    assert("channel_marked"@.len() == 14);
    reveal_strlit("channel_created");
    assert("channel_created"@.len() == 15);
    reveal_strlit("channel_joined");
    assert("channel_joined"@.len() == 14);
    reveal_strlit("channel_left");
    assert("channel_left"@.len() == 12);
    reveal_strlit("channel_deleted");
    assert("channel_deleted"@.len() == 15);
    reveal_strlit("channel_rename");
    assert("channel_rename"@.len() == 14);
    reveal_strlit("channel_archive");
    assert("channel_archive"@.len() == 15);
    reveal_strlit("channel_unarchive");
    assert("channel_unarchive"@.len() == 17);
    reveal_strlit("channel_history_changed");
    assert("channel_history_changed"@.len() == 23);
    reveal_strlit("im_created");
    assert("im_created"@.len() == 10);
    reveal_strlit("im_open");
    assert("im_open"@.len() == 7);
    reveal_strlit("im_close");
    assert("im_close"@.len() == 8);
    reveal_strlit("im_marked");
    assert("im_marked"@.len() == 9);
    reveal_strlit("im_history_changed");
    assert("im_history_changed"@.len() == 18);
    reveal_strlit("group_joined");
    assert("group_joined"@.len() == 12);
    reveal_strlit("group_left");
    assert("group_left"@.len() == 10);
    reveal_strlit("group_open");
    assert("group_open"@.len() == 10);
    reveal_strlit("group_close");
    assert("group_close"@.len() == 11);
    reveal_strlit("group_archive");
    assert("group_archive"@.len() == 13);
    reveal_strlit("group_unarchive");
    assert("group_unarchive"@.len() == 15);
    reveal_strlit("group_rename");
    assert("group_rename"@.len() == 12);
    reveal_strlit("group_marked");
    assert("group_marked"@.len() == 12);
    reveal_strlit("group_history_changed");
    assert("group_history_changed"@.len() == 21);
    reveal_strlit("file_created");
    assert("file_created"@.len() == 12);
    assert("file_shared"@[0] == 'f' && "user_typing"@[0] == 'u');
    assert("file_shared"@[0] == 'f' && "group_close"@[0] == 'g');
    lemma_file_at(fs, "file"@, file);
    assert(decode_fields_spec(fs) == type_event("file_shared"@, fs));
    assert(type_event("file_shared"@, fs) == crate::decode::file_shared_event(fs));
}

/// A `file_unshared` frame decodes to `FileUnShared` exactly when its fields `file`
/// read as the event declares, and then carries what those fields hold.
pub proof fn law_file_unshared(fs: Seq<FieldView>, file: File)
    requires
        types_as(fs, "file_unshared"@),
    ensures
        decode_fields_spec(fs) == Ok::<EventView, EventErrorView>(EventView::FileUnShared { file })
            <==> file_at(fs, "file"@, file),
{
    broadcast use vstd::string::group_string_axioms;
    reveal_strlit("file_unshared");
    assert("file_unshared"@.len() == 13);
    reveal_strlit("hello");
    assert("hello"@.len() == 5);
    reveal_strlit("message");
    assert("message"@.len() == 7);
    reveal_strlit("user_typing");
    assert("user_typing"@.len() == 11);
    reveal_strlit("channel_marked");
    assert("channel_marked"@.len() == 14);
    reveal_strlit("channel_created");
    assert("channel_created"@.len() == 15);
    reveal_strlit("channel_joined");
    assert("channel_joined"@.len() == 14);
    reveal_strlit("channel_left");
    assert("channel_left"@.len() == 12);
    reveal_strlit("channel_deleted");
    assert("channel_deleted"@.len() == 15);
    reveal_strlit("channel_rename");
    assert("channel_rename"@.len() == 14);
    reveal_strlit("channel_archive");
    assert("channel_archive"@.len() == 15);
    reveal_strlit("channel_unarchive");
    assert("channel_unarchive"@.len() == 17);
    reveal_strlit("channel_history_changed");
    assert("channel_history_changed"@.len() == 23);
    reveal_strlit("im_created");
    assert("im_created"@.len() == 10);
    reveal_strlit("im_open");
    assert("im_open"@.len() == 7);
    reveal_strlit("im_close");
    assert("im_close"@.len() == 8);
    reveal_strlit("im_marked");
    assert("im_marked"@.len() == 9);
    reveal_strlit("im_history_changed");
    assert("im_history_changed"@.len() == 18);
    reveal_strlit("group_joined");
    assert("group_joined"@.len() == 12);
    reveal_strlit("group_left");
    assert("group_left"@.len() == 10);
    reveal_strlit("group_open");
    assert("group_open"@.len() == 10);
    reveal_strlit("group_close");
    assert("group_close"@.len() == 11);
    reveal_strlit("group_archive");
    assert("group_archive"@.len() == 13);
    reveal_strlit("group_unarchive");
    assert("group_unarchive"@.len() == 15);
    reveal_strlit("group_rename");
    assert("group_rename"@.len() == 12);
    reveal_strlit("group_marked");
    assert("group_marked"@.len() == 12);
    reveal_strlit("group_history_changed");
    assert("group_history_changed"@.len() == 21);
    reveal_strlit("file_created");
    assert("file_created"@.len() == 12);
    reveal_strlit("file_shared");
    assert("file_shared"@.len() == 11);
    assert("file_unshared"@[0] == 'f' && "group_archive"@[0] == 'g');
    lemma_file_at(fs, "file"@, file);
    assert(decode_fields_spec(fs) == type_event("file_unshared"@, fs));
    assert(type_event("file_unshared"@, fs) == crate::decode::file_un_shared_event(fs));
}

/// A `file_public` frame decodes to `FilePublic` exactly when its fields `file`
/// read as the event declares, and then carries what those fields hold.
pub proof fn law_file_public(fs: Seq<FieldView>, file: File)
    requires
        types_as(fs, "file_public"@),
    ensures
        decode_fields_spec(fs) == Ok::<EventView, EventErrorView>(EventView::FilePublic { file })
            <==> file_at(fs, "file"@, file),
{
    broadcast use vstd::string::group_string_axioms;
    reveal_strlit("file_public");
    assert("file_public"@.len() == 11);
    reveal_strlit("hello");
    assert("hello"@.len() == 5);
    reveal_strlit("message");
    assert("message"@.len() == 7);
    reveal_strlit("user_typing");
    assert("user_typing"@.len() == 11);
    reveal_strlit("channel_marked");
    assert("channel_marked"@.len() == 14);
    reveal_strlit("channel_created");
    assert("channel_created"@.len() == 15);
    reveal_strlit("channel_joined");
    assert("channel_joined"@.len() == 14);
    reveal_strlit("channel_left");
    assert("channel_left"@.len() == 12);
    reveal_strlit("channel_deleted");
    assert("channel_deleted"@.len() == 15);
    reveal_strlit("channel_rename");
    assert("channel_rename"@.len() == 14);
    reveal_strlit("channel_archive");
    assert("channel_archive"@.len() == 15);
    reveal_strlit("channel_unarchive");
    assert("channel_unarchive"@.len() == 17);
    reveal_strlit("channel_history_changed");
    assert("channel_history_changed"@.len() == 23);
    reveal_strlit("im_created");
    assert("im_created"@.len() == 10);
    reveal_strlit("im_open");
    assert("im_open"@.len() == 7);
    reveal_strlit("im_close");
    assert("im_close"@.len() == 8);
    reveal_strlit("im_marked");
    assert("im_marked"@.len() == 9);
    reveal_strlit("im_history_changed");
    assert("im_history_changed"@.len() == 18);
    reveal_strlit("group_joined");
    assert("group_joined"@.len() == 12);
    reveal_strlit("group_left");
    assert("group_left"@.len() == 10);
    reveal_strlit("group_open");
    assert("group_open"@.len() == 10);
    reveal_strlit("group_close");
    assert("group_close"@.len() == 11);
    reveal_strlit("group_archive");
    assert("group_archive"@.len() == 13);
    reveal_strlit("group_unarchive");
    assert("group_unarchive"@.len() == 15);
    reveal_strlit("group_rename");
    assert("group_rename"@.len() == 12);
    reveal_strlit("group_marked");
    assert("group_marked"@.len() == 12);
    reveal_strlit("group_history_changed");
    assert("group_history_changed"@.len() == 21);
    reveal_strlit("file_created");
    assert("file_created"@.len() == 12);
    reveal_strlit("file_shared");
    assert("file_shared"@.len() == 11);
    reveal_strlit("file_unshared");
    assert("file_unshared"@.len() == 13);
    assert("file_public"@[0] == 'f' && "user_typing"@[0] == 'u');
    assert("file_public"@[0] == 'f' && "group_close"@[0] == 'g');
    assert("file_public"@[5] == 'p' && "file_shared"@[5] == 's');
    lemma_file_at(fs, "file"@, file);
    assert(decode_fields_spec(fs) == type_event("file_public"@, fs));
    assert(type_event("file_public"@, fs) == crate::decode::file_public_event(fs));
}

/// A `file_private` frame decodes to `FilePrivate` exactly when its fields `file`
/// read as the event declares, and then carries what those fields hold.
pub proof fn law_file_private(fs: Seq<FieldView>, file: Seq<char>)
    requires
        types_as(fs, "file_private"@),
    ensures
        decode_fields_spec(fs) == Ok::<EventView, EventErrorView>(EventView::FilePrivate { file })
            <==> text_at(fs, "file"@, file),
{
    broadcast use vstd::string::group_string_axioms;
    reveal_strlit("file_private");
    assert("file_private"@.len() == 12);
    reveal_strlit("hello");
    assert("hello"@.len() == 5);
    reveal_strlit("message");
    assert("message"@.len() == 7);
    reveal_strlit("user_typing");
    assert("user_typing"@.len() == 11);
    reveal_strlit("channel_marked");
    assert("channel_marked"@.len() == 14);
    reveal_strlit("channel_created");
    assert("channel_created"@.len() == 15);
    reveal_strlit("channel_joined");
    assert("channel_joined"@.len() == 14);
    reveal_strlit("channel_left");
    assert("channel_left"@.len() == 12);
    reveal_strlit("channel_deleted");
    assert("channel_deleted"@.len() == 15);
    reveal_strlit("channel_rename");
    assert("channel_rename"@.len() == 14);
    reveal_strlit("channel_archive");
    assert("channel_archive"@.len() == 15);
    reveal_strlit("channel_unarchive");
    assert("channel_unarchive"@.len() == 17);
    reveal_strlit("channel_history_changed");
    assert("channel_history_changed"@.len() == 23);
    reveal_strlit("im_created");
    assert("im_created"@.len() == 10);
    reveal_strlit("im_open");
    assert("im_open"@.len() == 7);
    reveal_strlit("im_close");
    assert("im_close"@.len() == 8);
    reveal_strlit("im_marked");
    assert("im_marked"@.len() == 9);
    reveal_strlit("im_history_changed");
    assert("im_history_changed"@.len() == 18);
    reveal_strlit("group_joined");
    assert("group_joined"@.len() == 12);
    reveal_strlit("group_left");
    assert("group_left"@.len() == 10);
    reveal_strlit("group_open");
    assert("group_open"@.len() == 10);
    reveal_strlit("group_close");
    assert("group_close"@.len() == 11);
    reveal_strlit("group_archive");
    assert("group_archive"@.len() == 13);
    reveal_strlit("group_unarchive");
    assert("group_unarchive"@.len() == 15);
    reveal_strlit("group_rename");
    assert("group_rename"@.len() == 12);
    reveal_strlit("group_marked");
    assert("group_marked"@.len() == 12);
    reveal_strlit("group_history_changed");
    assert("group_history_changed"@.len() == 21);
    reveal_strlit("file_created");
    assert("file_created"@.len() == 12);
    reveal_strlit("file_shared");
    assert("file_shared"@.len() == 11);
    reveal_strlit("file_unshared");
    assert("file_unshared"@.len() == 13);
    reveal_strlit("file_public");
    assert("file_public"@.len() == 11);
    assert("file_private"@[0] == 'f' && "channel_left"@[0] == 'c');
    assert("file_private"@[0] == 'f' && "group_joined"@[0] == 'g');
    assert("file_private"@[0] == 'f' && "group_rename"@[0] == 'g');
    assert("file_private"@[0] == 'f' && "group_marked"@[0] == 'g');
    assert("file_private"@[5] == 'p' && "file_created"@[5] == 'c');
    lemma_text_at(fs, "file"@, file);
    assert(decode_fields_spec(fs) == type_event("file_private"@, fs));
    assert(type_event("file_private"@, fs) == crate::decode::file_private_event(fs));
}

/// A `file_change` frame decodes to `FileChange` exactly when its fields `file`
/// read as the event declares, and then carries what those fields hold.
pub proof fn law_file_change(fs: Seq<FieldView>, file: File)
    requires
        types_as(fs, "file_change"@),
    ensures
        decode_fields_spec(fs) == Ok::<EventView, EventErrorView>(EventView::FileChange { file })
            <==> file_at(fs, "file"@, file),
{
    broadcast use vstd::string::group_string_axioms;
    reveal_strlit("file_change");
    assert("file_change"@.len() == 11);
    reveal_strlit("hello");
    assert("hello"@.len() == 5);
    reveal_strlit("message");
    assert("message"@.len() == 7);
    reveal_strlit("user_typing");
    assert("user_typing"@.len() == 11);
    reveal_strlit("channel_marked");
    assert("channel_marked"@.len() == 14);
    reveal_strlit("channel_created");
    assert("channel_created"@.len() == 15);
    reveal_strlit("channel_joined");
    assert("channel_joined"@.len() == 14);
    reveal_strlit("channel_left");
    assert("channel_left"@.len() == 12);
    reveal_strlit("channel_deleted");
    assert("channel_deleted"@.len() == 15);
    reveal_strlit("channel_rename");
    assert("channel_rename"@.len() == 14);
    reveal_strlit("channel_archive");
    assert("channel_archive"@.len() == 15);
    reveal_strlit("channel_unarchive");
    assert("channel_unarchive"@.len() == 17);
    reveal_strlit("channel_history_changed");
    assert("channel_history_changed"@.len() == 23);
    reveal_strlit("im_created");
    assert("im_created"@.len() == 10);
    reveal_strlit("im_open");
    assert("im_open"@.len() == 7);
    reveal_strlit("im_close");
    assert("im_close"@.len() == 8);
    reveal_strlit("im_marked");
    assert("im_marked"@.len() == 9);
    reveal_strlit("im_history_changed");
    assert("im_history_changed"@.len() == 18);
    reveal_strlit("group_joined");
    assert("group_joined"@.len() == 12);
    reveal_strlit("group_left");
    assert("group_left"@.len() == 10);
    reveal_strlit("group_open");
    assert("group_open"@.len() == 10);
    reveal_strlit("group_close");
    assert("group_close"@.len() == 11);
    reveal_strlit("group_archive");
    assert("group_archive"@.len() == 13);
    reveal_strlit("group_unarchive");
    assert("group_unarchive"@.len() == 15);
    reveal_strlit("group_rename");
    assert("group_rename"@.len() == 12);
    reveal_strlit("group_marked");
    assert("group_marked"@.len() == 12);
    reveal_strlit("group_history_changed");
    assert("group_history_changed"@.len() == 21);
    reveal_strlit("file_created");
    assert("file_created"@.len() == 12);
    reveal_strlit("file_shared");
    assert("file_shared"@.len() == 11);
    reveal_strlit("file_unshared");
    assert("file_unshared"@.len() == 13);
    reveal_strlit("file_public");
    assert("file_public"@.len() == 11);
    reveal_strlit("file_private");
    assert("file_private"@.len() == 12);
    assert("file_change"@[0] == 'f' && "user_typing"@[0] == 'u');
    assert("file_change"@[0] == 'f' && "group_close"@[0] == 'g');
    assert("file_change"@[5] == 'c' && "file_shared"@[5] == 's');
    assert("file_change"@[5] == 'c' && "file_public"@[5] == 'p');
    lemma_file_at(fs, "file"@, file);
    assert(decode_fields_spec(fs) == type_event("file_change"@, fs));
    assert(type_event("file_change"@, fs) == crate::decode::file_change_event(fs));
}

/// A `file_deleted` frame decodes to `FileDeleted` exactly when its fields `file_id`, `event_ts`
/// read as the event declares, and then carries what those fields hold.
pub proof fn law_file_deleted(fs: Seq<FieldView>, file_id: Seq<char>, event_ts: Seq<char>)
    requires
        types_as(fs, "file_deleted"@),
    ensures
        decode_fields_spec(fs) == Ok::<EventView, EventErrorView>(EventView::FileDeleted { file_id, event_ts })
            <==> text_at(fs, "file_id"@, file_id) && text_at(fs, "event_ts"@, event_ts),
{
    broadcast use vstd::string::group_string_axioms;
    reveal_strlit("file_deleted");
    assert("file_deleted"@.len() == 12);
    reveal_strlit("hello");
    assert("hello"@.len() == 5);
    reveal_strlit("message");
    assert("message"@.len() == 7);
    reveal_strlit("user_typing");
    assert("user_typing"@.len() == 11);
    reveal_strlit("channel_marked");
    assert("channel_marked"@.len() == 14);
    reveal_strlit("channel_created");
    assert("channel_created"@.len() == 15);
    reveal_strlit("channel_joined");
    assert("channel_joined"@.len() == 14);
    reveal_strlit("channel_left");
    assert("channel_left"@.len() == 12);
    reveal_strlit("channel_deleted");
    assert("channel_deleted"@.len() == 15);
    reveal_strlit("channel_rename");
    assert("channel_rename"@.len() == 14);
    reveal_strlit("channel_archive");
    assert("channel_archive"@.len() == 15);
    reveal_strlit("channel_unarchive");
    assert("channel_unarchive"@.len() == 17);
    reveal_strlit("channel_history_changed");
    assert("channel_history_changed"@.len() == 23);
    reveal_strlit("im_created");
    assert("im_created"@.len() == 10);
    reveal_strlit("im_open");
    assert("im_open"@.len() == 7);
    reveal_strlit("im_close");
    assert("im_close"@.len() == 8);
    reveal_strlit("im_marked");
    assert("im_marked"@.len() == 9);
    reveal_strlit("im_history_changed");
    assert("im_history_changed"@.len() == 18);
    reveal_strlit("group_joined");
    assert("group_joined"@.len() == 12);
    reveal_strlit("group_left");
    assert("group_left"@.len() == 10);
    reveal_strlit("group_open");
    assert("group_open"@.len() == 10);
    reveal_strlit("group_close");
    assert("group_close"@.len() == 11);
    reveal_strlit("group_archive");
    assert("group_archive"@.len() == 13);
    reveal_strlit("group_unarchive");
    assert("group_unarchive"@.len() == 15);
    reveal_strlit("group_rename");
    assert("group_rename"@.len() == 12);
    reveal_strlit("group_marked");
    assert("group_marked"@.len() == 12);
    reveal_strlit("group_history_changed");
    assert("group_history_changed"@.len() == 21);
    reveal_strlit("file_created");
    assert("file_created"@.len() == 12);
    reveal_strlit("file_shared");
    assert("file_shared"@.len() == 11);
    reveal_strlit("file_unshared");
    assert("file_unshared"@.len() == 13);
    reveal_strlit("file_public");
    assert("file_public"@.len() == 11);
    reveal_strlit("file_private");
    assert("file_private"@.len() == 12);
    reveal_strlit("file_change");
    assert("file_change"@.len() == 11);
    assert("file_deleted"@[0] == 'f' && "channel_left"@[0] == 'c');
    assert("file_deleted"@[0] == 'f' && "group_joined"@[0] == 'g');
    assert("file_deleted"@[0] == 'f' && "group_rename"@[0] == 'g');
    assert("file_deleted"@[0] == 'f' && "group_marked"@[0] == 'g');
    assert("file_deleted"@[5] == 'd' && "file_created"@[5] == 'c');
    assert("file_deleted"@[5] == 'd' && "file_private"@[5] == 'p');
    lemma_text_at(fs, "file_id"@, file_id);
    lemma_text_at(fs, "event_ts"@, event_ts);
    assert(decode_fields_spec(fs) == type_event("file_deleted"@, fs));
    assert(type_event("file_deleted"@, fs) == crate::decode::file_deleted_event(fs));
}

/// A `file_comment_added` frame decodes to `FileCommentAdded` exactly when its fields `file`, `comment`
/// read as the event declares, and then carries what those fields hold.
pub proof fn law_file_comment_added(fs: Seq<FieldView>, file: File, comment: FileComment)
    requires
        types_as(fs, "file_comment_added"@),
    ensures
        decode_fields_spec(fs) == Ok::<EventView, EventErrorView>(EventView::FileCommentAdded { file, comment })
            <==> file_at(fs, "file"@, file) && file_comment_at(fs, "comment"@, comment),
{
    broadcast use vstd::string::group_string_axioms;
    reveal_strlit("file_comment_added");
    assert("file_comment_added"@.len() == 18);
    reveal_strlit("hello");
    assert("hello"@.len() == 5);
    reveal_strlit("message");
    assert("message"@.len() == 7);
    reveal_strlit("user_typing");
    assert("user_typing"@.len() == 11);
    reveal_strlit("channel_marked");
    assert("channel_marked"@.len() == 14);
    reveal_strlit("channel_created");
    assert("channel_created"@.len() == 15);
    reveal_strlit("channel_joined");
    assert("channel_joined"@.len() == 14);
    reveal_strlit("channel_left");
    assert("channel_left"@.len() == 12);
    reveal_strlit("channel_deleted");
    assert("channel_deleted"@.len() == 15);
    reveal_strlit("channel_rename");
    assert("channel_rename"@.len() == 14);
    reveal_strlit("channel_archive");
    assert("channel_archive"@.len() == 15);
    reveal_strlit("channel_unarchive");
    assert("channel_unarchive"@.len() == 17);
    reveal_strlit("channel_history_changed");
    assert("channel_history_changed"@.len() == 23);
    reveal_strlit("im_created");
    assert("im_created"@.len() == 10);
    reveal_strlit("im_open");
    assert("im_open"@.len() == 7);
    reveal_strlit("im_close");
    assert("im_close"@.len() == 8);
    reveal_strlit("im_marked");
    assert("im_marked"@.len() == 9);
    reveal_strlit("im_history_changed");
    assert("im_history_changed"@.len() == 18);
    reveal_strlit("group_joined");
    assert("group_joined"@.len() == 12);
    reveal_strlit("group_left");
    assert("group_left"@.len() == 10);
    reveal_strlit("group_open");
    assert("group_open"@.len() == 10);
    reveal_strlit("group_close");
    assert("group_close"@.len() == 11);
    reveal_strlit("group_archive");
    assert("group_archive"@.len() == 13);
    reveal_strlit("group_unarchive");
    assert("group_unarchive"@.len() == 15);
    reveal_strlit("group_rename");
    assert("group_rename"@.len() == 12);
    reveal_strlit("group_marked");
    assert("group_marked"@.len() == 12);
    reveal_strlit("group_history_changed");
    assert("group_history_changed"@.len() == 21);
    reveal_strlit("file_created");
    assert("file_created"@.len() == 12);
    reveal_strlit("file_shared");
    assert("file_shared"@.len() == 11);
    reveal_strlit("file_unshared");
    assert("file_unshared"@.len() == 13);
    reveal_strlit("file_public");
    assert("file_public"@.len() == 11);
    reveal_strlit("file_private");
    assert("file_private"@.len() == 12);
    reveal_strlit("file_change");
    assert("file_change"@.len() == 11);
    reveal_strlit("file_deleted");
    assert("file_deleted"@.len() == 12);
    assert("file_comment_added"@[0] == 'f' && "im_history_changed"@[0] == 'i');
    lemma_file_at(fs, "file"@, file);
    lemma_file_comment_at(fs, "comment"@, comment);
    assert(decode_fields_spec(fs) == type_event("file_comment_added"@, fs));
    assert(type_event("file_comment_added"@, fs) == crate::decode::file_comment_added_event(fs));
}

/// A `file_comment_edited` frame decodes to `FileCommentEdited` exactly when its fields `file`, `comment`
/// read as the event declares, and then carries what those fields hold.
pub proof fn law_file_comment_edited(fs: Seq<FieldView>, file: File, comment: FileComment)
    requires
        types_as(fs, "file_comment_edited"@),
    ensures
        decode_fields_spec(fs) == Ok::<EventView, EventErrorView>(EventView::FileCommentEdited { file, comment })
            <==> file_at(fs, "file"@, file) && file_comment_at(fs, "comment"@, comment),
{
    broadcast use vstd::string::group_string_axioms;
    reveal_strlit("file_comment_edited");
    assert("file_comment_edited"@.len() == 19);
    reveal_strlit("hello");
    assert("hello"@.len() == 5);
    reveal_strlit("message");
    assert("message"@.len() == 7);
    reveal_strlit("user_typing");
    assert("user_typing"@.len() == 11);
    reveal_strlit("channel_marked");
    assert("channel_marked"@.len() == 14);
    reveal_strlit("channel_created");
    assert("channel_created"@.len() == 15);
    reveal_strlit("channel_joined");
    assert("channel_joined"@.len() == 14);
    reveal_strlit("channel_left");
    assert("channel_left"@.len() == 12);
    reveal_strlit("channel_deleted");
    assert("channel_deleted"@.len() == 15);
    reveal_strlit("channel_rename");
    assert("channel_rename"@.len() == 14);
    reveal_strlit("channel_archive");
    assert("channel_archive"@.len() == 15);
    reveal_strlit("channel_unarchive");
    assert("channel_unarchive"@.len() == 17);
    reveal_strlit("channel_history_changed");
    assert("channel_history_changed"@.len() == 23);
    reveal_strlit("im_created");
    assert("im_created"@.len() == 10);
    reveal_strlit("im_open");
    assert("im_open"@.len() == 7);
    reveal_strlit("im_close");
    assert("im_close"@.len() == 8);
    reveal_strlit("im_marked");
    assert("im_marked"@.len() == 9);
    reveal_strlit("im_history_changed");
    assert("im_history_changed"@.len() == 18);
    reveal_strlit("group_joined");
    assert("group_joined"@.len() == 12);
    reveal_strlit("group_left");
    assert("group_left"@.len() == 10);
    reveal_strlit("group_open");
    assert("group_open"@.len() == 10);
    reveal_strlit("group_close");
    assert("group_close"@.len() == 11);
    reveal_strlit("group_archive");
    assert("group_archive"@.len() == 13);
    reveal_strlit("group_unarchive");
    assert("group_unarchive"@.len() == 15);
    reveal_strlit("group_rename");
    assert("group_rename"@.len() == 12);
    reveal_strlit("group_marked");
    assert("group_marked"@.len() == 12);
    reveal_strlit("group_history_changed");
    assert("group_history_changed"@.len() == 21);
    reveal_strlit("file_created");
    assert("file_created"@.len() == 12);
    reveal_strlit("file_shared");
    assert("file_shared"@.len() == 11);
    reveal_strlit("file_unshared");
    assert("file_unshared"@.len() == 13);
    reveal_strlit("file_public");
    assert("file_public"@.len() == 11);
    reveal_strlit("file_private");
    assert("file_private"@.len() == 12);
    reveal_strlit("file_change");
    assert("file_change"@.len() == 11);
    reveal_strlit("file_deleted");
    assert("file_deleted"@.len() == 12);
    reveal_strlit("file_comment_added");
    assert("file_comment_added"@.len() == 18);
    lemma_file_at(fs, "file"@, file);
    lemma_file_comment_at(fs, "comment"@, comment);
    assert(decode_fields_spec(fs) == type_event("file_comment_edited"@, fs));
    assert(type_event("file_comment_edited"@, fs) == crate::decode::file_comment_edited_event(fs));
}

/// A `file_comment_deleted` frame decodes to `FileCommentDeleted` exactly when its fields `file`, `comment`
/// read as the event declares, and then carries what those fields hold.
pub proof fn law_file_comment_deleted(fs: Seq<FieldView>, file: File, comment: Seq<char>)
    requires
        types_as(fs, "file_comment_deleted"@),
    ensures
        decode_fields_spec(fs) == Ok::<EventView, EventErrorView>(EventView::FileCommentDeleted { file, comment })
            <==> file_at(fs, "file"@, file) && text_at(fs, "comment"@, comment),
{
    broadcast use vstd::string::group_string_axioms;
    reveal_strlit("file_comment_deleted");
    assert("file_comment_deleted"@.len() == 20);
    reveal_strlit("hello");
    assert("hello"@.len() == 5);
    reveal_strlit("message");
    assert("message"@.len() == 7);
    reveal_strlit("user_typing");
    assert("user_typing"@.len() == 11);
    reveal_strlit("channel_marked");
    assert("channel_marked"@.len() == 14);
    reveal_strlit("channel_created");
    assert("channel_created"@.len() == 15);
    reveal_strlit("channel_joined");
    assert("channel_joined"@.len() == 14);
    reveal_strlit("channel_left");
    assert("channel_left"@.len() == 12);
    reveal_strlit("channel_deleted");
    assert("channel_deleted"@.len() == 15);
    reveal_strlit("channel_rename");
    assert("channel_rename"@.len() == 14);
    reveal_strlit("channel_archive");
    assert("channel_archive"@.len() == 15);
    reveal_strlit("channel_unarchive");
    assert("channel_unarchive"@.len() == 17);
    reveal_strlit("channel_history_changed");
    assert("channel_history_changed"@.len() == 23);
    reveal_strlit("im_created");
    assert("im_created"@.len() == 10);
    reveal_strlit("im_open");
    assert("im_open"@.len() == 7);
    reveal_strlit("im_close");
    assert("im_close"@.len() == 8);
    reveal_strlit("im_marked");
    assert("im_marked"@.len() == 9);
    reveal_strlit("im_history_changed");
    assert("im_history_changed"@.len() == 18);
    reveal_strlit("group_joined");
    assert("group_joined"@.len() == 12);
    reveal_strlit("group_left");
    assert("group_left"@.len() == 10);
    reveal_strlit("group_open");
    assert("group_open"@.len() == 10);
    reveal_strlit("group_close");
    assert("group_close"@.len() == 11);
    reveal_strlit("group_archive");
    assert("group_archive"@.len() == 13);
    reveal_strlit("group_unarchive");
    assert("group_unarchive"@.len() == 15);
    reveal_strlit("group_rename");
    assert("group_rename"@.len() == 12);
    reveal_strlit("group_marked");
    assert("group_marked"@.len() == 12);
    reveal_strlit("group_history_changed");
    assert("group_history_changed"@.len() == 21);
    reveal_strlit("file_created");
    assert("file_created"@.len() == 12);
    reveal_strlit("file_shared");
    assert("file_shared"@.len() == 11);
    reveal_strlit("file_unshared");
    assert("file_unshared"@.len() == 13);
    reveal_strlit("file_public");
    assert("file_public"@.len() == 11);
    reveal_strlit("file_private");
    assert("file_private"@.len() == 12);
    reveal_strlit("file_change");
    assert("file_change"@.len() == 11);
    reveal_strlit("file_deleted");
    assert("file_deleted"@.len() == 12);
    reveal_strlit("file_comment_added");
    assert("file_comment_added"@.len() == 18);
    reveal_strlit("file_comment_edited");
    assert("file_comment_edited"@.len() == 19);
    lemma_file_at(fs, "file"@, file);
    lemma_text_at(fs, "comment"@, comment);
    assert(decode_fields_spec(fs) == type_event("file_comment_deleted"@, fs));
    assert(type_event("file_comment_deleted"@, fs) == crate::decode::file_comment_deleted_event(fs));
}

/// A `pin_added` frame decodes to `PinAdded` exactly when its fields `user`, `channel_id`, `item`, `event_ts`
/// read as the event declares, and then carries what those fields hold.
pub proof fn law_pin_added(fs: Seq<FieldView>, user: Seq<char>, channel_id: Seq<char>, item: MessagePinnedItem, event_ts: Seq<char>)
    requires
        types_as(fs, "pin_added"@),
    ensures
        decode_fields_spec(fs) == Ok::<EventView, EventErrorView>(EventView::PinAdded { user, channel_id, item, event_ts })
            <==> text_at(fs, "user"@, user) && text_at(fs, "channel_id"@, channel_id) && pinned_item_at(fs, "item"@, item) && text_at(fs, "event_ts"@, event_ts),
{
    broadcast use vstd::string::group_string_axioms;
    reveal_strlit("pin_added");
    assert("pin_added"@.len() == 9);
    reveal_strlit("hello");
    assert("hello"@.len() == 5);
    reveal_strlit("message");
    assert("message"@.len() == 7);
    reveal_strlit("user_typing");
    assert("user_typing"@.len() == 11);
    reveal_strlit("channel_marked");
    assert("channel_marked"@.len() == 14);
    reveal_strlit("channel_created");
    assert("channel_created"@.len() == 15);
    reveal_strlit("channel_joined");
    assert("channel_joined"@.len() == 14);
    reveal_strlit("channel_left");
    assert("channel_left"@.len() == 12);
    reveal_strlit("channel_deleted");
    assert("channel_deleted"@.len() == 15);
    reveal_strlit("channel_rename");
    assert("channel_rename"@.len() == 14);
    reveal_strlit("channel_archive");
    assert("channel_archive"@.len() == 15);
    reveal_strlit("channel_unarchive");
    assert("channel_unarchive"@.len() == 17);
    reveal_strlit("channel_history_changed");
    assert("channel_history_changed"@.len() == 23);
    reveal_strlit("im_created");
    assert("im_created"@.len() == 10);
    reveal_strlit("im_open");
    assert("im_open"@.len() == 7);
    reveal_strlit("im_close");
    assert("im_close"@.len() == 8);
    reveal_strlit("im_marked");
    assert("im_marked"@.len() == 9);
    reveal_strlit("im_history_changed");
    assert("im_history_changed"@.len() == 18);
    reveal_strlit("group_joined");
    assert("group_joined"@.len() == 12);
    reveal_strlit("group_left");
    assert("group_left"@.len() == 10);
    reveal_strlit("group_open");
    assert("group_open"@.len() == 10);
    reveal_strlit("group_close");
    assert("group_close"@.len() == 11);
    reveal_strlit("group_archive");
    assert("group_archive"@.len() == 13);
    reveal_strlit("group_unarchive");
    assert("group_unarchive"@.len() == 15);
    reveal_strlit("group_rename");
    assert("group_rename"@.len() == 12);
    reveal_strlit("group_marked");
    assert("group_marked"@.len() == 12);
    reveal_strlit("group_history_changed");
    assert("group_history_changed"@.len() == 21);
    reveal_strlit("file_created");
    assert("file_created"@.len() == 12);
    reveal_strlit("file_shared");
    assert("file_shared"@.len() == 11);
    reveal_strlit("file_unshared");
    assert("file_unshared"@.len() == 13);
    reveal_strlit("file_public");
    assert("file_public"@.len() == 11);
    reveal_strlit("file_private");
    assert("file_private"@.len() == 12);
    reveal_strlit("file_change");
    assert("file_change"@.len() == 11);
    reveal_strlit("file_deleted");
    assert("file_deleted"@.len() == 12);
    reveal_strlit("file_comment_added");
    assert("file_comment_added"@.len() == 18);
    reveal_strlit("file_comment_edited");
    assert("file_comment_edited"@.len() == 19);
    reveal_strlit("file_comment_deleted");
    assert("file_comment_deleted"@.len() == 20);
    assert("pin_added"@[0] == 'p' && "im_marked"@[0] == 'i');
    lemma_text_at(fs, "user"@, user);
    lemma_text_at(fs, "channel_id"@, channel_id);
    lemma_pinned_item_at(fs, "item"@, item);
    lemma_text_at(fs, "event_ts"@, event_ts);
    assert(decode_fields_spec(fs) == type_event("pin_added"@, fs));
    assert(type_event("pin_added"@, fs) == crate::decode::pin_added_event(fs));
}

/// A `pin_removed` frame decodes to `PinRemoved` exactly when its fields `user`, `channel_id`, `item`, `has_pins`, `event_ts`
/// read as the event declares, and then carries what those fields hold.
pub proof fn law_pin_removed(fs: Seq<FieldView>, user: Seq<char>, channel_id: Seq<char>, item: MessageUnpinnedItem, has_pins: bool, event_ts: Seq<char>)
    requires
        types_as(fs, "pin_removed"@),
    ensures
        decode_fields_spec(fs) == Ok::<EventView, EventErrorView>(EventView::PinRemoved { user, channel_id, item, has_pins, event_ts })
            <==> text_at(fs, "user"@, user) && text_at(fs, "channel_id"@, channel_id) && unpinned_item_at(fs, "item"@, item) && bool_at(fs, "has_pins"@, has_pins) && text_at(fs, "event_ts"@, event_ts),
{
    broadcast use vstd::string::group_string_axioms;
    reveal_strlit("pin_removed");
    assert("pin_removed"@.len() == 11);
    reveal_strlit("hello");
    assert("hello"@.len() == 5);
    reveal_strlit("message");
    assert("message"@.len() == 7);
    reveal_strlit("user_typing");
    assert("user_typing"@.len() == 11);
    reveal_strlit("channel_marked");
    assert("channel_marked"@.len() == 14);
    reveal_strlit("channel_created");
    assert("channel_created"@.len() == 15);
    reveal_strlit("channel_joined");
    assert("channel_joined"@.len() == 14);
    reveal_strlit("channel_left");
    assert("channel_left"@.len() == 12);
    reveal_strlit("channel_deleted");
    assert("channel_deleted"@.len() == 15);
    reveal_strlit("channel_rename");
    assert("channel_rename"@.len() == 14);
    reveal_strlit("channel_archive");
    assert("channel_archive"@.len() == 15);
    reveal_strlit("channel_unarchive");
    assert("channel_unarchive"@.len() == 17);
    reveal_strlit("channel_history_changed");
    assert("channel_history_changed"@.len() == 23);
    reveal_strlit("im_created");
    assert("im_created"@.len() == 10);
    reveal_strlit("im_open");
    assert("im_open"@.len() == 7);
    reveal_strlit("im_close");
    assert("im_close"@.len() == 8);
    reveal_strlit("im_marked");
    assert("im_marked"@.len() == 9);
    reveal_strlit("im_history_changed");
    assert("im_history_changed"@.len() == 18);
    reveal_strlit("group_joined");
    assert("group_joined"@.len() == 12);
    reveal_strlit("group_left");
    assert("group_left"@.len() == 10);
    reveal_strlit("group_open");
    assert("group_open"@.len() == 10);
    reveal_strlit("group_close");
    assert("group_close"@.len() == 11);
    reveal_strlit("group_archive");
    assert("group_archive"@.len() == 13);
    reveal_strlit("group_unarchive");
    assert("group_unarchive"@.len() == 15);
    reveal_strlit("group_rename");
    assert("group_rename"@.len() == 12);
    reveal_strlit("group_marked");
    assert("group_marked"@.len() == 12);
    reveal_strlit("group_history_changed");
    assert("group_history_changed"@.len() == 21);
    reveal_strlit("file_created");
    assert("file_created"@.len() == 12);
    reveal_strlit("file_shared");
    assert("file_shared"@.len() == 11);
    reveal_strlit("file_unshared");
    assert("file_unshared"@.len() == 13);
    reveal_strlit("file_public");
    assert("file_public"@.len() == 11);
    reveal_strlit("file_private");
    assert("file_private"@.len() == 12);
    reveal_strlit("file_change");
    assert("file_change"@.len() == 11);
    reveal_strlit("file_deleted");
    assert("file_deleted"@.len() == 12);
    reveal_strlit("file_comment_added");
    assert("file_comment_added"@.len() == 18);
    reveal_strlit("file_comment_edited");
    assert("file_comment_edited"@.len() == 19);
    reveal_strlit("file_comment_deleted");
    assert("file_comment_deleted"@.len() == 20);
    reveal_strlit("pin_added");
    assert("pin_added"@.len() == 9);
    assert("pin_removed"@[0] == 'p' && "user_typing"@[0] == 'u');
    assert("pin_removed"@[0] == 'p' && "group_close"@[0] == 'g');
    assert("pin_removed"@[0] == 'p' && "file_shared"@[0] == 'f');
    assert("pin_removed"@[0] == 'p' && "file_public"@[0] == 'f');
    assert("pin_removed"@[0] == 'p' && "file_change"@[0] == 'f');
    lemma_text_at(fs, "user"@, user);
    lemma_text_at(fs, "channel_id"@, channel_id);
    lemma_unpinned_item_at(fs, "item"@, item);
    lemma_bool_at(fs, "has_pins"@, has_pins);
    lemma_text_at(fs, "event_ts"@, event_ts);
    assert(decode_fields_spec(fs) == type_event("pin_removed"@, fs));
    assert(type_event("pin_removed"@, fs) == crate::decode::pin_removed_event(fs));
}

/// A `presence_change` frame decodes to `PresenceChange` exactly when its fields `user`, `presence`
/// read as the event declares, and then carries what those fields hold.
pub proof fn law_presence_change(fs: Seq<FieldView>, user: Seq<char>, presence: Seq<char>)
    requires
        types_as(fs, "presence_change"@),
    ensures
        decode_fields_spec(fs) == Ok::<EventView, EventErrorView>(EventView::PresenceChange { user, presence })
            <==> text_at(fs, "user"@, user) && text_at(fs, "presence"@, presence),
{
    broadcast use vstd::string::group_string_axioms;
    reveal_strlit("presence_change");
    assert("presence_change"@.len() == 15);
    reveal_strlit("hello");
    assert("hello"@.len() == 5);
    reveal_strlit("message");
    assert("message"@.len() == 7);
    reveal_strlit("user_typing");
    assert("user_typing"@.len() == 11);
    reveal_strlit("channel_marked");
    assert("channel_marked"@.len() == 14);
    reveal_strlit("channel_created");
    assert("channel_created"@.len() == 15);
    reveal_strlit("channel_joined");
    assert("channel_joined"@.len() == 14);
    reveal_strlit("channel_left");
    assert("channel_left"@.len() == 12);
    reveal_strlit("channel_deleted");
    assert("channel_deleted"@.len() == 15);
    reveal_strlit("channel_rename");
    assert("channel_rename"@.len() == 14);
    reveal_strlit("channel_archive");
    assert("channel_archive"@.len() == 15);
    reveal_strlit("channel_unarchive");
    assert("channel_unarchive"@.len() == 17);
    reveal_strlit("channel_history_changed");
    assert("channel_history_changed"@.len() == 23);
    reveal_strlit("im_created");
    assert("im_created"@.len() == 10);
    reveal_strlit("im_open");
    assert("im_open"@.len() == 7);
    reveal_strlit("im_close");
    assert("im_close"@.len() == 8);
    reveal_strlit("im_marked");
    assert("im_marked"@.len() == 9);
    reveal_strlit("im_history_changed");
    assert("im_history_changed"@.len() == 18);
    reveal_strlit("group_joined");
    assert("group_joined"@.len() == 12);
    reveal_strlit("group_left");
    assert("group_left"@.len() == 10);
    reveal_strlit("group_open");
    assert("group_open"@.len() == 10);
    reveal_strlit("group_close");
    assert("group_close"@.len() == 11);
    reveal_strlit("group_archive");
    assert("group_archive"@.len() == 13);
    reveal_strlit("group_unarchive");
    assert("group_unarchive"@.len() == 15);
    reveal_strlit("group_rename");
    assert("group_rename"@.len() == 12);
    reveal_strlit("group_marked");
    assert("group_marked"@.len() == 12);
    reveal_strlit("group_history_changed");
    assert("group_history_changed"@.len() == 21);
    reveal_strlit("file_created");
    assert("file_created"@.len() == 12);
    reveal_strlit("file_shared");
    assert("file_shared"@.len() == 11);
    reveal_strlit("file_unshared");
    assert("file_unshared"@.len() == 13);
    reveal_strlit("file_public");
    assert("file_public"@.len() == 11);
    reveal_strlit("file_private");
    assert("file_private"@.len() == 12);
    reveal_strlit("file_change");
    assert("file_change"@.len() == 11);
    reveal_strlit("file_deleted");
    assert("file_deleted"@.len() == 12);
    reveal_strlit("file_comment_added");
    assert("file_comment_added"@.len() == 18);
    reveal_strlit("file_comment_edited");
    assert("file_comment_edited"@.len() == 19);
    reveal_strlit("file_comment_deleted");
    assert("file_comment_deleted"@.len() == 20);
    reveal_strlit("pin_added");
    assert("pin_added"@.len() == 9);
    reveal_strlit("pin_removed");
    assert("pin_removed"@.len() == 11);
    assert("presence_change"@[0] == 'p' && "channel_created"@[0] == 'c');
    assert("presence_change"@[0] == 'p' && "channel_deleted"@[0] == 'c');
    assert("presence_change"@[0] == 'p' && "channel_archive"@[0] == 'c');
    assert("presence_change"@[0] == 'p' && "group_unarchive"@[0] == 'g');
    lemma_text_at(fs, "user"@, user);
    lemma_text_at(fs, "presence"@, presence);
    assert(decode_fields_spec(fs) == type_event("presence_change"@, fs));
    assert(type_event("presence_change"@, fs) == crate::decode::presence_change_event(fs));
}

/// A `manual_presence_change` frame decodes to `ManualPresenceChange` exactly when its fields `presence`
/// read as the event declares, and then carries what those fields hold.
pub proof fn law_manual_presence_change(fs: Seq<FieldView>, presence: Seq<char>)
    requires
        types_as(fs, "manual_presence_change"@),
    ensures
        decode_fields_spec(fs) == Ok::<EventView, EventErrorView>(EventView::ManualPresenceChange { presence })
            <==> text_at(fs, "presence"@, presence),
{
    broadcast use vstd::string::group_string_axioms;
    reveal_strlit("manual_presence_change");
    assert("manual_presence_change"@.len() == 22);
    reveal_strlit("hello");
    assert("hello"@.len() == 5);
    reveal_strlit("message");
    assert("message"@.len() == 7);
    reveal_strlit("user_typing");
    assert("user_typing"@.len() == 11);
    reveal_strlit("channel_marked");
    assert("channel_marked"@.len() == 14);
    reveal_strlit("channel_created");
    assert("channel_created"@.len() == 15);
    reveal_strlit("channel_joined");
    assert("channel_joined"@.len() == 14);
    reveal_strlit("channel_left");
    assert("channel_left"@.len() == 12);
    reveal_strlit("channel_deleted");
    assert("channel_deleted"@.len() == 15);
    reveal_strlit("channel_rename");
    assert("channel_rename"@.len() == 14);
    reveal_strlit("channel_archive");
    assert("channel_archive"@.len() == 15);
    reveal_strlit("channel_unarchive");
    assert("channel_unarchive"@.len() == 17);
    reveal_strlit("channel_history_changed");
    assert("channel_history_changed"@.len() == 23);
    reveal_strlit("im_created");
    assert("im_created"@.len() == 10);
    reveal_strlit("im_open");
    assert("im_open"@.len() == 7);
    reveal_strlit("im_close");
    assert("im_close"@.len() == 8);
    reveal_strlit("im_marked");
    assert("im_marked"@.len() == 9);
    reveal_strlit("im_history_changed");
    assert("im_history_changed"@.len() == 18);
    reveal_strlit("group_joined");
    assert("group_joined"@.len() == 12);
    reveal_strlit("group_left");
    assert("group_left"@.len() == 10);
    reveal_strlit("group_open");
    assert("group_open"@.len() == 10);
    reveal_strlit("group_close");
    assert("group_close"@.len() == 11);
    reveal_strlit("group_archive");
    assert("group_archive"@.len() == 13);
    reveal_strlit("group_unarchive");
    assert("group_unarchive"@.len() == 15);
    reveal_strlit("group_rename");
    assert("group_rename"@.len() == 12);
    reveal_strlit("group_marked");
    assert("group_marked"@.len() == 12);
    reveal_strlit("group_history_changed");
    assert("group_history_changed"@.len() == 21);
    reveal_strlit("file_created");
    assert("file_created"@.len() == 12);
    reveal_strlit("file_shared");
    assert("file_shared"@.len() == 11);
    reveal_strlit("file_unshared");
    assert("file_unshared"@.len() == 13);
    reveal_strlit("file_public");
    assert("file_public"@.len() == 11);
    reveal_strlit("file_private");
    assert("file_private"@.len() == 12);
    reveal_strlit("file_change");
    assert("file_change"@.len() == 11);
    reveal_strlit("file_deleted");
    assert("file_deleted"@.len() == 12);
    reveal_strlit("file_comment_added");
    assert("file_comment_added"@.len() == 18);
    reveal_strlit("file_comment_edited");
    assert("file_comment_edited"@.len() == 19);
    reveal_strlit("file_comment_deleted");
    assert("file_comment_deleted"@.len() == 20);
    reveal_strlit("pin_added");
    assert("pin_added"@.len() == 9);
    reveal_strlit("pin_removed");
    assert("pin_removed"@.len() == 11);
    reveal_strlit("presence_change");
    assert("presence_change"@.len() == 15);
    lemma_text_at(fs, "presence"@, presence);
    assert(decode_fields_spec(fs) == type_event("manual_presence_change"@, fs));
    assert(type_event("manual_presence_change"@, fs) == crate::decode::manual_presence_change_event(fs));
}

/// A `pref_change` frame decodes to `PrefChange` exactly when its fields `name`, `value`
/// read as the event declares, and then carries what those fields hold.
pub proof fn law_pref_change(fs: Seq<FieldView>, name: Seq<char>, value: Seq<char>)
    requires
        types_as(fs, "pref_change"@),
    ensures
        decode_fields_spec(fs) == Ok::<EventView, EventErrorView>(EventView::PrefChange { name, value })
            <==> text_at(fs, "name"@, name) && text_at(fs, "value"@, value),
{
    broadcast use vstd::string::group_string_axioms;
    reveal_strlit("pref_change");
    assert("pref_change"@.len() == 11);
    reveal_strlit("hello");
    assert("hello"@.len() == 5);
    reveal_strlit("message");
    assert("message"@.len() == 7);
    reveal_strlit("user_typing");
    assert("user_typing"@.len() == 11);
    reveal_strlit("channel_marked");
    assert("channel_marked"@.len() == 14);
    reveal_strlit("channel_created");
    assert("channel_created"@.len() == 15);
    reveal_strlit("channel_joined");
    assert("channel_joined"@.len() == 14);
    reveal_strlit("channel_left");
    assert("channel_left"@.len() == 12);
    reveal_strlit("channel_deleted");
    assert("channel_deleted"@.len() == 15);
    reveal_strlit("channel_rename");
    assert("channel_rename"@.len() == 14);
    reveal_strlit("channel_archive");
    assert("channel_archive"@.len() == 15);
    reveal_strlit("channel_unarchive");
    assert("channel_unarchive"@.len() == 17);
    reveal_strlit("channel_history_changed");
    assert("channel_history_changed"@.len() == 23);
    reveal_strlit("im_created");
    assert("im_created"@.len() == 10);
    reveal_strlit("im_open");
    assert("im_open"@.len() == 7);
    reveal_strlit("im_close");
    assert("im_close"@.len() == 8);
    reveal_strlit("im_marked");
    assert("im_marked"@.len() == 9);
    reveal_strlit("im_history_changed");
    assert("im_history_changed"@.len() == 18);
    reveal_strlit("group_joined");
    assert("group_joined"@.len() == 12);
    reveal_strlit("group_left");
    assert("group_left"@.len() == 10);
    reveal_strlit("group_open");
    assert("group_open"@.len() == 10);
    reveal_strlit("group_close");
    assert("group_close"@.len() == 11);
    reveal_strlit("group_archive");
    assert("group_archive"@.len() == 13);
    reveal_strlit("group_unarchive");
    assert("group_unarchive"@.len() == 15);
    reveal_strlit("group_rename");
    assert("group_rename"@.len() == 12);
    reveal_strlit("group_marked");
    assert("group_marked"@.len() == 12);
    reveal_strlit("group_history_changed");
    assert("group_history_changed"@.len() == 21);
    reveal_strlit("file_created");
    assert("file_created"@.len() == 12);
    reveal_strlit("file_shared");
    assert("file_shared"@.len() == 11);
    reveal_strlit("file_unshared");
    assert("file_unshared"@.len() == 13);
    reveal_strlit("file_public");
    assert("file_public"@.len() == 11);
    reveal_strlit("file_private");
    assert("file_private"@.len() == 12);
    reveal_strlit("file_change");
    assert("file_change"@.len() == 11);
    reveal_strlit("file_deleted");
    assert("file_deleted"@.len() == 12);
    reveal_strlit("file_comment_added");
    assert("file_comment_added"@.len() == 18);
    reveal_strlit("file_comment_edited");
    assert("file_comment_edited"@.len() == 19);
    reveal_strlit("file_comment_deleted");
    assert("file_comment_deleted"@.len() == 20);
    reveal_strlit("pin_added");
    assert("pin_added"@.len() == 9);
    reveal_strlit("pin_removed");
    assert("pin_removed"@.len() == 11);
    reveal_strlit("presence_change");
    assert("presence_change"@.len() == 15);
    reveal_strlit("manual_presence_change");
    assert("manual_presence_change"@.len() == 22);
    assert("pref_change"@[0] == 'p' && "user_typing"@[0] == 'u');
    assert("pref_change"@[0] == 'p' && "group_close"@[0] == 'g');
    assert("pref_change"@[0] == 'p' && "file_shared"@[0] == 'f');
    assert("pref_change"@[0] == 'p' && "file_public"@[0] == 'f');
    assert("pref_change"@[0] == 'p' && "file_change"@[0] == 'f');
    assert("pref_change"@[1] == 'r' && "pin_removed"@[1] == 'i');
    lemma_text_at(fs, "name"@, name);
    lemma_text_at(fs, "value"@, value);
    assert(decode_fields_spec(fs) == type_event("pref_change"@, fs));
    assert(type_event("pref_change"@, fs) == crate::decode::pref_change_event(fs));
}

/// A `user_change` frame decodes to `UserChange` exactly when its fields `user`
/// read as the event declares, and then carries what those fields hold.
pub proof fn law_user_change(fs: Seq<FieldView>)
    requires
        types_as(fs, "user_change"@),
    ensures
        decode_fields_spec(fs) == Ok::<EventView, EventErrorView>(EventView::UserChange)
            <==> user_ok_at(fs, "user"@),
{
    broadcast use vstd::string::group_string_axioms;
    reveal_strlit("user_change");
    assert("user_change"@.len() == 11);
    reveal_strlit("hello");
    assert("hello"@.len() == 5);
    reveal_strlit("message");
    assert("message"@.len() == 7);
    reveal_strlit("user_typing");
    assert("user_typing"@.len() == 11);
    reveal_strlit("channel_marked");
    assert("channel_marked"@.len() == 14);
    reveal_strlit("channel_created");
    assert("channel_created"@.len() == 15);
    reveal_strlit("channel_joined");
    assert("channel_joined"@.len() == 14);
    reveal_strlit("channel_left");
    assert("channel_left"@.len() == 12);
    reveal_strlit("channel_deleted");
    assert("channel_deleted"@.len() == 15);
    reveal_strlit("channel_rename");
    assert("channel_rename"@.len() == 14);
    reveal_strlit("channel_archive");
    assert("channel_archive"@.len() == 15);
    reveal_strlit("channel_unarchive");
    assert("channel_unarchive"@.len() == 17);
    reveal_strlit("channel_history_changed");
    assert("channel_history_changed"@.len() == 23);
    reveal_strlit("im_created");
    assert("im_created"@.len() == 10);
    reveal_strlit("im_open");
    assert("im_open"@.len() == 7);
    reveal_strlit("im_close");
    assert("im_close"@.len() == 8);
    reveal_strlit("im_marked");
    assert("im_marked"@.len() == 9);
    reveal_strlit("im_history_changed");
    assert("im_history_changed"@.len() == 18);
    reveal_strlit("group_joined");
    assert("group_joined"@.len() == 12);
    reveal_strlit("group_left");
    assert("group_left"@.len() == 10);
    reveal_strlit("group_open");
    assert("group_open"@.len() == 10);
    reveal_strlit("group_close");
    assert("group_close"@.len() == 11);
    reveal_strlit("group_archive");
    assert("group_archive"@.len() == 13);
    reveal_strlit("group_unarchive");
    assert("group_unarchive"@.len() == 15);
    reveal_strlit("group_rename");
    assert("group_rename"@.len() == 12);
    reveal_strlit("group_marked");
    assert("group_marked"@.len() == 12);
    reveal_strlit("group_history_changed");
    assert("group_history_changed"@.len() == 21);
    reveal_strlit("file_created");
    assert("file_created"@.len() == 12);
    reveal_strlit("file_shared");
    assert("file_shared"@.len() == 11);
    reveal_strlit("file_unshared");
    assert("file_unshared"@.len() == 13);
    reveal_strlit("file_public");
    assert("file_public"@.len() == 11);
    reveal_strlit("file_private");
    assert("file_private"@.len() == 12);
    reveal_strlit("file_change");
    assert("file_change"@.len() == 11);
    reveal_strlit("file_deleted");
    assert("file_deleted"@.len() == 12);
    reveal_strlit("file_comment_added");
    assert("file_comment_added"@.len() == 18);
    reveal_strlit("file_comment_edited");
    assert("file_comment_edited"@.len() == 19);
    reveal_strlit("file_comment_deleted");
    assert("file_comment_deleted"@.len() == 20);
    reveal_strlit("pin_added");
    assert("pin_added"@.len() == 9);
    reveal_strlit("pin_removed");
    assert("pin_removed"@.len() == 11);
    reveal_strlit("presence_change");
    assert("presence_change"@.len() == 15);
    reveal_strlit("manual_presence_change");
    assert("manual_presence_change"@.len() == 22);
    reveal_strlit("pref_change");
    assert("pref_change"@.len() == 11);
    assert("user_change"@[5] == 'c' && "user_typing"@[5] == 't');
    assert("user_change"@[0] == 'u' && "group_close"@[0] == 'g');
    assert("user_change"@[0] == 'u' && "file_shared"@[0] == 'f');
    assert("user_change"@[0] == 'u' && "file_public"@[0] == 'f');
    assert("user_change"@[0] == 'u' && "file_change"@[0] == 'f');
    assert("user_change"@[0] == 'u' && "pin_removed"@[0] == 'p');
    assert("user_change"@[0] == 'u' && "pref_change"@[0] == 'p');
    lemma_user_ok_at(fs, "user"@);
    assert(decode_fields_spec(fs) == type_event("user_change"@, fs));
    assert(type_event("user_change"@, fs) == crate::decode::user_change_event(fs));
}

/// A `team_join` frame decodes to `TeamJoin` exactly when its fields `user`
/// read as the event declares, and then carries what those fields hold.
pub proof fn law_team_join(fs: Seq<FieldView>)
    requires
        types_as(fs, "team_join"@),
    ensures
        decode_fields_spec(fs) == Ok::<EventView, EventErrorView>(EventView::TeamJoin)
            <==> user_ok_at(fs, "user"@),
{
    broadcast use vstd::string::group_string_axioms;
    reveal_strlit("team_join");
    assert("team_join"@.len() == 9);
    reveal_strlit("hello");
    assert("hello"@.len() == 5);
    reveal_strlit("message");
    assert("message"@.len() == 7);
    reveal_strlit("user_typing");
    assert("user_typing"@.len() == 11);
    reveal_strlit("channel_marked");
    assert("channel_marked"@.len() == 14);
    reveal_strlit("channel_created");
    assert("channel_created"@.len() == 15);
    reveal_strlit("channel_joined");
    assert("channel_joined"@.len() == 14);
    reveal_strlit("channel_left");
    assert("channel_left"@.len() == 12);
    reveal_strlit("channel_deleted");
    assert("channel_deleted"@.len() == 15);
    reveal_strlit("channel_rename");
    assert("channel_rename"@.len() == 14);
    reveal_strlit("channel_archive");
    assert("channel_archive"@.len() == 15);
    reveal_strlit("channel_unarchive");
    assert("channel_unarchive"@.len() == 17);
    reveal_strlit("channel_history_changed");
    assert("channel_history_changed"@.len() == 23);
    reveal_strlit("im_created");
    assert("im_created"@.len() == 10);
    reveal_strlit("im_open");
    assert("im_open"@.len() == 7);
    reveal_strlit("im_close");
    assert("im_close"@.len() == 8);
    reveal_strlit("im_marked");
    assert("im_marked"@.len() == 9);
    reveal_strlit("im_history_changed");
    assert("im_history_changed"@.len() == 18);
    reveal_strlit("group_joined");
    assert("group_joined"@.len() == 12);
    reveal_strlit("group_left");
    assert("group_left"@.len() == 10);
    reveal_strlit("group_open");
    assert("group_open"@.len() == 10);
    reveal_strlit("group_close");
    assert("group_close"@.len() == 11);
    reveal_strlit("group_archive");
    assert("group_archive"@.len() == 13);
    reveal_strlit("group_unarchive");
    assert("group_unarchive"@.len() == 15);
    reveal_strlit("group_rename");
    assert("group_rename"@.len() == 12);
    reveal_strlit("group_marked");
    assert("group_marked"@.len() == 12);
    reveal_strlit("group_history_changed");
    assert("group_history_changed"@.len() == 21);
    reveal_strlit("file_created");
    assert("file_created"@.len() == 12);
    reveal_strlit("file_shared");
    assert("file_shared"@.len() == 11);
    reveal_strlit("file_unshared");
    assert("file_unshared"@.len() == 13);
    reveal_strlit("file_public");
    assert("file_public"@.len() == 11);
    reveal_strlit("file_private");
    assert("file_private"@.len() == 12);
    reveal_strlit("file_change");
    assert("file_change"@.len() == 11);
    reveal_strlit("file_deleted");
    assert("file_deleted"@.len() == 12);
    reveal_strlit("file_comment_added");
    assert("file_comment_added"@.len() == 18);
    reveal_strlit("file_comment_edited");
    assert("file_comment_edited"@.len() == 19);
    reveal_strlit("file_comment_deleted");
    assert("file_comment_deleted"@.len() == 20);
    reveal_strlit("pin_added");
    assert("pin_added"@.len() == 9);
    reveal_strlit("pin_removed");
    assert("pin_removed"@.len() == 11);
    reveal_strlit("presence_change");
    assert("presence_change"@.len() == 15);
    reveal_strlit("manual_presence_change");
    assert("manual_presence_change"@.len() == 22);
    reveal_strlit("pref_change");
    assert("pref_change"@.len() == 11);
    reveal_strlit("user_change");
    assert("user_change"@.len() == 11);
    assert("team_join"@[0] == 't' && "im_marked"@[0] == 'i');
    assert("team_join"@[0] == 't' && "pin_added"@[0] == 'p');
    lemma_user_ok_at(fs, "user"@);
    assert(decode_fields_spec(fs) == type_event("team_join"@, fs));
    assert(type_event("team_join"@, fs) == crate::decode::team_join_event(fs));
}

/// A `star_added` frame decodes to `StarAdded` exactly when its fields `user`, `item`, `event_ts`
/// read as the event declares, and then carries what those fields hold.
pub proof fn law_star_added(fs: Seq<FieldView>, user: Seq<char>, item: slack_api::stars::ListResponseItem, event_ts: Seq<char>)
    requires
        types_as(fs, "star_added"@),
    ensures
        decode_fields_spec(fs) == Ok::<EventView, EventErrorView>(EventView::StarAdded { user, item, event_ts })
            <==> text_at(fs, "user"@, user) && star_item_at(fs, "item"@, item) && text_at(fs, "event_ts"@, event_ts),
{
    broadcast use vstd::string::group_string_axioms;
    reveal_strlit("star_added");
    assert("star_added"@.len() == 10);
    reveal_strlit("hello");
    assert("hello"@.len() == 5);
    reveal_strlit("message");
    assert("message"@.len() == 7);
    reveal_strlit("user_typing");
    assert("user_typing"@.len() == 11);
    reveal_strlit("channel_marked");
    assert("channel_marked"@.len() == 14);
    reveal_strlit("channel_created");
    assert("channel_created"@.len() == 15);
    reveal_strlit("channel_joined");
    assert("channel_joined"@.len() == 14);
    reveal_strlit("channel_left");
    assert("channel_left"@.len() == 12);
    reveal_strlit("channel_deleted");
    assert("channel_deleted"@.len() == 15);
    reveal_strlit("channel_rename");
    assert("channel_rename"@.len() == 14);
    reveal_strlit("channel_archive");
    assert("channel_archive"@.len() == 15);
    reveal_strlit("channel_unarchive");
    assert("channel_unarchive"@.len() == 17);
    reveal_strlit("channel_history_changed");
    assert("channel_history_changed"@.len() == 23);
    reveal_strlit("im_created");
    assert("im_created"@.len() == 10);
    reveal_strlit("im_open");
    assert("im_open"@.len() == 7);
    reveal_strlit("im_close");
    assert("im_close"@.len() == 8);
    reveal_strlit("im_marked");
    assert("im_marked"@.len() == 9);
    reveal_strlit("im_history_changed");
    assert("im_history_changed"@.len() == 18);
    reveal_strlit("group_joined");
    assert("group_joined"@.len() == 12);
    reveal_strlit("group_left");
    assert("group_left"@.len() == 10);
    reveal_strlit("group_open");
    assert("group_open"@.len() == 10);
    reveal_strlit("group_close");
    assert("group_close"@.len() == 11);
    reveal_strlit("group_archive");
    assert("group_archive"@.len() == 13);
    reveal_strlit("group_unarchive");
    assert("group_unarchive"@.len() == 15);
    reveal_strlit("group_rename");
    assert("group_rename"@.len() == 12);
    reveal_strlit("group_marked");
    assert("group_marked"@.len() == 12);
    reveal_strlit("group_history_changed");
    assert("group_history_changed"@.len() == 21);
    reveal_strlit("file_created");
    assert("file_created"@.len() == 12);
    reveal_strlit("file_shared");
    assert("file_shared"@.len() == 11);
    reveal_strlit("file_unshared");
    assert("file_unshared"@.len() == 13);
    reveal_strlit("file_public");
    assert("file_public"@.len() == 11);
    reveal_strlit("file_private");
    assert("file_private"@.len() == 12);
    reveal_strlit("file_change");
    assert("file_change"@.len() == 11);
    reveal_strlit("file_deleted");
    assert("file_deleted"@.len() == 12);
    reveal_strlit("file_comment_added");
    assert("file_comment_added"@.len() == 18);
    reveal_strlit("file_comment_edited");
    assert("file_comment_edited"@.len() == 19);
    reveal_strlit("file_comment_deleted");
    assert("file_comment_deleted"@.len() == 20);
    reveal_strlit("pin_added");
    assert("pin_added"@.len() == 9);
    reveal_strlit("pin_removed");
    assert("pin_removed"@.len() == 11);
    reveal_strlit("presence_change");
    assert("presence_change"@.len() == 15);
    reveal_strlit("manual_presence_change");
    assert("manual_presence_change"@.len() == 22);
    reveal_strlit("pref_change");
    assert("pref_change"@.len() == 11);
    reveal_strlit("user_change");
    assert("user_change"@.len() == 11);
    reveal_strlit("team_join");
    assert("team_join"@.len() == 9);
    assert("star_added"@[0] == 's' && "im_created"@[0] == 'i');
    assert("star_added"@[0] == 's' && "group_left"@[0] == 'g');
    assert("star_added"@[0] == 's' && "group_open"@[0] == 'g');
    lemma_text_at(fs, "user"@, user);
    lemma_star_item_at(fs, "item"@, item);
    lemma_text_at(fs, "event_ts"@, event_ts);
    assert(decode_fields_spec(fs) == type_event("star_added"@, fs));
    assert(type_event("star_added"@, fs) == crate::decode::star_added_event(fs));
}

/// A `star_removed` frame decodes to `StarRemoved` exactly when its fields `user`, `item`, `event_ts`
/// read as the event declares, and then carries what those fields hold.
pub proof fn law_star_removed(fs: Seq<FieldView>, user: Seq<char>, item: slack_api::stars::ListResponseItem, event_ts: Seq<char>)
    requires
        types_as(fs, "star_removed"@),
    ensures
        decode_fields_spec(fs) == Ok::<EventView, EventErrorView>(EventView::StarRemoved { user, item, event_ts })
            <==> text_at(fs, "user"@, user) && star_item_at(fs, "item"@, item) && text_at(fs, "event_ts"@, event_ts),
{
    broadcast use vstd::string::group_string_axioms;
    reveal_strlit("star_removed");
    assert("star_removed"@.len() == 12);
    reveal_strlit("hello");
    assert("hello"@.len() == 5);
    reveal_strlit("message");
    assert("message"@.len() == 7);
    reveal_strlit("user_typing");
    assert("user_typing"@.len() == 11);
    reveal_strlit("channel_marked");
    assert("channel_marked"@.len() == 14);
    reveal_strlit("channel_created");
    assert("channel_created"@.len() == 15);
    reveal_strlit("channel_joined");
    assert("channel_joined"@.len() == 14);
    reveal_strlit("channel_left");
    assert("channel_left"@.len() == 12);
    reveal_strlit("channel_deleted");
    assert("channel_deleted"@.len() == 15);
    reveal_strlit("channel_rename");
    assert("channel_rename"@.len() == 14);
    reveal_strlit("channel_archive");
    assert("channel_archive"@.len() == 15);
    reveal_strlit("channel_unarchive");
    assert("channel_unarchive"@.len() == 17);
    reveal_strlit("channel_history_changed");
    assert("channel_history_changed"@.len() == 23);
    reveal_strlit("im_created");
    assert("im_created"@.len() == 10);
    reveal_strlit("im_open");
    assert("im_open"@.len() == 7);
    reveal_strlit("im_close");
    assert("im_close"@.len() == 8);
    reveal_strlit("im_marked");
    assert("im_marked"@.len() == 9);
    reveal_strlit("im_history_changed");
    assert("im_history_changed"@.len() == 18);
    reveal_strlit("group_joined");
    assert("group_joined"@.len() == 12);
    reveal_strlit("group_left");
    assert("group_left"@.len() == 10);
    reveal_strlit("group_open");
    assert("group_open"@.len() == 10);
    reveal_strlit("group_close");
    assert("group_close"@.len() == 11);
    reveal_strlit("group_archive");
    assert("group_archive"@.len() == 13);
    reveal_strlit("group_unarchive");
    assert("group_unarchive"@.len() == 15);
    reveal_strlit("group_rename");
    assert("group_rename"@.len() == 12);
    reveal_strlit("group_marked");
    assert("group_marked"@.len() == 12);
    reveal_strlit("group_history_changed");
    assert("group_history_changed"@.len() == 21);
    reveal_strlit("file_created");
    assert("file_created"@.len() == 12);
    reveal_strlit("file_shared");
    assert("file_shared"@.len() == 11);
    reveal_strlit("file_unshared");
    assert("file_unshared"@.len() == 13);
    reveal_strlit("file_public");
    assert("file_public"@.len() == 11);
    reveal_strlit("file_private");
    assert("file_private"@.len() == 12);
    reveal_strlit("file_change");
    assert("file_change"@.len() == 11);
    reveal_strlit("file_deleted");
    assert("file_deleted"@.len() == 12);
    reveal_strlit("file_comment_added");
    assert("file_comment_added"@.len() == 18);
    reveal_strlit("file_comment_edited");
    assert("file_comment_edited"@.len() == 19);
    reveal_strlit("file_comment_deleted");
    assert("file_comment_deleted"@.len() == 20);
    reveal_strlit("pin_added");
    assert("pin_added"@.len() == 9);
    reveal_strlit("pin_removed");
    assert("pin_removed"@.len() == 11);
    reveal_strlit("presence_change");
    assert("presence_change"@.len() == 15);
    reveal_strlit("manual_presence_change");
    assert("manual_presence_change"@.len() == 22);
    reveal_strlit("pref_change");
    assert("pref_change"@.len() == 11);
    reveal_strlit("user_change");
    assert("user_change"@.len() == 11);
    reveal_strlit("team_join");
    assert("team_join"@.len() == 9);
    reveal_strlit("star_added");
    assert("star_added"@.len() == 10);
    assert("star_removed"@[0] == 's' && "channel_left"@[0] == 'c');
    assert("star_removed"@[0] == 's' && "group_joined"@[0] == 'g');
    assert("star_removed"@[0] == 's' && "group_rename"@[0] == 'g');
    assert("star_removed"@[0] == 's' && "group_marked"@[0] == 'g');
    assert("star_removed"@[0] == 's' && "file_created"@[0] == 'f');
    assert("star_removed"@[0] == 's' && "file_private"@[0] == 'f');
    assert("star_removed"@[0] == 's' && "file_deleted"@[0] == 'f');
    lemma_text_at(fs, "user"@, user);
    lemma_star_item_at(fs, "item"@, item);
    lemma_text_at(fs, "event_ts"@, event_ts);
    assert(decode_fields_spec(fs) == type_event("star_removed"@, fs));
    assert(type_event("star_removed"@, fs) == crate::decode::star_removed_event(fs));
}

/// A `reaction_added` frame decodes to `ReactionAdded` exactly when its fields `user`, `reaction`, `item`, `item_user`, `event_ts`
/// read as the event declares, and then carries what those fields hold.
pub proof fn law_reaction_added(fs: Seq<FieldView>, user: Seq<char>, reaction: Seq<char>, item: slack_api::reactions::ListResponseItem, item_user: Seq<char>, event_ts: Seq<char>)
    requires
        types_as(fs, "reaction_added"@),
    ensures
        decode_fields_spec(fs) == Ok::<EventView, EventErrorView>(EventView::ReactionAdded { user, reaction, item, item_user, event_ts })
            <==> text_at(fs, "user"@, user) && text_at(fs, "reaction"@, reaction) && reaction_item_at(fs, "item"@, item) && text_at(fs, "item_user"@, item_user) && text_at(fs, "event_ts"@, event_ts),
{
    broadcast use vstd::string::group_string_axioms;
    reveal_strlit("reaction_added");
    assert("reaction_added"@.len() == 14);
    reveal_strlit("hello");
    assert("hello"@.len() == 5);
    reveal_strlit("message");
    assert("message"@.len() == 7);
    reveal_strlit("user_typing");
    assert("user_typing"@.len() == 11);
    reveal_strlit("channel_marked");
    assert("channel_marked"@.len() == 14);
    reveal_strlit("channel_created");
    assert("channel_created"@.len() == 15);
    reveal_strlit("channel_joined");
    assert("channel_joined"@.len() == 14);
    reveal_strlit("channel_left");
    assert("channel_left"@.len() == 12);
    reveal_strlit("channel_deleted");
    assert("channel_deleted"@.len() == 15);
    reveal_strlit("channel_rename");
    assert("channel_rename"@.len() == 14);
    reveal_strlit("channel_archive");
    assert("channel_archive"@.len() == 15);
    reveal_strlit("channel_unarchive");
    assert("channel_unarchive"@.len() == 17);
    reveal_strlit("channel_history_changed");
    assert("channel_history_changed"@.len() == 23);
    reveal_strlit("im_created");
    assert("im_created"@.len() == 10);
    reveal_strlit("im_open");
    assert("im_open"@.len() == 7);
    reveal_strlit("im_close");
    assert("im_close"@.len() == 8);
    reveal_strlit("im_marked");
    assert("im_marked"@.len() == 9);
    reveal_strlit("im_history_changed");
    assert("im_history_changed"@.len() == 18);
    reveal_strlit("group_joined");
    assert("group_joined"@.len() == 12);
    reveal_strlit("group_left");
    assert("group_left"@.len() == 10);
    reveal_strlit("group_open");
    assert("group_open"@.len() == 10);
    reveal_strlit("group_close");
    assert("group_close"@.len() == 11);
    reveal_strlit("group_archive");
    assert("group_archive"@.len() == 13);
    reveal_strlit("group_unarchive");
    assert("group_unarchive"@.len() == 15);
    reveal_strlit("group_rename");
    assert("group_rename"@.len() == 12);
    reveal_strlit("group_marked");
    assert("group_marked"@.len() == 12);
    reveal_strlit("group_history_changed");
    assert("group_history_changed"@.len() == 21);
    reveal_strlit("file_created");
    assert("file_created"@.len() == 12);
    reveal_strlit("file_shared");
    assert("file_shared"@.len() == 11);
    reveal_strlit("file_unshared");
    assert("file_unshared"@.len() == 13);
    reveal_strlit("file_public");
    assert("file_public"@.len() == 11);
    reveal_strlit("file_private");
    assert("file_private"@.len() == 12);
    reveal_strlit("file_change");
    assert("file_change"@.len() == 11);
    reveal_strlit("file_deleted");
    assert("file_deleted"@.len() == 12);
    reveal_strlit("file_comment_added");
    assert("file_comment_added"@.len() == 18);
    reveal_strlit("file_comment_edited");
    assert("file_comment_edited"@.len() == 19);
    reveal_strlit("file_comment_deleted");
    assert("file_comment_deleted"@.len() == 20);
    reveal_strlit("pin_added");
    assert("pin_added"@.len() == 9);
    reveal_strlit("pin_removed");
    assert("pin_removed"@.len() == 11);
    reveal_strlit("presence_change");
    assert("presence_change"@.len() == 15);
    reveal_strlit("manual_presence_change");
    assert("manual_presence_change"@.len() == 22);
    reveal_strlit("pref_change");
    assert("pref_change"@.len() == 11);
    reveal_strlit("user_change");
    assert("user_change"@.len() == 11);
    reveal_strlit("team_join");
    assert("team_join"@.len() == 9);
    reveal_strlit("star_added");
    assert("star_added"@.len() == 10);
    reveal_strlit("star_removed");
    assert("star_removed"@.len() == 12);
    assert("reaction_added"@[0] == 'r' && "channel_marked"@[0] == 'c');
    assert("reaction_added"@[0] == 'r' && "channel_joined"@[0] == 'c');
    assert("reaction_added"@[0] == 'r' && "channel_rename"@[0] == 'c');
    lemma_text_at(fs, "user"@, user);
    lemma_text_at(fs, "reaction"@, reaction);
    lemma_reaction_item_at(fs, "item"@, item);
    lemma_text_at(fs, "item_user"@, item_user);
    lemma_text_at(fs, "event_ts"@, event_ts);
    assert(decode_fields_spec(fs) == type_event("reaction_added"@, fs));
    assert(type_event("reaction_added"@, fs) == crate::decode::reaction_added_event(fs));
}

/// A `reaction_removed` frame decodes to `ReactionRemoved` exactly when its fields `user`, `reaction`, `item`, `item_user`, `event_ts`
/// read as the event declares, and then carries what those fields hold.
pub proof fn law_reaction_removed(fs: Seq<FieldView>, user: Seq<char>, reaction: Seq<char>, item: slack_api::reactions::ListResponseItem, item_user: Seq<char>, event_ts: Seq<char>)
    requires
        types_as(fs, "reaction_removed"@),
    ensures
        decode_fields_spec(fs) == Ok::<EventView, EventErrorView>(EventView::ReactionRemoved { user, reaction, item, item_user, event_ts })
            <==> text_at(fs, "user"@, user) && text_at(fs, "reaction"@, reaction) && reaction_item_at(fs, "item"@, item) && text_at(fs, "item_user"@, item_user) && text_at(fs, "event_ts"@, event_ts),
{
    broadcast use vstd::string::group_string_axioms;
    reveal_strlit("reaction_removed");
    assert("reaction_removed"@.len() == 16);
    reveal_strlit("hello");
    assert("hello"@.len() == 5);
    reveal_strlit("message");
    assert("message"@.len() == 7);
    reveal_strlit("user_typing");
    assert("user_typing"@.len() == 11);
    reveal_strlit("channel_marked");
    assert("channel_marked"@.len() == 14);
    reveal_strlit("channel_created");
    assert("channel_created"@.len() == 15);
    reveal_strlit("channel_joined");
    assert("channel_joined"@.len() == 14);
    reveal_strlit("channel_left");
    assert("channel_left"@.len() == 12);
    reveal_strlit("channel_deleted");
    assert("channel_deleted"@.len() == 15);
    reveal_strlit("channel_rename");
    assert("channel_rename"@.len() == 14);
    reveal_strlit("channel_archive");
    assert("channel_archive"@.len() == 15);
    reveal_strlit("channel_unarchive");
    assert("channel_unarchive"@.len() == 17);
    reveal_strlit("channel_history_changed");
    assert("channel_history_changed"@.len() == 23);
    reveal_strlit("im_created");
    assert("im_created"@.len() == 10);
    reveal_strlit("im_open");
    assert("im_open"@.len() == 7);
    reveal_strlit("im_close");
    assert("im_close"@.len() == 8);
    reveal_strlit("im_marked");
    assert("im_marked"@.len() == 9);
    reveal_strlit("im_history_changed");
    assert("im_history_changed"@.len() == 18);
    reveal_strlit("group_joined");
    assert("group_joined"@.len() == 12);
    reveal_strlit("group_left");
    assert("group_left"@.len() == 10);
    reveal_strlit("group_open");
    assert("group_open"@.len() == 10);
    reveal_strlit("group_close");
    assert("group_close"@.len() == 11);
    reveal_strlit("group_archive");
    assert("group_archive"@.len() == 13);
    reveal_strlit("group_unarchive");
    assert("group_unarchive"@.len() == 15);
    reveal_strlit("group_rename");
    assert("group_rename"@.len() == 12);
    reveal_strlit("group_marked");
    assert("group_marked"@.len() == 12);
    reveal_strlit("group_history_changed");
    assert("group_history_changed"@.len() == 21);
    reveal_strlit("file_created");
    assert("file_created"@.len() == 12);
    reveal_strlit("file_shared");
    assert("file_shared"@.len() == 11);
    reveal_strlit("file_unshared");
    assert("file_unshared"@.len() == 13);
    reveal_strlit("file_public");
    assert("file_public"@.len() == 11);
    reveal_strlit("file_private");
    assert("file_private"@.len() == 12);
    reveal_strlit("file_change");
    assert("file_change"@.len() == 11);
    reveal_strlit("file_deleted");
    assert("file_deleted"@.len() == 12);
    reveal_strlit("file_comment_added");
    assert("file_comment_added"@.len() == 18);
    reveal_strlit("file_comment_edited");
    assert("file_comment_edited"@.len() == 19);
    reveal_strlit("file_comment_deleted");
    assert("file_comment_deleted"@.len() == 20);
    reveal_strlit("pin_added");
    assert("pin_added"@.len() == 9);
    reveal_strlit("pin_removed");
    assert("pin_removed"@.len() == 11);
    reveal_strlit("presence_change");
    assert("presence_change"@.len() == 15);
    reveal_strlit("manual_presence_change");
    assert("manual_presence_change"@.len() == 22);
    reveal_strlit("pref_change");
    assert("pref_change"@.len() == 11);
    reveal_strlit("user_change");
    assert("user_change"@.len() == 11);
    reveal_strlit("team_join");
    assert("team_join"@.len() == 9);
    reveal_strlit("star_added");
    assert("star_added"@.len() == 10);
    reveal_strlit("star_removed");
    assert("star_removed"@.len() == 12);
    reveal_strlit("reaction_added");
    assert("reaction_added"@.len() == 14);
    lemma_text_at(fs, "user"@, user);
    lemma_text_at(fs, "reaction"@, reaction);
    lemma_reaction_item_at(fs, "item"@, item);
    lemma_text_at(fs, "item_user"@, item_user);
    lemma_text_at(fs, "event_ts"@, event_ts);
    assert(decode_fields_spec(fs) == type_event("reaction_removed"@, fs));
    assert(type_event("reaction_removed"@, fs) == crate::decode::reaction_removed_event(fs));
}

/// A `emoji_changed` frame decodes to `EmojiChanged` exactly when its fields `event_ts`
/// read as the event declares, and then carries what those fields hold.
pub proof fn law_emoji_changed(fs: Seq<FieldView>, event_ts: Seq<char>)
    requires
        types_as(fs, "emoji_changed"@),
    ensures
        decode_fields_spec(fs) == Ok::<EventView, EventErrorView>(EventView::EmojiChanged { event_ts })
            <==> text_at(fs, "event_ts"@, event_ts),
{
    broadcast use vstd::string::group_string_axioms;
    reveal_strlit("emoji_changed");
    assert("emoji_changed"@.len() == 13);
    reveal_strlit("hello");
    assert("hello"@.len() == 5);
    reveal_strlit("message");
    assert("message"@.len() == 7);
    reveal_strlit("user_typing");
    assert("user_typing"@.len() == 11);
    reveal_strlit("channel_marked");
    assert("channel_marked"@.len() == 14);
    reveal_strlit("channel_created");
    assert("channel_created"@.len() == 15);
    reveal_strlit("channel_joined");
    assert("channel_joined"@.len() == 14);
    reveal_strlit("channel_left");
    assert("channel_left"@.len() == 12);
    reveal_strlit("channel_deleted");
    assert("channel_deleted"@.len() == 15);
    reveal_strlit("channel_rename");
    assert("channel_rename"@.len() == 14);
    reveal_strlit("channel_archive");
    assert("channel_archive"@.len() == 15);
    reveal_strlit("channel_unarchive");
    assert("channel_unarchive"@.len() == 17);
    reveal_strlit("channel_history_changed");
    assert("channel_history_changed"@.len() == 23);
    reveal_strlit("im_created");
    assert("im_created"@.len() == 10);
    reveal_strlit("im_open");
    assert("im_open"@.len() == 7);
    reveal_strlit("im_close");
    assert("im_close"@.len() == 8);
    reveal_strlit("im_marked");
    assert("im_marked"@.len() == 9);
    reveal_strlit("im_history_changed");
    assert("im_history_changed"@.len() == 18);
    reveal_strlit("group_joined");
    assert("group_joined"@.len() == 12);
    reveal_strlit("group_left");
    assert("group_left"@.len() == 10);
    reveal_strlit("group_open");
    assert("group_open"@.len() == 10);
    reveal_strlit("group_close");
    assert("group_close"@.len() == 11);
    reveal_strlit("group_archive");
    assert("group_archive"@.len() == 13);
    reveal_strlit("group_unarchive");
    assert("group_unarchive"@.len() == 15);
    reveal_strlit("group_rename");
    assert("group_rename"@.len() == 12);
    reveal_strlit("group_marked");
    assert("group_marked"@.len() == 12);
    reveal_strlit("group_history_changed");
    assert("group_history_changed"@.len() == 21);
    reveal_strlit("file_created");
    assert("file_created"@.len() == 12);
    reveal_strlit("file_shared");
    assert("file_shared"@.len() == 11);
    reveal_strlit("file_unshared");
    assert("file_unshared"@.len() == 13);
    reveal_strlit("file_public");
    assert("file_public"@.len() == 11);
    reveal_strlit("file_private");
    assert("file_private"@.len() == 12);
    reveal_strlit("file_change");
    assert("file_change"@.len() == 11);
    reveal_strlit("file_deleted");
    assert("file_deleted"@.len() == 12);
    reveal_strlit("file_comment_added");
    assert("file_comment_added"@.len() == 18);
    reveal_strlit("file_comment_edited");
    assert("file_comment_edited"@.len() == 19);
    reveal_strlit("file_comment_deleted");
    assert("file_comment_deleted"@.len() == 20);
    reveal_strlit("pin_added");
    assert("pin_added"@.len() == 9);
    reveal_strlit("pin_removed");
    assert("pin_removed"@.len() == 11);
    reveal_strlit("presence_change");
    assert("presence_change"@.len() == 15);
    reveal_strlit("manual_presence_change");
    assert("manual_presence_change"@.len() == 22);
    reveal_strlit("pref_change");
    assert("pref_change"@.len() == 11);
    reveal_strlit("user_change");
    assert("user_change"@.len() == 11);
    reveal_strlit("team_join");
    assert("team_join"@.len() == 9);
    reveal_strlit("star_added");
    assert("star_added"@.len() == 10);
    reveal_strlit("star_removed");
    assert("star_removed"@.len() == 12);
    reveal_strlit("reaction_added");
    assert("reaction_added"@.len() == 14);
    reveal_strlit("reaction_removed");
    assert("reaction_removed"@.len() == 16);
    assert("emoji_changed"@[0] == 'e' && "group_archive"@[0] == 'g');
    assert("emoji_changed"@[0] == 'e' && "file_unshared"@[0] == 'f');
    lemma_text_at(fs, "event_ts"@, event_ts);
    assert(decode_fields_spec(fs) == type_event("emoji_changed"@, fs));
    assert(type_event("emoji_changed"@, fs) == crate::decode::emoji_changed_event(fs));
}

/// A `commands_changed` frame decodes to `CommandsChanged` exactly when its fields `event_ts`
/// read as the event declares, and then carries what those fields hold.
pub proof fn law_commands_changed(fs: Seq<FieldView>, event_ts: Seq<char>)
    requires
        types_as(fs, "commands_changed"@),
    ensures
        decode_fields_spec(fs) == Ok::<EventView, EventErrorView>(EventView::CommandsChanged { event_ts })
            <==> text_at(fs, "event_ts"@, event_ts),
{
    broadcast use vstd::string::group_string_axioms;
    reveal_strlit("commands_changed");
    assert("commands_changed"@.len() == 16);
    reveal_strlit("hello");
    assert("hello"@.len() == 5);
    reveal_strlit("message");
    assert("message"@.len() == 7);
    reveal_strlit("user_typing");
    assert("user_typing"@.len() == 11);
    reveal_strlit("channel_marked");
    assert("channel_marked"@.len() == 14);
    reveal_strlit("channel_created");
    assert("channel_created"@.len() == 15);
    reveal_strlit("channel_joined");
    assert("channel_joined"@.len() == 14);
    reveal_strlit("channel_left");
    assert("channel_left"@.len() == 12);
    reveal_strlit("channel_deleted");
    assert("channel_deleted"@.len() == 15);
    reveal_strlit("channel_rename");
    assert("channel_rename"@.len() == 14);
    reveal_strlit("channel_archive");
    assert("channel_archive"@.len() == 15);
    reveal_strlit("channel_unarchive");
    assert("channel_unarchive"@.len() == 17);
    reveal_strlit("channel_history_changed");
    assert("channel_history_changed"@.len() == 23);
    reveal_strlit("im_created");
    assert("im_created"@.len() == 10);
    reveal_strlit("im_open");
    assert("im_open"@.len() == 7);
    reveal_strlit("im_close");
    assert("im_close"@.len() == 8);
    reveal_strlit("im_marked");
    assert("im_marked"@.len() == 9);
    reveal_strlit("im_history_changed");
    assert("im_history_changed"@.len() == 18);
    reveal_strlit("group_joined");
    assert("group_joined"@.len() == 12);
    reveal_strlit("group_left");
    assert("group_left"@.len() == 10);
    reveal_strlit("group_open");
    assert("group_open"@.len() == 10);
    reveal_strlit("group_close");
    assert("group_close"@.len() == 11);
    reveal_strlit("group_archive");
    assert("group_archive"@.len() == 13);
    reveal_strlit("group_unarchive");
    assert("group_unarchive"@.len() == 15);
    reveal_strlit("group_rename");
    assert("group_rename"@.len() == 12);
    reveal_strlit("group_marked");
    assert("group_marked"@.len() == 12);
    reveal_strlit("group_history_changed");
    assert("group_history_changed"@.len() == 21);
    reveal_strlit("file_created");
    assert("file_created"@.len() == 12);
    reveal_strlit("file_shared");
    assert("file_shared"@.len() == 11);
    reveal_strlit("file_unshared");
    assert("file_unshared"@.len() == 13);
    reveal_strlit("file_public");
    assert("file_public"@.len() == 11);
    reveal_strlit("file_private");
    assert("file_private"@.len() == 12);
    reveal_strlit("file_change");
    assert("file_change"@.len() == 11);
    reveal_strlit("file_deleted");
    assert("file_deleted"@.len() == 12);
    reveal_strlit("file_comment_added");
    assert("file_comment_added"@.len() == 18);
    reveal_strlit("file_comment_edited");
    assert("file_comment_edited"@.len() == 19);
    reveal_strlit("file_comment_deleted");
    assert("file_comment_deleted"@.len() == 20);
    reveal_strlit("pin_added");
    assert("pin_added"@.len() == 9);
    reveal_strlit("pin_removed");
    assert("pin_removed"@.len() == 11);
    reveal_strlit("presence_change");
    assert("presence_change"@.len() == 15);
    reveal_strlit("manual_presence_change");
    assert("manual_presence_change"@.len() == 22);
    reveal_strlit("pref_change");
    assert("pref_change"@.len() == 11);
    reveal_strlit("user_change");
    assert("user_change"@.len() == 11);
    reveal_strlit("team_join");
    assert("team_join"@.len() == 9);
    reveal_strlit("star_added");
    assert("star_added"@.len() == 10);
    reveal_strlit("star_removed");
    assert("star_removed"@.len() == 12);
    reveal_strlit("reaction_added");
    assert("reaction_added"@.len() == 14);
    reveal_strlit("reaction_removed");
    assert("reaction_removed"@.len() == 16);
    reveal_strlit("emoji_changed");
    assert("emoji_changed"@.len() == 13);
    assert("commands_changed"@[0] == 'c' && "reaction_removed"@[0] == 'r');
    lemma_text_at(fs, "event_ts"@, event_ts);
    assert(decode_fields_spec(fs) == type_event("commands_changed"@, fs));
    assert(type_event("commands_changed"@, fs) == crate::decode::commands_changed_event(fs));
}

/// A `team_plan_change` frame decodes to `TeamPlanChange` exactly when its fields `plan`
/// read as the event declares, and then carries what those fields hold.
pub proof fn law_team_plan_change(fs: Seq<FieldView>, plan: Seq<char>)
    requires
        types_as(fs, "team_plan_change"@),
    ensures
        decode_fields_spec(fs) == Ok::<EventView, EventErrorView>(EventView::TeamPlanChange { plan })
            <==> text_at(fs, "plan"@, plan),
{
    broadcast use vstd::string::group_string_axioms;
    reveal_strlit("team_plan_change");
    assert("team_plan_change"@.len() == 16);
    reveal_strlit("hello");
    assert("hello"@.len() == 5);
    reveal_strlit("message");
    assert("message"@.len() == 7);
    reveal_strlit("user_typing");
    assert("user_typing"@.len() == 11);
    reveal_strlit("channel_marked");
    assert("channel_marked"@.len() == 14);
    reveal_strlit("channel_created");
    assert("channel_created"@.len() == 15);
    reveal_strlit("channel_joined");
    assert("channel_joined"@.len() == 14);
    reveal_strlit("channel_left");
    assert("channel_left"@.len() == 12);
    reveal_strlit("channel_deleted");
    assert("channel_deleted"@.len() == 15);
    reveal_strlit("channel_rename");
    assert("channel_rename"@.len() == 14);
    reveal_strlit("channel_archive");
    assert("channel_archive"@.len() == 15);
    reveal_strlit("channel_unarchive");
    assert("channel_unarchive"@.len() == 17);
    reveal_strlit("channel_history_changed");
    assert("channel_history_changed"@.len() == 23);
    reveal_strlit("im_created");
    assert("im_created"@.len() == 10);
    reveal_strlit("im_open");
    assert("im_open"@.len() == 7);
    reveal_strlit("im_close");
    assert("im_close"@.len() == 8);
    reveal_strlit("im_marked");
    assert("im_marked"@.len() == 9);
    reveal_strlit("im_history_changed");
    assert("im_history_changed"@.len() == 18);
    reveal_strlit("group_joined");
    assert("group_joined"@.len() == 12);
    reveal_strlit("group_left");
    assert("group_left"@.len() == 10);
    reveal_strlit("group_open");
    assert("group_open"@.len() == 10);
    reveal_strlit("group_close");
    assert("group_close"@.len() == 11);
    reveal_strlit("group_archive");
    assert("group_archive"@.len() == 13);
    reveal_strlit("group_unarchive");
    assert("group_unarchive"@.len() == 15);
    reveal_strlit("group_rename");
    assert("group_rename"@.len() == 12);
    reveal_strlit("group_marked");
    assert("group_marked"@.len() == 12);
    reveal_strlit("group_history_changed");
    assert("group_history_changed"@.len() == 21);
    reveal_strlit("file_created");
    assert("file_created"@.len() == 12);
    reveal_strlit("file_shared");
    assert("file_shared"@.len() == 11);
    reveal_strlit("file_unshared");
    assert("file_unshared"@.len() == 13);
    reveal_strlit("file_public");
    assert("file_public"@.len() == 11);
    reveal_strlit("file_private");
    assert("file_private"@.len() == 12);
    reveal_strlit("file_change");
    assert("file_change"@.len() == 11);
    reveal_strlit("file_deleted");
    assert("file_deleted"@.len() == 12);
    reveal_strlit("file_comment_added");
    assert("file_comment_added"@.len() == 18);
    reveal_strlit("file_comment_edited");
    assert("file_comment_edited"@.len() == 19);
    reveal_strlit("file_comment_deleted");
    assert("file_comment_deleted"@.len() == 20);
    reveal_strlit("pin_added");
    assert("pin_added"@.len() == 9);
    reveal_strlit("pin_removed");
    assert("pin_removed"@.len() == 11);
    reveal_strlit("presence_change");
    assert("presence_change"@.len() == 15);
    reveal_strlit("manual_presence_change");
    assert("manual_presence_change"@.len() == 22);
    reveal_strlit("pref_change");
    assert("pref_change"@.len() == 11);
    reveal_strlit("user_change");
    assert("user_change"@.len() == 11);
    reveal_strlit("team_join");
    assert("team_join"@.len() == 9);
    reveal_strlit("star_added");
    assert("star_added"@.len() == 10);
    reveal_strlit("star_removed");
    assert("star_removed"@.len() == 12);
    reveal_strlit("reaction_added");
    assert("reaction_added"@.len() == 14);
    reveal_strlit("reaction_removed");
    assert("reaction_removed"@.len() == 16);
    reveal_strlit("emoji_changed");
    assert("emoji_changed"@.len() == 13);
    reveal_strlit("commands_changed");
    assert("commands_changed"@.len() == 16);
    assert("team_plan_change"@[0] == 't' && "reaction_removed"@[0] == 'r');
    assert("team_plan_change"@[0] == 't' && "commands_changed"@[0] == 'c');
    lemma_text_at(fs, "plan"@, plan);
    assert(decode_fields_spec(fs) == type_event("team_plan_change"@, fs));
    assert(type_event("team_plan_change"@, fs) == crate::decode::team_plan_change_event(fs));
}

/// A `team_pref_change` frame decodes to `TeamPrefChange` exactly when its fields `name`, `value`
/// read as the event declares, and then carries what those fields hold.
pub proof fn law_team_pref_change(fs: Seq<FieldView>, name: Seq<char>, value: bool)
    requires
        types_as(fs, "team_pref_change"@),
    ensures
        decode_fields_spec(fs) == Ok::<EventView, EventErrorView>(EventView::TeamPrefChange { name, value })
            <==> text_at(fs, "name"@, name) && bool_at(fs, "value"@, value),
{
    broadcast use vstd::string::group_string_axioms;
    reveal_strlit("team_pref_change");
    assert("team_pref_change"@.len() == 16);
    reveal_strlit("hello");
    assert("hello"@.len() == 5);
    reveal_strlit("message");
    assert("message"@.len() == 7);
    reveal_strlit("user_typing");
    assert("user_typing"@.len() == 11);
    reveal_strlit("channel_marked");
    assert("channel_marked"@.len() == 14);
    reveal_strlit("channel_created");
    assert("channel_created"@.len() == 15);
    reveal_strlit("channel_joined");
    assert("channel_joined"@.len() == 14);
    reveal_strlit("channel_left");
    assert("channel_left"@.len() == 12);
    reveal_strlit("channel_deleted");
    assert("channel_deleted"@.len() == 15);
    reveal_strlit("channel_rename");
    assert("channel_rename"@.len() == 14);
    reveal_strlit("channel_archive");
    assert("channel_archive"@.len() == 15);
    reveal_strlit("channel_unarchive");
    assert("channel_unarchive"@.len() == 17);
    reveal_strlit("channel_history_changed");
    assert("channel_history_changed"@.len() == 23);
    reveal_strlit("im_created");
    assert("im_created"@.len() == 10);
    reveal_strlit("im_open");
    assert("im_open"@.len() == 7);
    reveal_strlit("im_close");
    assert("im_close"@.len() == 8);
    reveal_strlit("im_marked");
    assert("im_marked"@.len() == 9);
    reveal_strlit("im_history_changed");
    assert("im_history_changed"@.len() == 18);
    reveal_strlit("group_joined");
    assert("group_joined"@.len() == 12);
    reveal_strlit("group_left");
    assert("group_left"@.len() == 10);
    reveal_strlit("group_open");
    assert("group_open"@.len() == 10);
    reveal_strlit("group_close");
    assert("group_close"@.len() == 11);
    reveal_strlit("group_archive");
    assert("group_archive"@.len() == 13);
    reveal_strlit("group_unarchive");
    assert("group_unarchive"@.len() == 15);
    reveal_strlit("group_rename");
    assert("group_rename"@.len() == 12);
    reveal_strlit("group_marked");
    assert("group_marked"@.len() == 12);
    reveal_strlit("group_history_changed");
    assert("group_history_changed"@.len() == 21);
    reveal_strlit("file_created");
    assert("file_created"@.len() == 12);
    reveal_strlit("file_shared");
    assert("file_shared"@.len() == 11);
    reveal_strlit("file_unshared");
    assert("file_unshared"@.len() == 13);
    reveal_strlit("file_public");
    assert("file_public"@.len() == 11);
    reveal_strlit("file_private");
    assert("file_private"@.len() == 12);
    reveal_strlit("file_change");
    assert("file_change"@.len() == 11);
    reveal_strlit("file_deleted");
    assert("file_deleted"@.len() == 12);
    reveal_strlit("file_comment_added");
    assert("file_comment_added"@.len() == 18);
    reveal_strlit("file_comment_edited");
    assert("file_comment_edited"@.len() == 19);
    reveal_strlit("file_comment_deleted");
    assert("file_comment_deleted"@.len() == 20);
    reveal_strlit("pin_added");
    assert("pin_added"@.len() == 9);
    reveal_strlit("pin_removed");
    assert("pin_removed"@.len() == 11);
    reveal_strlit("presence_change");
    assert("presence_change"@.len() == 15);
    reveal_strlit("manual_presence_change");
    assert("manual_presence_change"@.len() == 22);
    reveal_strlit("pref_change");
    assert("pref_change"@.len() == 11);
    reveal_strlit("user_change");
    assert("user_change"@.len() == 11);
    reveal_strlit("team_join");
    assert("team_join"@.len() == 9);
    reveal_strlit("star_added");
    assert("star_added"@.len() == 10);
    reveal_strlit("star_removed");
    assert("star_removed"@.len() == 12);
    reveal_strlit("reaction_added");
    assert("reaction_added"@.len() == 14);
    reveal_strlit("reaction_removed");
    assert("reaction_removed"@.len() == 16);
    reveal_strlit("emoji_changed");
    assert("emoji_changed"@.len() == 13);
    reveal_strlit("commands_changed");
    assert("commands_changed"@.len() == 16);
    reveal_strlit("team_plan_change");
    assert("team_plan_change"@.len() == 16);
    assert("team_pref_change"@[0] == 't' && "reaction_removed"@[0] == 'r');
    assert("team_pref_change"@[0] == 't' && "commands_changed"@[0] == 'c');
    assert("team_pref_change"@[6] == 'r' && "team_plan_change"@[6] == 'l');
    lemma_text_at(fs, "name"@, name);
    lemma_bool_at(fs, "value"@, value);
    assert(decode_fields_spec(fs) == type_event("team_pref_change"@, fs));
    assert(type_event("team_pref_change"@, fs) == crate::decode::team_pref_change_event(fs));
}

/// A `team_rename` frame decodes to `TeamRename` exactly when its fields `name`
/// read as the event declares, and then carries what those fields hold.
pub proof fn law_team_rename(fs: Seq<FieldView>, name: Seq<char>)
    requires
        types_as(fs, "team_rename"@),
    ensures
        decode_fields_spec(fs) == Ok::<EventView, EventErrorView>(EventView::TeamRename { name })
            <==> text_at(fs, "name"@, name),
{
    broadcast use vstd::string::group_string_axioms;
    reveal_strlit("team_rename");
    assert("team_rename"@.len() == 11);
    reveal_strlit("hello");
    assert("hello"@.len() == 5);
    reveal_strlit("message");
    assert("message"@.len() == 7);
    reveal_strlit("user_typing");
    assert("user_typing"@.len() == 11);
    reveal_strlit("channel_marked");
    assert("channel_marked"@.len() == 14);
    reveal_strlit("channel_created");
    assert("channel_created"@.len() == 15);
    reveal_strlit("channel_joined");
    assert("channel_joined"@.len() == 14);
    reveal_strlit("channel_left");
    assert("channel_left"@.len() == 12);
    reveal_strlit("channel_deleted");
    assert("channel_deleted"@.len() == 15);
    reveal_strlit("channel_rename");
    assert("channel_rename"@.len() == 14);
    reveal_strlit("channel_archive");
    assert("channel_archive"@.len() == 15);
    reveal_strlit("channel_unarchive");
    assert("channel_unarchive"@.len() == 17);
    reveal_strlit("channel_history_changed");
    assert("channel_history_changed"@.len() == 23);
    reveal_strlit("im_created");
    assert("im_created"@.len() == 10);
    reveal_strlit("im_open");
    assert("im_open"@.len() == 7);
    reveal_strlit("im_close");
    assert("im_close"@.len() == 8);
    reveal_strlit("im_marked");
    assert("im_marked"@.len() == 9);
    reveal_strlit("im_history_changed");
    assert("im_history_changed"@.len() == 18);
    reveal_strlit("group_joined");
    assert("group_joined"@.len() == 12);
    reveal_strlit("group_left");
    assert("group_left"@.len() == 10);
    reveal_strlit("group_open");
    assert("group_open"@.len() == 10);
    reveal_strlit("group_close");
    assert("group_close"@.len() == 11);
    reveal_strlit("group_archive");
    assert("group_archive"@.len() == 13);
    reveal_strlit("group_unarchive");
    assert("group_unarchive"@.len() == 15);
    reveal_strlit("group_rename");
    assert("group_rename"@.len() == 12);
    reveal_strlit("group_marked");
    assert("group_marked"@.len() == 12);
    reveal_strlit("group_history_changed");
    assert("group_history_changed"@.len() == 21);
    reveal_strlit("file_created");
    assert("file_created"@.len() == 12);
    reveal_strlit("file_shared");
    assert("file_shared"@.len() == 11);
    reveal_strlit("file_unshared");
    assert("file_unshared"@.len() == 13);
    reveal_strlit("file_public");
    assert("file_public"@.len() == 11);
    reveal_strlit("file_private");
    assert("file_private"@.len() == 12);
    reveal_strlit("file_change");
    assert("file_change"@.len() == 11);
    reveal_strlit("file_deleted");
    assert("file_deleted"@.len() == 12);
    reveal_strlit("file_comment_added");
    assert("file_comment_added"@.len() == 18);
    reveal_strlit("file_comment_edited");
    assert("file_comment_edited"@.len() == 19);
    reveal_strlit("file_comment_deleted");
    assert("file_comment_deleted"@.len() == 20);
    reveal_strlit("pin_added");
    assert("pin_added"@.len() == 9);
    reveal_strlit("pin_removed");
    assert("pin_removed"@.len() == 11);
    reveal_strlit("presence_change");
    assert("presence_change"@.len() == 15);
    reveal_strlit("manual_presence_change");
    assert("manual_presence_change"@.len() == 22);
    reveal_strlit("pref_change");
    assert("pref_change"@.len() == 11);
    reveal_strlit("user_change");
    assert("user_change"@.len() == 11);
    reveal_strlit("team_join");
    assert("team_join"@.len() == 9);
    reveal_strlit("star_added");
    assert("star_added"@.len() == 10);
    reveal_strlit("star_removed");
    assert("star_removed"@.len() == 12);
    reveal_strlit("reaction_added");
    assert("reaction_added"@.len() == 14);
    reveal_strlit("reaction_removed");
    assert("reaction_removed"@.len() == 16);
    reveal_strlit("emoji_changed");
    assert("emoji_changed"@.len() == 13);
    reveal_strlit("commands_changed");
    assert("commands_changed"@.len() == 16);
    reveal_strlit("team_plan_change");
    assert("team_plan_change"@.len() == 16);
    reveal_strlit("team_pref_change");
    assert("team_pref_change"@.len() == 16);
    assert("team_rename"@[0] == 't' && "user_typing"@[0] == 'u');
    assert("team_rename"@[0] == 't' && "group_close"@[0] == 'g');
    assert("team_rename"@[0] == 't' && "file_shared"@[0] == 'f');
    assert("team_rename"@[0] == 't' && "file_public"@[0] == 'f');
    assert("team_rename"@[0] == 't' && "file_change"@[0] == 'f');
    assert("team_rename"@[0] == 't' && "pin_removed"@[0] == 'p');
    assert("team_rename"@[0] == 't' && "pref_change"@[0] == 'p');
    assert("team_rename"@[0] == 't' && "user_change"@[0] == 'u');
    lemma_text_at(fs, "name"@, name);
    assert(decode_fields_spec(fs) == type_event("team_rename"@, fs));
    assert(type_event("team_rename"@, fs) == crate::decode::team_rename_event(fs));
}

/// A `team_domain_change` frame decodes to `TeamDomainChange` exactly when its fields `url`, `domain`
/// read as the event declares, and then carries what those fields hold.
pub proof fn law_team_domain_change(fs: Seq<FieldView>, url: Seq<char>, domain: Seq<char>)
    requires
        types_as(fs, "team_domain_change"@),
    ensures
        decode_fields_spec(fs) == Ok::<EventView, EventErrorView>(EventView::TeamDomainChange { url, domain })
            <==> text_at(fs, "url"@, url) && text_at(fs, "domain"@, domain),
{
    broadcast use vstd::string::group_string_axioms;
    reveal_strlit("team_domain_change");
    assert("team_domain_change"@.len() == 18);
    reveal_strlit("hello");
    assert("hello"@.len() == 5);
    reveal_strlit("message");
    assert("message"@.len() == 7);
    reveal_strlit("user_typing");
    assert("user_typing"@.len() == 11);
    reveal_strlit("channel_marked");
    assert("channel_marked"@.len() == 14);
    reveal_strlit("channel_created");
    assert("channel_created"@.len() == 15);
    reveal_strlit("channel_joined");
    assert("channel_joined"@.len() == 14);
    reveal_strlit("channel_left");
    assert("channel_left"@.len() == 12);
    reveal_strlit("channel_deleted");
    assert("channel_deleted"@.len() == 15);
    reveal_strlit("channel_rename");
    assert("channel_rename"@.len() == 14);
    reveal_strlit("channel_archive");
    assert("channel_archive"@.len() == 15);
    reveal_strlit("channel_unarchive");
    assert("channel_unarchive"@.len() == 17);
    reveal_strlit("channel_history_changed");
    assert("channel_history_changed"@.len() == 23);
    reveal_strlit("im_created");
    assert("im_created"@.len() == 10);
    reveal_strlit("im_open");
    assert("im_open"@.len() == 7);
    reveal_strlit("im_close");
    assert("im_close"@.len() == 8);
    reveal_strlit("im_marked");
    assert("im_marked"@.len() == 9);
    reveal_strlit("im_history_changed");
    assert("im_history_changed"@.len() == 18);
    reveal_strlit("group_joined");
    assert("group_joined"@.len() == 12);
    reveal_strlit("group_left");
    assert("group_left"@.len() == 10);
    reveal_strlit("group_open");
    assert("group_open"@.len() == 10);
    reveal_strlit("group_close");
    assert("group_close"@.len() == 11);
    reveal_strlit("group_archive");
    assert("group_archive"@.len() == 13);
    reveal_strlit("group_unarchive");
    assert("group_unarchive"@.len() == 15);
    reveal_strlit("group_rename");
    assert("group_rename"@.len() == 12);
    reveal_strlit("group_marked");
    assert("group_marked"@.len() == 12);
    reveal_strlit("group_history_changed");
    assert("group_history_changed"@.len() == 21);
    reveal_strlit("file_created");
    assert("file_created"@.len() == 12);
    reveal_strlit("file_shared");
    assert("file_shared"@.len() == 11);
    reveal_strlit("file_unshared");
    assert("file_unshared"@.len() == 13);
    reveal_strlit("file_public");
    assert("file_public"@.len() == 11);
    reveal_strlit("file_private");
    assert("file_private"@.len() == 12);
    reveal_strlit("file_change");
    assert("file_change"@.len() == 11);
    reveal_strlit("file_deleted");
    assert("file_deleted"@.len() == 12);
    reveal_strlit("file_comment_added");
    assert("file_comment_added"@.len() == 18);
    reveal_strlit("file_comment_edited");
    assert("file_comment_edited"@.len() == 19);
    reveal_strlit("file_comment_deleted");
    assert("file_comment_deleted"@.len() == 20);
    reveal_strlit("pin_added");
    assert("pin_added"@.len() == 9);
    reveal_strlit("pin_removed");
    assert("pin_removed"@.len() == 11);
    reveal_strlit("presence_change");
    assert("presence_change"@.len() == 15);
    reveal_strlit("manual_presence_change");
    assert("manual_presence_change"@.len() == 22);
    reveal_strlit("pref_change");
    assert("pref_change"@.len() == 11);
    reveal_strlit("user_change");
    assert("user_change"@.len() == 11);
    reveal_strlit("team_join");
    assert("team_join"@.len() == 9);
    reveal_strlit("star_added");
    assert("star_added"@.len() == 10);
    reveal_strlit("star_removed");
    assert("star_removed"@.len() == 12);
    reveal_strlit("reaction_added");
    assert("reaction_added"@.len() == 14);
    reveal_strlit("reaction_removed");
    assert("reaction_removed"@.len() == 16);
    reveal_strlit("emoji_changed");
    assert("emoji_changed"@.len() == 13);
    reveal_strlit("commands_changed");
    assert("commands_changed"@.len() == 16);
    reveal_strlit("team_plan_change");
    assert("team_plan_change"@.len() == 16);
    reveal_strlit("team_pref_change");
    assert("team_pref_change"@.len() == 16);
    reveal_strlit("team_rename");
    assert("team_rename"@.len() == 11);
    assert("team_domain_change"@[0] == 't' && "im_history_changed"@[0] == 'i');
    assert("team_domain_change"@[0] == 't' && "file_comment_added"@[0] == 'f');
    lemma_text_at(fs, "url"@, url);
    lemma_text_at(fs, "domain"@, domain);
    assert(decode_fields_spec(fs) == type_event("team_domain_change"@, fs));
    assert(type_event("team_domain_change"@, fs) == crate::decode::team_domain_change_event(fs));
}

/// A `email_domain_changeed` frame decodes to `EmailDomainChanged` exactly when its fields `email_domain`, `event_ts`
/// read as the event declares, and then carries what those fields hold.
pub proof fn law_email_domain_changeed(fs: Seq<FieldView>, email_domain: Seq<char>, event_ts: Seq<char>)
    requires
        types_as(fs, "email_domain_changeed"@),
    ensures
        decode_fields_spec(fs) == Ok::<EventView, EventErrorView>(EventView::EmailDomainChanged { email_domain, event_ts })
            <==> text_at(fs, "email_domain"@, email_domain) && text_at(fs, "event_ts"@, event_ts),
{
    broadcast use vstd::string::group_string_axioms;
    reveal_strlit("email_domain_changeed");
    assert("email_domain_changeed"@.len() == 21);
    reveal_strlit("hello");
    assert("hello"@.len() == 5);
    reveal_strlit("message");
    assert("message"@.len() == 7);
    reveal_strlit("user_typing");
    assert("user_typing"@.len() == 11);
    reveal_strlit("channel_marked");
    assert("channel_marked"@.len() == 14);
    reveal_strlit("channel_created");
    assert("channel_created"@.len() == 15);
    reveal_strlit("channel_joined");
    assert("channel_joined"@.len() == 14);
    reveal_strlit("channel_left");
    assert("channel_left"@.len() == 12);
    reveal_strlit("channel_deleted");
    assert("channel_deleted"@.len() == 15);
    reveal_strlit("channel_rename");
    assert("channel_rename"@.len() == 14);
    reveal_strlit("channel_archive");
    assert("channel_archive"@.len() == 15);
    reveal_strlit("channel_unarchive");
    assert("channel_unarchive"@.len() == 17);
    reveal_strlit("channel_history_changed");
    assert("channel_history_changed"@.len() == 23);
    reveal_strlit("im_created");
    assert("im_created"@.len() == 10);
    reveal_strlit("im_open");
    assert("im_open"@.len() == 7);
    reveal_strlit("im_close");
    assert("im_close"@.len() == 8);
    reveal_strlit("im_marked");
    assert("im_marked"@.len() == 9);
    reveal_strlit("im_history_changed");
    assert("im_history_changed"@.len() == 18);
    reveal_strlit("group_joined");
    assert("group_joined"@.len() == 12);
    reveal_strlit("group_left");
    assert("group_left"@.len() == 10);
    reveal_strlit("group_open");
    assert("group_open"@.len() == 10);
    reveal_strlit("group_close");
    assert("group_close"@.len() == 11);
    reveal_strlit("group_archive");
    assert("group_archive"@.len() == 13);
    reveal_strlit("group_unarchive");
    assert("group_unarchive"@.len() == 15);
    reveal_strlit("group_rename");
    assert("group_rename"@.len() == 12);
    reveal_strlit("group_marked");
    assert("group_marked"@.len() == 12);
    reveal_strlit("group_history_changed");
    assert("group_history_changed"@.len() == 21);
    reveal_strlit("file_created");
    assert("file_created"@.len() == 12);
    reveal_strlit("file_shared");
    assert("file_shared"@.len() == 11);
    reveal_strlit("file_unshared");
    assert("file_unshared"@.len() == 13);
    reveal_strlit("file_public");
    assert("file_public"@.len() == 11);
    reveal_strlit("file_private");
    assert("file_private"@.len() == 12);
    reveal_strlit("file_change");
    assert("file_change"@.len() == 11);
    reveal_strlit("file_deleted");
    assert("file_deleted"@.len() == 12);
    reveal_strlit("file_comment_added");
    assert("file_comment_added"@.len() == 18);
    reveal_strlit("file_comment_edited");
    assert("file_comment_edited"@.len() == 19);
    reveal_strlit("file_comment_deleted");
    assert("file_comment_deleted"@.len() == 20);
    reveal_strlit("pin_added");
    assert("pin_added"@.len() == 9);
    reveal_strlit("pin_removed");
    assert("pin_removed"@.len() == 11);
    reveal_strlit("presence_change");
    assert("presence_change"@.len() == 15);
    reveal_strlit("manual_presence_change");
    assert("manual_presence_change"@.len() == 22);
    reveal_strlit("pref_change");
    assert("pref_change"@.len() == 11);
    reveal_strlit("user_change");
    assert("user_change"@.len() == 11);
    reveal_strlit("team_join");
    assert("team_join"@.len() == 9);
    reveal_strlit("star_added");
    assert("star_added"@.len() == 10);
    reveal_strlit("star_removed");
    assert("star_removed"@.len() == 12);
    reveal_strlit("reaction_added");
    assert("reaction_added"@.len() == 14);
    reveal_strlit("reaction_removed");
    assert("reaction_removed"@.len() == 16);
    reveal_strlit("emoji_changed");
    assert("emoji_changed"@.len() == 13);
    reveal_strlit("commands_changed");
    assert("commands_changed"@.len() == 16);
    reveal_strlit("team_plan_change");
    assert("team_plan_change"@.len() == 16);
    reveal_strlit("team_pref_change");
    assert("team_pref_change"@.len() == 16);
    reveal_strlit("team_rename");
    assert("team_rename"@.len() == 11);
    reveal_strlit("team_domain_change");
    assert("team_domain_change"@.len() == 18);
    assert("email_domain_changeed"@[0] == 'e' && "group_history_changed"@[0] == 'g');
    lemma_text_at(fs, "email_domain"@, email_domain);
    lemma_text_at(fs, "event_ts"@, event_ts);
    assert(decode_fields_spec(fs) == type_event("email_domain_changeed"@, fs));
    assert(type_event("email_domain_changeed"@, fs) == crate::decode::email_domain_changed_event(fs));
}

/// A `email_domain_changed` frame decodes to `EmailDomainChanged` exactly when its fields `email_domain`, `event_ts`
/// read as the event declares, and then carries what those fields hold.
pub proof fn law_email_domain_changed(fs: Seq<FieldView>, email_domain: Seq<char>, event_ts: Seq<char>)
    requires
        types_as(fs, "email_domain_changed"@),
    ensures
        decode_fields_spec(fs) == Ok::<EventView, EventErrorView>(EventView::EmailDomainChanged { email_domain, event_ts })
            <==> text_at(fs, "email_domain"@, email_domain) && text_at(fs, "event_ts"@, event_ts),
{
    broadcast use vstd::string::group_string_axioms;
    reveal_strlit("email_domain_changed");
    assert("email_domain_changed"@.len() == 20);
    reveal_strlit("hello");
    assert("hello"@.len() == 5);
    reveal_strlit("message");
    assert("message"@.len() == 7);
    reveal_strlit("user_typing");
    assert("user_typing"@.len() == 11);
    reveal_strlit("channel_marked");
    assert("channel_marked"@.len() == 14);
    reveal_strlit("channel_created");
    assert("channel_created"@.len() == 15);
    reveal_strlit("channel_joined");
    assert("channel_joined"@.len() == 14);
    reveal_strlit("channel_left");
    assert("channel_left"@.len() == 12);
    reveal_strlit("channel_deleted");
    assert("channel_deleted"@.len() == 15);
    reveal_strlit("channel_rename");
    assert("channel_rename"@.len() == 14);
    reveal_strlit("channel_archive");
    assert("channel_archive"@.len() == 15);
    reveal_strlit("channel_unarchive");
    assert("channel_unarchive"@.len() == 17);
    reveal_strlit("channel_history_changed");
    assert("channel_history_changed"@.len() == 23);
    reveal_strlit("im_created");
    assert("im_created"@.len() == 10);
    reveal_strlit("im_open");
    assert("im_open"@.len() == 7);
    reveal_strlit("im_close");
    assert("im_close"@.len() == 8);
    reveal_strlit("im_marked");
    assert("im_marked"@.len() == 9);
    reveal_strlit("im_history_changed");
    assert("im_history_changed"@.len() == 18);
    reveal_strlit("group_joined");
    assert("group_joined"@.len() == 12);
    reveal_strlit("group_left");
    assert("group_left"@.len() == 10);
    reveal_strlit("group_open");
    assert("group_open"@.len() == 10);
    reveal_strlit("group_close");
    assert("group_close"@.len() == 11);
    reveal_strlit("group_archive");
    assert("group_archive"@.len() == 13);
    reveal_strlit("group_unarchive");
    assert("group_unarchive"@.len() == 15);
    reveal_strlit("group_rename");
    assert("group_rename"@.len() == 12);
    reveal_strlit("group_marked");
    assert("group_marked"@.len() == 12);
    reveal_strlit("group_history_changed");
    assert("group_history_changed"@.len() == 21);
    reveal_strlit("file_created");
    assert("file_created"@.len() == 12);
    reveal_strlit("file_shared");
    assert("file_shared"@.len() == 11);
    reveal_strlit("file_unshared");
    assert("file_unshared"@.len() == 13);
    reveal_strlit("file_public");
    assert("file_public"@.len() == 11);
    reveal_strlit("file_private");
    assert("file_private"@.len() == 12);
    reveal_strlit("file_change");
    assert("file_change"@.len() == 11);
    reveal_strlit("file_deleted");
    assert("file_deleted"@.len() == 12);
    reveal_strlit("file_comment_added");
    assert("file_comment_added"@.len() == 18);
    reveal_strlit("file_comment_edited");
    assert("file_comment_edited"@.len() == 19);
    reveal_strlit("file_comment_deleted");
    assert("file_comment_deleted"@.len() == 20);
    reveal_strlit("pin_added");
    assert("pin_added"@.len() == 9);
    reveal_strlit("pin_removed");
    assert("pin_removed"@.len() == 11);
    reveal_strlit("presence_change");
    assert("presence_change"@.len() == 15);
    reveal_strlit("manual_presence_change");
    assert("manual_presence_change"@.len() == 22);
    reveal_strlit("pref_change");
    assert("pref_change"@.len() == 11);
    reveal_strlit("user_change");
    assert("user_change"@.len() == 11);
    reveal_strlit("team_join");
    assert("team_join"@.len() == 9);
    reveal_strlit("star_added");
    assert("star_added"@.len() == 10);
    reveal_strlit("star_removed");
    assert("star_removed"@.len() == 12);
    reveal_strlit("reaction_added");
    assert("reaction_added"@.len() == 14);
    reveal_strlit("reaction_removed");
    assert("reaction_removed"@.len() == 16);
    reveal_strlit("emoji_changed");
    assert("emoji_changed"@.len() == 13);
    reveal_strlit("commands_changed");
    assert("commands_changed"@.len() == 16);
    reveal_strlit("team_plan_change");
    assert("team_plan_change"@.len() == 16);
    reveal_strlit("team_pref_change");
    assert("team_pref_change"@.len() == 16);
    reveal_strlit("team_rename");
    assert("team_rename"@.len() == 11);
    reveal_strlit("team_domain_change");
    assert("team_domain_change"@.len() == 18);
    reveal_strlit("email_domain_changeed");
    assert("email_domain_changeed"@.len() == 21);
    assert("email_domain_changed"@[0] == 'e' && "file_comment_deleted"@[0] == 'f');
    lemma_text_at(fs, "email_domain"@, email_domain);
    lemma_text_at(fs, "event_ts"@, event_ts);
    assert(decode_fields_spec(fs) == type_event("email_domain_changed"@, fs));
    assert(type_event("email_domain_changed"@, fs) == crate::decode::email_domain_changed_event(fs));
}

/// A `bot_added` frame decodes to `BotAdded` exactly when its fields `bot`
/// read as the event declares, and then carries what those fields hold.
pub proof fn law_bot_added(fs: Seq<FieldView>, bot: Bot)
    requires
        types_as(fs, "bot_added"@),
    ensures
        decode_fields_spec(fs) == Ok::<EventView, EventErrorView>(EventView::BotAdded { bot })
            <==> bot_at(fs, "bot"@, bot),
{
    broadcast use vstd::string::group_string_axioms;
    reveal_strlit("bot_added");
    assert("bot_added"@.len() == 9);
    reveal_strlit("hello");
    assert("hello"@.len() == 5);
    reveal_strlit("message");
    assert("message"@.len() == 7);
    reveal_strlit("user_typing");
    assert("user_typing"@.len() == 11);
    reveal_strlit("channel_marked");
    assert("channel_marked"@.len() == 14);
    reveal_strlit("channel_created");
    assert("channel_created"@.len() == 15);
    reveal_strlit("channel_joined");
    assert("channel_joined"@.len() == 14);
    reveal_strlit("channel_left");
    assert("channel_left"@.len() == 12);
    reveal_strlit("channel_deleted");
    assert("channel_deleted"@.len() == 15);
    reveal_strlit("channel_rename");
    assert("channel_rename"@.len() == 14);
    reveal_strlit("channel_archive");
    assert("channel_archive"@.len() == 15);
    reveal_strlit("channel_unarchive");
    assert("channel_unarchive"@.len() == 17);
    reveal_strlit("channel_history_changed");
    assert("channel_history_changed"@.len() == 23);
    reveal_strlit("im_created");
    assert("im_created"@.len() == 10);
    reveal_strlit("im_open");
    assert("im_open"@.len() == 7);
    reveal_strlit("im_close");
    assert("im_close"@.len() == 8);
    reveal_strlit("im_marked");
    assert("im_marked"@.len() == 9);
    reveal_strlit("im_history_changed");
    assert("im_history_changed"@.len() == 18);
    reveal_strlit("group_joined");
    assert("group_joined"@.len() == 12);
    reveal_strlit("group_left");
    assert("group_left"@.len() == 10);
    reveal_strlit("group_open");
    assert("group_open"@.len() == 10);
    reveal_strlit("group_close");
    assert("group_close"@.len() == 11);
    reveal_strlit("group_archive");
    assert("group_archive"@.len() == 13);
    reveal_strlit("group_unarchive");
    assert("group_unarchive"@.len() == 15);
    reveal_strlit("group_rename");
    assert("group_rename"@.len() == 12);
    reveal_strlit("group_marked");
    assert("group_marked"@.len() == 12);
    reveal_strlit("group_history_changed");
    assert("group_history_changed"@.len() == 21);
    reveal_strlit("file_created");
    assert("file_created"@.len() == 12);
    reveal_strlit("file_shared");
    assert("file_shared"@.len() == 11);
    reveal_strlit("file_unshared");
    assert("file_unshared"@.len() == 13);
    reveal_strlit("file_public");
    assert("file_public"@.len() == 11);
    reveal_strlit("file_private");
    assert("file_private"@.len() == 12);
    reveal_strlit("file_change");
    assert("file_change"@.len() == 11);
    reveal_strlit("file_deleted");
    assert("file_deleted"@.len() == 12);
    reveal_strlit("file_comment_added");
    assert("file_comment_added"@.len() == 18);
    reveal_strlit("file_comment_edited");
    assert("file_comment_edited"@.len() == 19);
    reveal_strlit("file_comment_deleted");
    assert("file_comment_deleted"@.len() == 20);
    reveal_strlit("pin_added");
    assert("pin_added"@.len() == 9);
    reveal_strlit("pin_removed");
    assert("pin_removed"@.len() == 11);
    reveal_strlit("presence_change");
    assert("presence_change"@.len() == 15);
    reveal_strlit("manual_presence_change");
    assert("manual_presence_change"@.len() == 22);
    reveal_strlit("pref_change");
    assert("pref_change"@.len() == 11);
    reveal_strlit("user_change");
    assert("user_change"@.len() == 11);
    reveal_strlit("team_join");
    assert("team_join"@.len() == 9);
    reveal_strlit("star_added");
    assert("star_added"@.len() == 10);
    reveal_strlit("star_removed");
    assert("star_removed"@.len() == 12);
    reveal_strlit("reaction_added");
    assert("reaction_added"@.len() == 14);
    reveal_strlit("reaction_removed");
    assert("reaction_removed"@.len() == 16);
    reveal_strlit("emoji_changed");
    assert("emoji_changed"@.len() == 13);
    reveal_strlit("commands_changed");
    assert("commands_changed"@.len() == 16);
    reveal_strlit("team_plan_change");
    assert("team_plan_change"@.len() == 16);
    reveal_strlit("team_pref_change");
    assert("team_pref_change"@.len() == 16);
    reveal_strlit("team_rename");
    assert("team_rename"@.len() == 11);
    reveal_strlit("team_domain_change");
    assert("team_domain_change"@.len() == 18);
    reveal_strlit("email_domain_changeed");
    assert("email_domain_changeed"@.len() == 21);
    reveal_strlit("email_domain_changed");
    assert("email_domain_changed"@.len() == 20);
    assert("bot_added"@[0] == 'b' && "im_marked"@[0] == 'i');
    assert("bot_added"@[0] == 'b' && "pin_added"@[0] == 'p');
    assert("bot_added"@[0] == 'b' && "team_join"@[0] == 't');
    lemma_bot_at(fs, "bot"@, bot);
    assert(decode_fields_spec(fs) == type_event("bot_added"@, fs));
    assert(type_event("bot_added"@, fs) == crate::decode::bot_added_event(fs));
}

/// A `bot_changed` frame decodes to `BotChanged` exactly when its fields `bot`
/// read as the event declares, and then carries what those fields hold.
pub proof fn law_bot_changed(fs: Seq<FieldView>, bot: Bot)
    requires
        types_as(fs, "bot_changed"@),
    ensures
        decode_fields_spec(fs) == Ok::<EventView, EventErrorView>(EventView::BotChanged { bot })
            <==> bot_at(fs, "bot"@, bot),
{
    broadcast use vstd::string::group_string_axioms;
    reveal_strlit("bot_changed");
    assert("bot_changed"@.len() == 11);
    reveal_strlit("hello");
    assert("hello"@.len() == 5);
    reveal_strlit("message");
    assert("message"@.len() == 7);
    reveal_strlit("user_typing");
    assert("user_typing"@.len() == 11);
    reveal_strlit("channel_marked");
    assert("channel_marked"@.len() == 14);
    reveal_strlit("channel_created");
    assert("channel_created"@.len() == 15);
    reveal_strlit("channel_joined");
    assert("channel_joined"@.len() == 14);
    reveal_strlit("channel_left");
    assert("channel_left"@.len() == 12);
    reveal_strlit("channel_deleted");
    assert("channel_deleted"@.len() == 15);
    reveal_strlit("channel_rename");
    assert("channel_rename"@.len() == 14);
    reveal_strlit("channel_archive");
    assert("channel_archive"@.len() == 15);
    reveal_strlit("channel_unarchive");
    assert("channel_unarchive"@.len() == 17);
    reveal_strlit("channel_history_changed");
    assert("channel_history_changed"@.len() == 23);
    reveal_strlit("im_created");
    assert("im_created"@.len() == 10);
    reveal_strlit("im_open");
    assert("im_open"@.len() == 7);
    reveal_strlit("im_close");
    assert("im_close"@.len() == 8);
    reveal_strlit("im_marked");
    assert("im_marked"@.len() == 9);
    reveal_strlit("im_history_changed");
    assert("im_history_changed"@.len() == 18);
    reveal_strlit("group_joined");
    assert("group_joined"@.len() == 12);
    reveal_strlit("group_left");
    assert("group_left"@.len() == 10);
    reveal_strlit("group_open");
    assert("group_open"@.len() == 10);
    reveal_strlit("group_close");
    assert("group_close"@.len() == 11);
    reveal_strlit("group_archive");
    assert("group_archive"@.len() == 13);
    reveal_strlit("group_unarchive");
    assert("group_unarchive"@.len() == 15);
    reveal_strlit("group_rename");
    assert("group_rename"@.len() == 12);
    reveal_strlit("group_marked");
    assert("group_marked"@.len() == 12);
    reveal_strlit("group_history_changed");
    assert("group_history_changed"@.len() == 21);
    reveal_strlit("file_created");
    assert("file_created"@.len() == 12);
    reveal_strlit("file_shared");
    assert("file_shared"@.len() == 11);
    reveal_strlit("file_unshared");
    assert("file_unshared"@.len() == 13);
    reveal_strlit("file_public");
    assert("file_public"@.len() == 11);
    reveal_strlit("file_private");
    assert("file_private"@.len() == 12);
    reveal_strlit("file_change");
    assert("file_change"@.len() == 11);
    reveal_strlit("file_deleted");
    assert("file_deleted"@.len() == 12);
    reveal_strlit("file_comment_added");
    assert("file_comment_added"@.len() == 18);
    reveal_strlit("file_comment_edited");
    assert("file_comment_edited"@.len() == 19);
    reveal_strlit("file_comment_deleted");
    assert("file_comment_deleted"@.len() == 20);
    reveal_strlit("pin_added");
    assert("pin_added"@.len() == 9);
    reveal_strlit("pin_removed");
    assert("pin_removed"@.len() == 11);
    reveal_strlit("presence_change");
    assert("presence_change"@.len() == 15);
    reveal_strlit("manual_presence_change");
    assert("manual_presence_change"@.len() == 22);
    reveal_strlit("pref_change");
    assert("pref_change"@.len() == 11);
    reveal_strlit("user_change");
    assert("user_change"@.len() == 11);
    reveal_strlit("team_join");
    assert("team_join"@.len() == 9);
    reveal_strlit("star_added");
    assert("star_added"@.len() == 10);
    reveal_strlit("star_removed");
    assert("star_removed"@.len() == 12);
    reveal_strlit("reaction_added");
    assert("reaction_added"@.len() == 14);
    reveal_strlit("reaction_removed");
    assert("reaction_removed"@.len() == 16);
    reveal_strlit("emoji_changed");
    assert("emoji_changed"@.len() == 13);
    reveal_strlit("commands_changed");
    assert("commands_changed"@.len() == 16);
    reveal_strlit("team_plan_change");
    assert("team_plan_change"@.len() == 16);
    reveal_strlit("team_pref_change");
    assert("team_pref_change"@.len() == 16);
    reveal_strlit("team_rename");
    assert("team_rename"@.len() == 11);
    reveal_strlit("team_domain_change");
    assert("team_domain_change"@.len() == 18);
    reveal_strlit("email_domain_changeed");
    assert("email_domain_changeed"@.len() == 21);
    reveal_strlit("email_domain_changed");
    assert("email_domain_changed"@.len() == 20);
    reveal_strlit("bot_added");
    assert("bot_added"@.len() == 9);
    assert("bot_changed"@[0] == 'b' && "user_typing"@[0] == 'u');
    assert("bot_changed"@[0] == 'b' && "group_close"@[0] == 'g');
    assert("bot_changed"@[0] == 'b' && "file_shared"@[0] == 'f');
    assert("bot_changed"@[0] == 'b' && "file_public"@[0] == 'f');
    assert("bot_changed"@[0] == 'b' && "file_change"@[0] == 'f');
    assert("bot_changed"@[0] == 'b' && "pin_removed"@[0] == 'p');
    assert("bot_changed"@[0] == 'b' && "pref_change"@[0] == 'p');
    assert("bot_changed"@[0] == 'b' && "user_change"@[0] == 'u');
    assert("bot_changed"@[0] == 'b' && "team_rename"@[0] == 't');
    lemma_bot_at(fs, "bot"@, bot);
    assert(decode_fields_spec(fs) == type_event("bot_changed"@, fs));
    assert(type_event("bot_changed"@, fs) == crate::decode::bot_changed_event(fs));
}

/// A `accounts_changed` frame decodes to `AccountsChanged`, whatever else it holds.
pub proof fn law_accounts_changed(fs: Seq<FieldView>)
    requires
        types_as(fs, "accounts_changed"@),
    ensures
        decode_fields_spec(fs) == Ok::<EventView, EventErrorView>(EventView::AccountsChanged),
{
    broadcast use vstd::string::group_string_axioms;
    reveal_strlit("accounts_changed");
    assert("accounts_changed"@.len() == 16);
    reveal_strlit("hello");
    assert("hello"@.len() == 5);
    reveal_strlit("message");
    assert("message"@.len() == 7);
    reveal_strlit("user_typing");
    assert("user_typing"@.len() == 11);
    reveal_strlit("channel_marked");
    assert("channel_marked"@.len() == 14);
    reveal_strlit("channel_created");
    assert("channel_created"@.len() == 15);
    reveal_strlit("channel_joined");
    assert("channel_joined"@.len() == 14);
    reveal_strlit("channel_left");
    assert("channel_left"@.len() == 12);
    reveal_strlit("channel_deleted");
    assert("channel_deleted"@.len() == 15);
    reveal_strlit("channel_rename");
    assert("channel_rename"@.len() == 14);
    reveal_strlit("channel_archive");
    assert("channel_archive"@.len() == 15);
    reveal_strlit("channel_unarchive");
    assert("channel_unarchive"@.len() == 17);
    reveal_strlit("channel_history_changed");
    assert("channel_history_changed"@.len() == 23);
    reveal_strlit("im_created");
    assert("im_created"@.len() == 10);
    reveal_strlit("im_open");
    assert("im_open"@.len() == 7);
    reveal_strlit("im_close");
    assert("im_close"@.len() == 8);
    reveal_strlit("im_marked");
    assert("im_marked"@.len() == 9);
    reveal_strlit("im_history_changed");
    assert("im_history_changed"@.len() == 18);
    reveal_strlit("group_joined");
    assert("group_joined"@.len() == 12);
    reveal_strlit("group_left");
    assert("group_left"@.len() == 10);
    reveal_strlit("group_open");
    assert("group_open"@.len() == 10);
    reveal_strlit("group_close");
    assert("group_close"@.len() == 11);
    reveal_strlit("group_archive");
    assert("group_archive"@.len() == 13);
    reveal_strlit("group_unarchive");
    assert("group_unarchive"@.len() == 15);
    reveal_strlit("group_rename");
    assert("group_rename"@.len() == 12);
    reveal_strlit("group_marked");
    assert("group_marked"@.len() == 12);
    reveal_strlit("group_history_changed");
    assert("group_history_changed"@.len() == 21);
    reveal_strlit("file_created");
    assert("file_created"@.len() == 12);
    reveal_strlit("file_shared");
    assert("file_shared"@.len() == 11);
    reveal_strlit("file_unshared");
    assert("file_unshared"@.len() == 13);
    reveal_strlit("file_public");
    assert("file_public"@.len() == 11);
    reveal_strlit("file_private");
    assert("file_private"@.len() == 12);
    reveal_strlit("file_change");
    assert("file_change"@.len() == 11);
    reveal_strlit("file_deleted");
    assert("file_deleted"@.len() == 12);
    reveal_strlit("file_comment_added");
    assert("file_comment_added"@.len() == 18);
    reveal_strlit("file_comment_edited");
    assert("file_comment_edited"@.len() == 19);
    reveal_strlit("file_comment_deleted");
    assert("file_comment_deleted"@.len() == 20);
    reveal_strlit("pin_added");
    assert("pin_added"@.len() == 9);
    reveal_strlit("pin_removed");
    assert("pin_removed"@.len() == 11);
    reveal_strlit("presence_change");
    assert("presence_change"@.len() == 15);
    reveal_strlit("manual_presence_change");
    assert("manual_presence_change"@.len() == 22);
    reveal_strlit("pref_change");
    assert("pref_change"@.len() == 11);
    reveal_strlit("user_change");
    assert("user_change"@.len() == 11);
    reveal_strlit("team_join");
    assert("team_join"@.len() == 9);
    reveal_strlit("star_added");
    assert("star_added"@.len() == 10);
    reveal_strlit("star_removed");
    assert("star_removed"@.len() == 12);
    reveal_strlit("reaction_added");
    assert("reaction_added"@.len() == 14);
    reveal_strlit("reaction_removed");
    assert("reaction_removed"@.len() == 16);
    reveal_strlit("emoji_changed");
    assert("emoji_changed"@.len() == 13);
    reveal_strlit("commands_changed");
    assert("commands_changed"@.len() == 16);
    reveal_strlit("team_plan_change");
    assert("team_plan_change"@.len() == 16);
    reveal_strlit("team_pref_change");
    assert("team_pref_change"@.len() == 16);
    reveal_strlit("team_rename");
    assert("team_rename"@.len() == 11);
    reveal_strlit("team_domain_change");
    assert("team_domain_change"@.len() == 18);
    reveal_strlit("email_domain_changeed");
    assert("email_domain_changeed"@.len() == 21);
    reveal_strlit("email_domain_changed");
    assert("email_domain_changed"@.len() == 20);
    reveal_strlit("bot_added");
    assert("bot_added"@.len() == 9);
    reveal_strlit("bot_changed");
    assert("bot_changed"@.len() == 11);
    assert("accounts_changed"@[0] == 'a' && "reaction_removed"@[0] == 'r');
    assert("accounts_changed"@[0] == 'a' && "commands_changed"@[0] == 'c');
    assert("accounts_changed"@[0] == 'a' && "team_plan_change"@[0] == 't');
    assert("accounts_changed"@[0] == 'a' && "team_pref_change"@[0] == 't');
}

/// A `team_migration_started` frame decodes to `TeamMigrationStarted`, whatever else it holds.
pub proof fn law_team_migration_started(fs: Seq<FieldView>)
    requires
        types_as(fs, "team_migration_started"@),
    ensures
        decode_fields_spec(fs) == Ok::<EventView, EventErrorView>(EventView::TeamMigrationStarted),
{
    broadcast use vstd::string::group_string_axioms;
    reveal_strlit("team_migration_started");
    assert("team_migration_started"@.len() == 22);
    reveal_strlit("hello");
    assert("hello"@.len() == 5);
    reveal_strlit("message");
    assert("message"@.len() == 7);
    reveal_strlit("user_typing");
    assert("user_typing"@.len() == 11);
    reveal_strlit("channel_marked");
    assert("channel_marked"@.len() == 14);
    reveal_strlit("channel_created");
    assert("channel_created"@.len() == 15);
    reveal_strlit("channel_joined");
    assert("channel_joined"@.len() == 14);
    reveal_strlit("channel_left");
    assert("channel_left"@.len() == 12);
    reveal_strlit("channel_deleted");
    assert("channel_deleted"@.len() == 15);
    reveal_strlit("channel_rename");
    assert("channel_rename"@.len() == 14);
    reveal_strlit("channel_archive");
    assert("channel_archive"@.len() == 15);
    reveal_strlit("channel_unarchive");
    assert("channel_unarchive"@.len() == 17);
    reveal_strlit("channel_history_changed");
    assert("channel_history_changed"@.len() == 23);
    reveal_strlit("im_created");
    assert("im_created"@.len() == 10);
    reveal_strlit("im_open");
    assert("im_open"@.len() == 7);
    reveal_strlit("im_close");
    assert("im_close"@.len() == 8);
    reveal_strlit("im_marked");
    assert("im_marked"@.len() == 9);
    reveal_strlit("im_history_changed");
    assert("im_history_changed"@.len() == 18);
    reveal_strlit("group_joined");
    assert("group_joined"@.len() == 12);
    reveal_strlit("group_left");
    assert("group_left"@.len() == 10);
    reveal_strlit("group_open");
    assert("group_open"@.len() == 10);
    reveal_strlit("group_close");
    assert("group_close"@.len() == 11);
    reveal_strlit("group_archive");
    assert("group_archive"@.len() == 13);
    reveal_strlit("group_unarchive");
    assert("group_unarchive"@.len() == 15);
    reveal_strlit("group_rename");
    assert("group_rename"@.len() == 12);
    reveal_strlit("group_marked");
    assert("group_marked"@.len() == 12);
    reveal_strlit("group_history_changed");
    assert("group_history_changed"@.len() == 21);
    reveal_strlit("file_created");
    assert("file_created"@.len() == 12);
    reveal_strlit("file_shared");
    assert("file_shared"@.len() == 11);
    reveal_strlit("file_unshared");
    assert("file_unshared"@.len() == 13);
    reveal_strlit("file_public");
    assert("file_public"@.len() == 11);
    reveal_strlit("file_private");
    assert("file_private"@.len() == 12);
    reveal_strlit("file_change");
    assert("file_change"@.len() == 11);
    reveal_strlit("file_deleted");
    assert("file_deleted"@.len() == 12);
    reveal_strlit("file_comment_added");
    assert("file_comment_added"@.len() == 18);
    reveal_strlit("file_comment_edited");
    assert("file_comment_edited"@.len() == 19);
    reveal_strlit("file_comment_deleted");
    assert("file_comment_deleted"@.len() == 20);
    reveal_strlit("pin_added");
    assert("pin_added"@.len() == 9);
    reveal_strlit("pin_removed");
    assert("pin_removed"@.len() == 11);
    reveal_strlit("presence_change");
    assert("presence_change"@.len() == 15);
    reveal_strlit("manual_presence_change");
    assert("manual_presence_change"@.len() == 22);
    reveal_strlit("pref_change");
    assert("pref_change"@.len() == 11);
    reveal_strlit("user_change");
    assert("user_change"@.len() == 11);
    reveal_strlit("team_join");
    assert("team_join"@.len() == 9);
    reveal_strlit("star_added");
    assert("star_added"@.len() == 10);
    reveal_strlit("star_removed");
    assert("star_removed"@.len() == 12);
    reveal_strlit("reaction_added");
    assert("reaction_added"@.len() == 14);
    reveal_strlit("reaction_removed");
    assert("reaction_removed"@.len() == 16);
    reveal_strlit("emoji_changed");
    assert("emoji_changed"@.len() == 13);
    reveal_strlit("commands_changed");
    assert("commands_changed"@.len() == 16);
    reveal_strlit("team_plan_change");
    assert("team_plan_change"@.len() == 16);
    reveal_strlit("team_pref_change");
    assert("team_pref_change"@.len() == 16);
    reveal_strlit("team_rename");
    assert("team_rename"@.len() == 11);
    reveal_strlit("team_domain_change");
    assert("team_domain_change"@.len() == 18);
    reveal_strlit("email_domain_changeed");
    assert("email_domain_changeed"@.len() == 21);
    reveal_strlit("email_domain_changed");
    assert("email_domain_changed"@.len() == 20);
    reveal_strlit("bot_added");
    assert("bot_added"@.len() == 9);
    reveal_strlit("bot_changed");
    assert("bot_changed"@.len() == 11);
    reveal_strlit("accounts_changed");
    assert("accounts_changed"@.len() == 16);
    assert("team_migration_started"@[0] == 't' && "manual_presence_change"@[0] == 'm');
}

/// A `reconnect_url` frame decodes to `ReconnectUrl`, whatever else it holds.
pub proof fn law_reconnect_url(fs: Seq<FieldView>)
    requires
        types_as(fs, "reconnect_url"@),
    ensures
        decode_fields_spec(fs) == Ok::<EventView, EventErrorView>(EventView::ReconnectUrl),
{
    broadcast use vstd::string::group_string_axioms;
    reveal_strlit("reconnect_url");
    assert("reconnect_url"@.len() == 13);
    reveal_strlit("hello");
    assert("hello"@.len() == 5);
    reveal_strlit("message");
    assert("message"@.len() == 7);
    reveal_strlit("user_typing");
    assert("user_typing"@.len() == 11);
    reveal_strlit("channel_marked");
    assert("channel_marked"@.len() == 14);
    reveal_strlit("channel_created");
    assert("channel_created"@.len() == 15);
    reveal_strlit("channel_joined");
    assert("channel_joined"@.len() == 14);
    reveal_strlit("channel_left");
    assert("channel_left"@.len() == 12);
    reveal_strlit("channel_deleted");
    assert("channel_deleted"@.len() == 15);
    reveal_strlit("channel_rename");
    assert("channel_rename"@.len() == 14);
    reveal_strlit("channel_archive");
    assert("channel_archive"@.len() == 15);
    reveal_strlit("channel_unarchive");
    assert("channel_unarchive"@.len() == 17);
    reveal_strlit("channel_history_changed");
    assert("channel_history_changed"@.len() == 23);
    reveal_strlit("im_created");
    assert("im_created"@.len() == 10);
    reveal_strlit("im_open");
    assert("im_open"@.len() == 7);
    reveal_strlit("im_close");
    assert("im_close"@.len() == 8);
    reveal_strlit("im_marked");
    assert("im_marked"@.len() == 9);
    reveal_strlit("im_history_changed");
    assert("im_history_changed"@.len() == 18);
    reveal_strlit("group_joined");
    assert("group_joined"@.len() == 12);
    reveal_strlit("group_left");
    assert("group_left"@.len() == 10);
    reveal_strlit("group_open");
    assert("group_open"@.len() == 10);
    reveal_strlit("group_close");
    assert("group_close"@.len() == 11);
    reveal_strlit("group_archive");
    assert("group_archive"@.len() == 13);
    reveal_strlit("group_unarchive");
    assert("group_unarchive"@.len() == 15);
    reveal_strlit("group_rename");
    assert("group_rename"@.len() == 12);
    reveal_strlit("group_marked");
    assert("group_marked"@.len() == 12);
    reveal_strlit("group_history_changed");
    assert("group_history_changed"@.len() == 21);
    reveal_strlit("file_created");
    assert("file_created"@.len() == 12);
    reveal_strlit("file_shared");
    assert("file_shared"@.len() == 11);
    reveal_strlit("file_unshared");
    assert("file_unshared"@.len() == 13);
    reveal_strlit("file_public");
    assert("file_public"@.len() == 11);
    reveal_strlit("file_private");
    assert("file_private"@.len() == 12);
    reveal_strlit("file_change");
    assert("file_change"@.len() == 11);
    reveal_strlit("file_deleted");
    assert("file_deleted"@.len() == 12);
    reveal_strlit("file_comment_added");
    assert("file_comment_added"@.len() == 18);
    reveal_strlit("file_comment_edited");
    assert("file_comment_edited"@.len() == 19);
    reveal_strlit("file_comment_deleted");
    assert("file_comment_deleted"@.len() == 20);
    reveal_strlit("pin_added");
    assert("pin_added"@.len() == 9);
    reveal_strlit("pin_removed");
    assert("pin_removed"@.len() == 11);
    reveal_strlit("presence_change");
    assert("presence_change"@.len() == 15);
    reveal_strlit("manual_presence_change");
    assert("manual_presence_change"@.len() == 22);
    reveal_strlit("pref_change");
    assert("pref_change"@.len() == 11);
    reveal_strlit("user_change");
    assert("user_change"@.len() == 11);
    reveal_strlit("team_join");
    assert("team_join"@.len() == 9);
    reveal_strlit("star_added");
    assert("star_added"@.len() == 10);
    reveal_strlit("star_removed");
    assert("star_removed"@.len() == 12);
    reveal_strlit("reaction_added");
    assert("reaction_added"@.len() == 14);
    reveal_strlit("reaction_removed");
    assert("reaction_removed"@.len() == 16);
    reveal_strlit("emoji_changed");
    assert("emoji_changed"@.len() == 13);
    reveal_strlit("commands_changed");
    assert("commands_changed"@.len() == 16);
    reveal_strlit("team_plan_change");
    assert("team_plan_change"@.len() == 16);
    reveal_strlit("team_pref_change");
    assert("team_pref_change"@.len() == 16);
    reveal_strlit("team_rename");
    assert("team_rename"@.len() == 11);
    reveal_strlit("team_domain_change");
    assert("team_domain_change"@.len() == 18);
    reveal_strlit("email_domain_changeed");
    assert("email_domain_changeed"@.len() == 21);
    reveal_strlit("email_domain_changed");
    assert("email_domain_changed"@.len() == 20);
    reveal_strlit("bot_added");
    assert("bot_added"@.len() == 9);
    reveal_strlit("bot_changed");
    assert("bot_changed"@.len() == 11);
    reveal_strlit("accounts_changed");
    assert("accounts_changed"@.len() == 16);
    reveal_strlit("team_migration_started");
    assert("team_migration_started"@.len() == 22);
    assert("reconnect_url"@[0] == 'r' && "group_archive"@[0] == 'g');
    assert("reconnect_url"@[0] == 'r' && "file_unshared"@[0] == 'f');
    assert("reconnect_url"@[0] == 'r' && "emoji_changed"@[0] == 'e');
}

/// `needle` stands somewhere in `hay`.
pub open spec fn contains_text(hay: Seq<char>, needle: Seq<char>) -> bool {
    exists|off: int| 0 <= off && off + needle.len() <= hay.len() && #[trigger] hay.subrange(off, off + needle.len()) == needle
}

proof fn lemma_contains_in_concat(a: Seq<char>, b: Seq<char>, needle: Seq<char>)
    ensures
        contains_text(a, needle) ==> contains_text(a + b, needle),
        contains_text(b, needle) ==> contains_text(a + b, needle),
{
    if contains_text(a, needle) {
        let off = choose|off: int| 0 <= off && off + needle.len() <= a.len() && #[trigger] a.subrange(off, off + needle.len()) == needle;
        assert((a + b).subrange(off, off + needle.len()) =~= a.subrange(off, off + needle.len()));
    }
    if contains_text(b, needle) {
        let off = choose|off: int| 0 <= off && off + needle.len() <= b.len() && #[trigger] b.subrange(off, off + needle.len()) == needle;
        assert((a + b).subrange(a.len() + off, a.len() + off + needle.len()) =~= b.subrange(off, off + needle.len()));
    }
}

proof fn lemma_contains_self(a: Seq<char>)
    ensures
        contains_text(a, a),
{
    let off: int = 0;
    assert(a.subrange(off, off + a.len()) =~= a);
}

proof fn lemma_members_hold_fields(fs: Seq<FieldView>)
    ensures
        forall|i: int| 0 <= i < fs.len() ==> #[trigger] contains_text(members_text(fs), fs[i].1 + ":"@ + fs[i].3),
    decreases fs.len(),
{
    if fs.len() == 1 {
        assert(member_text(fs[0]) == fs[0].1 + ":"@ + fs[0].3);
        lemma_contains_self(member_text(fs[0]));
    } else if fs.len() > 1 {
        lemma_members_hold_fields(fs.drop_last());
        let front = members_text(fs.drop_last()) + ","@;
        let last = member_text(fs.last());
        assert(members_text(fs) == front + last);
        assert forall|i: int| 0 <= i < fs.len() implies #[trigger] contains_text(members_text(fs), fs[i].1 + ":"@ + fs[i].3) by {
            if i < fs.len() - 1 {
                assert(fs.drop_last()[i] == fs[i]);
                lemma_contains_in_concat(members_text(fs.drop_last()), ","@, fs[i].1 + ":"@ + fs[i].3);
                lemma_contains_in_concat(front, last, fs[i].1 + ":"@ + fs[i].3);
            } else {
                lemma_contains_self(last);
                lemma_contains_in_concat(front, last, last);
            }
        }
    }
}

/// The body that a `message` event hands to the message parser is a JSON
/// object: it opens with `{`, closes with `}`, and holds, for each field, that
/// field's key and its value's own JSON text, as sent, as a member.
pub proof fn law_message_body(fs: Seq<FieldView>)
    ensures
        object_text(fs).len() >= 2,
        object_text(fs)[0] == '{',
        object_text(fs).last() == '}',
        forall|i: int| 0 <= i < fs.len() ==> #[trigger] contains_text(object_text(fs), fs[i].1 + ":"@ + fs[i].3),
{
    broadcast use vstd::string::group_string_axioms;
    reveal_strlit("{");
    reveal_strlit("}");
    assert("{"@.len() == 1 && "{"@[0] == '{');
    assert("}"@.len() == 1 && "}"@[0] == '}');
    lemma_members_hold_fields(fs);
    assert forall|i: int| 0 <= i < fs.len() implies #[trigger] contains_text(object_text(fs), fs[i].1 + ":"@ + fs[i].3) by {
        lemma_contains_in_concat("{"@, members_text(fs), fs[i].1 + ":"@ + fs[i].3);
        lemma_contains_in_concat("{"@ + members_text(fs), "}"@, fs[i].1 + ":"@ + fs[i].3);
    }
}

/// A `message` frame decodes to the message `m` exactly when the Web API
/// crate reads `m` from the body written from the fields after `type` (see
/// `law_message_body`), and that body holds no timestamp that overflows.
pub proof fn law_message(fs: Seq<FieldView>, m: slack_api::Message)
    requires
        types_as(fs, "message"@),
    ensures
        decode_fields_spec(fs) == Ok::<EventView, EventErrorView>(EventView::Message(m))
            <==> !holds_timestamp_overflow(object_text(fs.drop_first()))
                && parsed_message(object_text(fs.drop_first())) == Ok::<slack_api::Message, Seq<char>>(m),
{
    broadcast use vstd::string::group_string_axioms;
    reveal_strlit("message");
    assert("message"@.len() == 7);
    reveal_strlit("hello");
    assert("hello"@.len() == 5);
    assert(decode_fields_spec(fs) == type_event("message"@, fs));
    assert(type_event("message"@, fs) == crate::decode::message_event(fs));
}

/// Index `i` holds the last field named `key` among the first `n` of `s`.
pub open spec fn last_in(s: Seq<FieldView>, key: Seq<char>, n: int, i: int) -> bool {
    &&& 0 <= i < n
    &&& s[i].0 == key
    &&& forall|j: int| i < j < n ==> s[j].0 != key
}

proof fn lemma_typing_prefix(s: Seq<FieldView>, n: int)
    requires
        0 <= n <= s.len(),
        "channel"@ != "user"@,
    ensures
        typing_fields(s.take(n)) is Ok <==> (forall|j: int| 0 <= j < n && (s[j].0 == "channel"@ || s[j].0 == "user"@) ==> (#[trigger] s[j]).2 is Some),
        typing_fields(s.take(n)) is Ok ==> {
            let found = typing_fields(s.take(n))->Ok_0;
            &&& forall|i: int| #[trigger] last_in(s, "channel"@, n, i) ==> s[i].2 == found.0
            &&& forall|i: int| #[trigger] last_in(s, "user"@, n, i) ==> s[i].2 == found.1
            &&& found.0 is Some ==> exists|i: int| #[trigger] last_in(s, "channel"@, n, i)
            &&& found.1 is Some ==> exists|i: int| #[trigger] last_in(s, "user"@, n, i)
        },
    decreases n,
{
    if n == 0 {
        assert(s.take(0) =~= Seq::<FieldView>::empty());
    } else {
        lemma_typing_prefix(s, n - 1);
        let t = s.take(n);
        assert(t.drop_last() =~= s.take(n - 1));
        assert(t.last() == s[n - 1]);
        let k = s[n - 1].0;
        if typing_fields(s.take(n - 1)) is Ok {
            let found = typing_fields(s.take(n - 1))->Ok_0;
            assert forall|i: int| #[trigger] last_in(s, "channel"@, n, i) && k != "channel"@ implies last_in(s, "channel"@, n - 1, i) by {
                assert(i != n - 1);
            }
            assert forall|i: int| #[trigger] last_in(s, "user"@, n, i) && k != "user"@ implies last_in(s, "user"@, n - 1, i) by {
                assert(i != n - 1);
            }
            if k != "channel"@ && found.0 is Some {
                let i = choose|i: int| #[trigger] last_in(s, "channel"@, n - 1, i);
                assert(last_in(s, "channel"@, n, i));
            }
            if k != "user"@ && found.1 is Some {
                let i = choose|i: int| #[trigger] last_in(s, "user"@, n - 1, i);
                assert(last_in(s, "user"@, n, i));
            }
            if k == "channel"@ {
                assert(last_in(s, "channel"@, n, n - 1));
                assert forall|i: int| #[trigger] last_in(s, "channel"@, n, i) implies i == n - 1 by {}
            }
            if k == "user"@ {
                assert(last_in(s, "user"@, n, n - 1));
                assert forall|i: int| #[trigger] last_in(s, "user"@, n, i) implies i == n - 1 by {}
            }
        }
    }
}

/// Every field named `channel` or `user` after the leading one holds text.
pub open spec fn typing_fields_are_text(fs: Seq<FieldView>) -> bool {
    forall|i: int| 1 <= i < fs.len() && (fs[i].0 == "channel"@ || fs[i].0 == "user"@) ==> (#[trigger] fs[i]).2 is Some
}

/// A `user_typing` frame decodes to `UserTyping` exactly when every `channel`
/// and `user` field holds text and both are present, and then carries the
/// texts of the last `channel` and the last `user` field.
pub proof fn law_user_typing(fs: Seq<FieldView>, channel: Seq<char>, user: Seq<char>)
    requires
        types_as(fs, "user_typing"@),
    ensures
        decode_fields_spec(fs) == Ok::<EventView, EventErrorView>(EventView::UserTyping { channel, user })
            <==> typing_fields_are_text(fs) && text_at(fs, "channel"@, channel) && text_at(fs, "user"@, user),
{
    broadcast use vstd::string::group_string_axioms;
    reveal_strlit("user_typing");
    assert("user_typing"@.len() == 11);
    reveal_strlit("hello");
    assert("hello"@.len() == 5);
    reveal_strlit("message");
    assert("message"@.len() == 7);
    reveal_strlit("channel");
    reveal_strlit("user");
    assert("channel"@.len() == 7 && "user"@.len() == 4);
    assert(decode_fields_spec(fs) == type_event("user_typing"@, fs));
    assert(type_event("user_typing"@, fs) == crate::decode::user_typing_event(fs));
    let s = fs.drop_first();
    lemma_typing_prefix(s, s.len() as int);
    assert(s.take(s.len() as int) =~= s);
    assert forall|i: int| 0 <= i < s.len() implies #[trigger] s[i] == fs[i + 1] by {}
    // the fields after the first are those of `s`, one place on
    assert forall|i: int| #[trigger] last_named(fs, "channel"@, i) <==> last_in(s, "channel"@, s.len() as int, i - 1) by {
        if last_named(fs, "channel"@, i) {
            assert forall|j: int| i - 1 < j < s.len() implies s[j].0 != "channel"@ by {
                assert(s[j] == fs[j + 1]);
            }
        }
        if last_in(s, "channel"@, s.len() as int, i - 1) {
            assert forall|j: int| i < j < fs.len() implies fs[j].0 != "channel"@ by {
                assert(s[j - 1] == fs[j]);
            }
        }
    }
    assert forall|i: int| #[trigger] last_named(fs, "user"@, i) <==> last_in(s, "user"@, s.len() as int, i - 1) by {
        if last_named(fs, "user"@, i) {
            assert forall|j: int| i - 1 < j < s.len() implies s[j].0 != "user"@ by {
                assert(s[j] == fs[j + 1]);
            }
        }
        if last_in(s, "user"@, s.len() as int, i - 1) {
            assert forall|j: int| i < j < fs.len() implies fs[j].0 != "user"@ by {
                assert(s[j - 1] == fs[j]);
            }
        }
    }
    if typing_fields_are_text(fs) {
        assert forall|j: int| 0 <= j < s.len() && (s[j].0 == "channel"@ || s[j].0 == "user"@) implies (#[trigger] s[j]).2 is Some by {
            assert(s[j] == fs[j + 1]);
        }
    }
    if typing_fields(s) is Ok {
        assert forall|i: int| 1 <= i < fs.len() && (fs[i].0 == "channel"@ || fs[i].0 == "user"@) implies (#[trigger] fs[i]).2 is Some by {
            assert(s[i - 1] == fs[i]);
        }
    }
    if text_at(fs, "channel"@, channel) {
        let i = choose|i: int| last_named(fs, "channel"@, i) && fs[i].2 == Some(channel);
        assert(last_in(s, "channel"@, s.len() as int, i - 1));
    }
    if text_at(fs, "user"@, user) {
        let i = choose|i: int| last_named(fs, "user"@, i) && fs[i].2 == Some(user);
        assert(last_in(s, "user"@, s.len() as int, i - 1));
    }
    if decode_fields_spec(fs) == Ok::<EventView, EventErrorView>(EventView::UserTyping { channel, user }) {
        let i = choose|i: int| #[trigger] last_in(s, "channel"@, s.len() as int, i);
        assert(last_named(fs, "channel"@, i + 1));
        let u = choose|i: int| #[trigger] last_in(s, "user"@, s.len() as int, i);
        assert(last_named(fs, "user"@, u + 1));
    }
}

/// `ty` names one of the event types that frames are decoded into.
pub open spec fn is_event_type(ty: Seq<char>) -> bool {
    ||| ty == "hello"@
    ||| ty == "message"@
    ||| ty == "user_typing"@
    ||| ty == "channel_marked"@
    ||| ty == "channel_created"@
    ||| ty == "channel_joined"@
    ||| ty == "channel_left"@
    ||| ty == "channel_deleted"@
    ||| ty == "channel_rename"@
    ||| ty == "channel_archive"@
    ||| ty == "channel_unarchive"@
    ||| ty == "channel_history_changed"@
    ||| ty == "im_created"@
    ||| ty == "im_open"@
    ||| ty == "im_close"@
    ||| ty == "im_marked"@
    ||| ty == "im_history_changed"@
    ||| ty == "group_joined"@
    ||| ty == "group_left"@
    ||| ty == "group_open"@
    ||| ty == "group_close"@
    ||| ty == "group_archive"@
    ||| ty == "group_unarchive"@
    ||| ty == "group_rename"@
    ||| ty == "group_marked"@
    ||| ty == "group_history_changed"@
    ||| ty == "file_created"@
    ||| ty == "file_shared"@
    ||| ty == "file_unshared"@
    ||| ty == "file_public"@
    ||| ty == "file_private"@
    ||| ty == "file_change"@
    ||| ty == "file_deleted"@
    ||| ty == "file_comment_added"@
    ||| ty == "file_comment_edited"@
    ||| ty == "file_comment_deleted"@
    ||| ty == "pin_added"@
    ||| ty == "pin_removed"@
    ||| ty == "presence_change"@
    ||| ty == "manual_presence_change"@
    ||| ty == "pref_change"@
    ||| ty == "user_change"@
    ||| ty == "team_join"@
    ||| ty == "star_added"@
    ||| ty == "star_removed"@
    ||| ty == "reaction_added"@
    ||| ty == "reaction_removed"@
    ||| ty == "emoji_changed"@
    ||| ty == "commands_changed"@
    ||| ty == "team_plan_change"@
    ||| ty == "team_pref_change"@
    ||| ty == "team_rename"@
    ||| ty == "team_domain_change"@
    ||| ty == "email_domain_changeed"@
    ||| ty == "email_domain_changed"@
    ||| ty == "bot_added"@
    ||| ty == "bot_changed"@
    ||| ty == "accounts_changed"@
    ||| ty == "team_migration_started"@
    ||| ty == "reconnect_url"@
}

/// A frame whose `type` names no event type is refused with that type.
pub proof fn law_unknown_type(fs: Seq<FieldView>, ty: Seq<char>)
    requires
        types_as(fs, ty),
        !is_event_type(ty),
    ensures
        decode_fields_spec(fs) == Err::<EventView, EventErrorView>(EventErrorView::UnknownType(ty)),
{
}

/// A frame led by a `type` field that holds text always gets an answer from
/// `Event::from_json`: the event that its fields name, or why they name none.
pub proof fn law_typed_frames_are_answered(text: Seq<char>, r: Option<Result<Event, EventError>>, fs: Seq<FieldView>, ty: Seq<char>)
    requires
        decodes_to(text, r),
        json_object_fields_of(text) == Ok::<Seq<FieldView>, Seq<char>>(fs),
        types_as(fs, ty),
    ensures
        r matches Some(d) && decoded_view(d) == decode_fields_spec(fs),
{
}

/// The texts of the errors that the event decoder has always given: an
/// unknown type, and a `user_typing` event that lacks its channel or its user.
pub proof fn law_error_texts(t: Seq<char>, channel: Option<Seq<char>>, user: Option<Seq<char>>)
    ensures
        description_of(EventErrorView::UnknownType(t)) == "Unknown Message type: "@ + t,
        description_of(EventErrorView::MissingFields { channel, user }) == "missing fields: "@ + pair_debug_text(channel, user),
{
}

} // verus!
