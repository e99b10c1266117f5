//! The fields of a frame's JSON object, and each field read as the type that
//! an event declares for it.

use vstd::prelude::*;
use vstd::string::*;
use slack_api::{Bot, Channel, File, FileComment, Message, MessagePinnedItem, MessageUnpinnedItem};
use crate::events::{EventError, EventErrorView};
use crate::timestamps::{holds_timestamp_overflow, timestamp_may_overflow};

verus! {

/// A field of a JSON object: its key, the key written as JSON, its value where
/// that value is a string, and the value written as JSON.
pub type Field = (String, String, Option<String>, String);

/// A [`Field`] with its strings taken by their views.
pub type FieldView = (Seq<char>, Seq<char>, Option<Seq<char>>, Seq<char>);

/// The fields of the JSON object that `text` holds, in their order in the text;
/// or the JSON parser's message where `text` holds no JSON object.
pub uninterp spec fn json_object_fields_of(text: Seq<char>) -> Result<Seq<(Seq<char>, Seq<char>, Option<Seq<char>>, Seq<char>)>, Seq<char>>;

/// Reads `text` with `serde_json::from_str` as a `serde_json::Map` (whose
/// `preserve_order` feature keeps the fields in the order of the text; a key
/// that repeats keeps its first place and its last value) and hands out each
/// field as its key, the key and the value written back as JSON, and the value
/// where it is a JSON string; a failure gives the `Display` text of the parser's
/// error. The contract claims only that the result is a function of `text`,
/// named `json_object_fields_of`.
#[verifier::external_body]
pub(crate) fn json_object_fields(text: &str) -> (r: Result<Vec<Field>, String>)
    ensures
        match r {
            Ok(fields) => json_object_fields_of(text@) == Ok::<Seq<FieldView>, Seq<char>>(fields.deep_view()),
            Err(m) => json_object_fields_of(text@) == Err::<Seq<FieldView>, Seq<char>>(m@),
        },
{
    match serde_json::from_str::<serde_json::Map<String, serde_json::Value>>(text) {
        Ok(map) => Ok(map.into_iter().map(|(key, value)| {
            let key_json = serde_json::Value::String(key.clone()).to_string();
            let json = value.to_string();
            match value {
                serde_json::Value::String(s) => (key, key_json, Some(s), json),
                _ => (key, key_json, None, json),
            }
        }).collect()),
        Err(e) => Err(e.to_string()),
    }
}

/// A result with its error text taken by its view.
pub open spec fn error_text_view<T>(r: Result<T, String>) -> Result<T, Seq<char>> {
    match r {
        Ok(v) => Ok(v),
        Err(m) => Err(m@),
    }
}

/// A result with its error taken by its view.
pub open spec fn error_view<T>(r: Result<T, EventError>) -> Result<T, EventErrorView> {
    match r {
        Ok(v) => Ok(v),
        Err(e) => Err(e@),
    }
}

/// A text result with its text and its error taken by their views.
pub open spec fn text_view(r: Result<String, EventError>) -> Result<Seq<char>, EventErrorView> {
    match r {
        Ok(t) => Ok(t@),
        Err(e) => Err(e@),
    }
}

/// Whether a result succeeded, with its error taken by its view.
pub open spec fn unit_view<T>(r: Result<T, EventError>) -> Result<(), EventErrorView> {
    match r {
        Ok(_) => Ok(()),
        Err(e) => Err(e@),
    }
}

/// Whether `s` holds the same characters as `lit`.
pub(crate) fn text_is(s: &String, lit: &str) -> (b: bool)
    ensures
        b == (s@ == lit@),
{
    let l = String::from_str(lit);
    *s == l
}

/// The index of the last of the first `n` fields, the leading `type` field
/// apart, whose key is `key`; -1 where there is none.
pub open spec fn last_index(fs: Seq<FieldView>, key: Seq<char>, n: int) -> int
    decreases n,
{
    if n <= 1 {
        -1
    } else if fs[n - 1].0 == key {
        n - 1
    } else {
        last_index(fs, key, n - 1)
    }
}

/// The index of the field that an event reads under `key`: the last one with
/// that key after the leading `type` field; -1 where there is none.
pub open spec fn field_index(fs: Seq<FieldView>, key: Seq<char>) -> int {
    last_index(fs, key, fs.len() as int)
}

proof fn lemma_last_index(fs: Seq<FieldView>, key: Seq<char>, n: int)
    requires
        n <= fs.len(),
    ensures
        last_index(fs, key, n) == -1 || (1 <= last_index(fs, key, n) < n && fs[last_index(fs, key, n)].0 == key),
    decreases n,
{
    if n > 1 {
        lemma_last_index(fs, key, n - 1);
    }
}

/// Field `key` read as text: missing, not a JSON string, or its text.
pub open spec fn text_field(fs: Seq<FieldView>, key: Seq<char>) -> Result<Seq<char>, EventErrorView> {
    let i = field_index(fs, key);
    if i < 1 {
        Err(EventErrorView::MissingField(key))
    } else {
        match fs[i].2 {
            Some(t) => Ok(t),
            None => Err(EventErrorView::NotText(key)),
        }
    }
}

/// Field `key` as JSON text, or why it is missing.
pub open spec fn json_field(fs: Seq<FieldView>, key: Seq<char>) -> Result<Seq<char>, EventErrorView> {
    let i = field_index(fs, key);
    if i < 1 {
        Err(EventErrorView::MissingField(key))
    } else {
        Ok(fs[i].3)
    }
}

/// What a parse of field `key` gives, its failure named after the field.
pub open spec fn payload<T>(key: Seq<char>, parsed: Result<T, Seq<char>>) -> Result<T, EventErrorView> {
    match parsed {
        Ok(v) => Ok(v),
        Err(m) => Err(EventErrorView::BadField { key, error: m }),
    }
}

/// The index of the field that an event reads under `key`.
fn find_field(fields: &Vec<Field>, key: &str) -> (r: Option<usize>)
    ensures
        match r {
            None => field_index(fields.deep_view(), key@) < 1,
            Some(i) => i as int == field_index(fields.deep_view(), key@) && 1 <= i < fields.len(),
        },
{
    let ghost fv = fields.deep_view();
    proof {
        lemma_last_index(fv, key@, fv.len() as int);
    }
    let mut i: usize = fields.len();
    while i > 1
        invariant
            i <= fields.len(),
            fv == fields.deep_view(),
            field_index(fv, key@) == last_index(fv, key@, i as int),
        decreases i,
    {
        assert(fv[i - 1] == fields@[i - 1].deep_view());
        if text_is(&fields[i - 1].0, key) {
            return Some(i - 1);
        }
        i = i - 1;
    }
    None
}

/// Reads field `key` as text.
pub(crate) fn read_text(fields: &Vec<Field>, key: &str) -> (r: Result<String, EventError>)
    ensures
        text_view(r) == text_field(fields.deep_view(), key@),
{
    match find_field(fields, key) {
        None => Err(EventError::MissingField(String::from_str(key))),
        Some(i) => {
            assert(fields.deep_view()[i as int] == fields@[i as int].deep_view());
            match &fields[i].2 {
                Some(t) => Ok(t.clone()),
                None => Err(EventError::NotText(String::from_str(key))),
            }
        },
    }
}

/// The index of field `key`, whose JSON text an event parses.
fn find_json(fields: &Vec<Field>, key: &str) -> (r: Result<usize, EventError>)
    ensures
        match json_field(fields.deep_view(), key@) {
            Err(e) => r matches Err(x) && x@ == e,
            Ok(j) => r matches Ok(i) && i < fields.len() && fields@[i as int].3@ == j,
        },
{
    match find_field(fields, key) {
        None => Err(EventError::MissingField(String::from_str(key))),
        Some(i) => {
            assert(fields.deep_view()[i as int] == fields@[i as int].deep_view());
            Ok(i)
        },
    }
}

/// The message of the JSON error that reading `text` as a Slack user gives, or
/// `None` where the Web API crate accepts it.
pub uninterp spec fn user_json_error(text: Seq<char>) -> Option<Seq<char>>;

/// `u` is a user that reading `text` can give. A relation, not a function of
/// `text`: a user's profile holds a `HashMap`, which each process seeds at
/// random, so two reads of one text need not give equal values.
pub uninterp spec fn user_read_from(text: Seq<char>, u: slack_api::User) -> bool;

/// Reads `text` with `serde_json::from_str::<slack_api::User>`; an error gives
/// its `Display` text. The contract claims that success, and the error text,
/// are functions of `text` (named `user_json_error`), and that a user read is
/// one that `text` can give (`user_read_from`).
#[verifier::external_body]
pub(crate) fn parse_user(text: &str) -> (r: Result<slack_api::User, String>)
    ensures
        match r {
            Ok(u) => user_json_error(text@) is None && user_read_from(text@, u),
            Err(m) => user_json_error(text@) == Some(m@),
        },
{
    match serde_json::from_str::<slack_api::User>(text) {
        Ok(v) => Ok(v),
        Err(e) => Err(e.to_string()),
    }
}

/// Whether field `key` reads as a user, or why not.
pub open spec fn user_field(fs: Seq<FieldView>, key: Seq<char>) -> Result<(), EventErrorView> {
    match json_field(fs, key) {
        Err(e) => Err(e),
        Ok(j) => match user_json_error(j) {
            None => Ok(()),
            Some(m) => Err(EventErrorView::BadField { key, error: m }),
        },
    }
}

/// `u` is a user that field `key` can give.
pub open spec fn user_field_gives(fs: Seq<FieldView>, key: Seq<char>, u: slack_api::User) -> bool {
    json_field(fs, key) matches Ok(j) && user_read_from(j, u)
}

/// Reads field `key` as a user.
pub(crate) fn read_user(fields: &Vec<Field>, key: &str) -> (r: Result<slack_api::User, EventError>)
    ensures
        unit_view(r) == user_field(fields.deep_view(), key@),
        r matches Ok(u) ==> user_field_gives(fields.deep_view(), key@, u),
{
    let i = match find_json(fields, key) {
        Ok(i) => i,
        Err(e) => {
            return Err(e);
        },
    };
    match parse_user(fields[i].3.as_str()) {
        Ok(v) => Ok(v),
        Err(m) => Err(EventError::BadField { key: String::from_str(key), error: m }),
    }
}

/// A field written back as a JSON object member.
pub open spec fn member_text(f: FieldView) -> Seq<char> {
    f.1 + ":"@ + f.3
}

/// Fields written back as the members of a JSON object, in order.
pub open spec fn members_text(fs: Seq<FieldView>) -> Seq<char>
    decreases fs.len(),
{
    if fs.len() == 0 {
        Seq::empty()
    } else if fs.len() == 1 {
        member_text(fs[0])
    } else {
        members_text(fs.drop_last()) + ","@ + member_text(fs.last())
    }
}

/// Fields written back as a JSON object.
pub open spec fn object_text(fs: Seq<FieldView>) -> Seq<char> {
    "{"@ + members_text(fs) + "}"@
}

/// The fields after the leading one, written back as a JSON object.
pub(crate) fn rest_object_text(fields: &Vec<Field>) -> (r: String)
    requires
        fields.len() > 0,
    ensures
        r@ == object_text(fields.deep_view().drop_first()),
{
    let ghost fv = fields.deep_view();
    let ghost rest = fv.drop_first();
    let mut members = String::new();
    let mut i: usize = 1;
    while i < fields.len()
        invariant
            1 <= i <= fields.len(),
            fv == fields.deep_view(),
            rest == fv.drop_first(),
            members@ == members_text(rest.take(i - 1)),
        decreases fields.len() - i,
    {
        assert(rest[i - 1] == fields@[i as int].deep_view());
        assert(rest.take(i as int).drop_last() =~= rest.take(i - 1));
        if i > 1 {
            members.append(",");
        }
        members.append(fields[i].1.as_str());
        members.append(":");
        members.append(fields[i].3.as_str());
        proof {
            if i == 1 {
                assert(members@ =~= member_text(rest.take(i as int)[0]));
            } else {
                assert(members@ =~= members_text(rest.take(i as int)));
            }
        }
        i = i + 1;
    }
    assert(rest.take(i - 1) =~= rest);
    let mut text = String::from_str("{");
    text.append(members.as_str());
    text.append("}");
    assert(text@ =~= object_text(rest));
    text
}

/// What reading JSON text as a channel gives: the value, or the parser's message.
pub uninterp spec fn parsed_channel(text: Seq<char>) -> Result<Channel, Seq<char>>;

/// Reads `text` with `serde_json::from_str::<Channel>`; an error gives its `Display`
/// text. The contract claims that the result is a function of `text`, named
/// `parsed_channel`.
/// Its decoder for the type's timestamps multiplies in 64-bit arithmetic and
/// panics on overflow, so texts that hold a string on which it may overflow
/// are left out.
#[verifier::external_body]
pub(crate) fn parse_channel(text: &str) -> (r: Result<Channel, String>)
    requires
        !holds_timestamp_overflow(text@),
    ensures
        parsed_channel(text@) == error_text_view(r),
{
    match serde_json::from_str::<Channel>(text) {
        Ok(v) => Ok(v),
        Err(e) => Err(e.to_string()),
    }
}

/// Field `key` read as a channel.
pub open spec fn channel_field(fs: Seq<FieldView>, key: Seq<char>) -> Result<Channel, EventErrorView> {
    match json_field(fs, key) {
        Err(e) => Err(e),
        Ok(j) => if holds_timestamp_overflow(j) {
            Err(EventErrorView::TimestampOverflow(Some(key)))
        } else {
            payload(key, parsed_channel(j))
        },
    }
}

/// Reads field `key` as a channel.
pub(crate) fn read_channel(fields: &Vec<Field>, key: &str) -> (r: Result<Channel, EventError>)
    ensures
        error_view(r) == channel_field(fields.deep_view(), key@),
{
    let i = match find_json(fields, key) {
        Ok(i) => i,
        Err(e) => {
            return Err(e);
        },
    };
    if timestamp_may_overflow(fields[i].3.as_str()) {
        return Err(EventError::TimestampOverflow(Some(String::from_str(key))));
    }
    match parse_channel(fields[i].3.as_str()) {
        Ok(v) => Ok(v),
        Err(m) => Err(EventError::BadField { key: String::from_str(key), error: m }),
    }
}

/// What reading JSON text as a file gives: the value, or the parser's message.
pub uninterp spec fn parsed_file(text: Seq<char>) -> Result<File, Seq<char>>;

/// Reads `text` with `serde_json::from_str::<File>`; an error gives its `Display`
/// text. The contract claims that the result is a function of `text`, named
/// `parsed_file`.
/// Its decoder for the type's timestamps multiplies in 64-bit arithmetic and
/// panics on overflow, so texts that hold a string on which it may overflow
/// are left out.
#[verifier::external_body]
pub(crate) fn parse_file(text: &str) -> (r: Result<File, String>)
    requires
        !holds_timestamp_overflow(text@),
    ensures
        parsed_file(text@) == error_text_view(r),
{
    match serde_json::from_str::<File>(text) {
        Ok(v) => Ok(v),
        Err(e) => Err(e.to_string()),
    }
}

/// Field `key` read as a file.
pub open spec fn file_field(fs: Seq<FieldView>, key: Seq<char>) -> Result<File, EventErrorView> {
    match json_field(fs, key) {
        Err(e) => Err(e),
        Ok(j) => if holds_timestamp_overflow(j) {
            Err(EventErrorView::TimestampOverflow(Some(key)))
        } else {
            payload(key, parsed_file(j))
        },
    }
}

/// Reads field `key` as a file.
pub(crate) fn read_file(fields: &Vec<Field>, key: &str) -> (r: Result<File, EventError>)
    ensures
        error_view(r) == file_field(fields.deep_view(), key@),
{
    let i = match find_json(fields, key) {
        Ok(i) => i,
        Err(e) => {
            return Err(e);
        },
    };
    if timestamp_may_overflow(fields[i].3.as_str()) {
        return Err(EventError::TimestampOverflow(Some(String::from_str(key))));
    }
    match parse_file(fields[i].3.as_str()) {
        Ok(v) => Ok(v),
        Err(m) => Err(EventError::BadField { key: String::from_str(key), error: m }),
    }
}

/// What reading JSON text as a file comment gives: the value, or the parser's message.
pub uninterp spec fn parsed_file_comment(text: Seq<char>) -> Result<FileComment, Seq<char>>;

/// Reads `text` with `serde_json::from_str::<FileComment>`; an error gives its `Display`
/// text. The contract claims that the result is a function of `text`, named
/// `parsed_file_comment`.
/// Its decoder for the type's timestamps multiplies in 64-bit arithmetic and
/// panics on overflow, so texts that hold a string on which it may overflow
/// are left out.
#[verifier::external_body]
pub(crate) fn parse_file_comment(text: &str) -> (r: Result<FileComment, String>)
    requires
        !holds_timestamp_overflow(text@),
    ensures
        parsed_file_comment(text@) == error_text_view(r),
{
    match serde_json::from_str::<FileComment>(text) {
        Ok(v) => Ok(v),
        Err(e) => Err(e.to_string()),
    }
}

/// Field `key` read as a file comment.
pub open spec fn file_comment_field(fs: Seq<FieldView>, key: Seq<char>) -> Result<FileComment, EventErrorView> {
    match json_field(fs, key) {
        Err(e) => Err(e),
        Ok(j) => if holds_timestamp_overflow(j) {
            Err(EventErrorView::TimestampOverflow(Some(key)))
        } else {
            payload(key, parsed_file_comment(j))
        },
    }
}

/// Reads field `key` as a file comment.
pub(crate) fn read_file_comment(fields: &Vec<Field>, key: &str) -> (r: Result<FileComment, EventError>)
    ensures
        error_view(r) == file_comment_field(fields.deep_view(), key@),
{
    let i = match find_json(fields, key) {
        Ok(i) => i,
        Err(e) => {
            return Err(e);
        },
    };
    if timestamp_may_overflow(fields[i].3.as_str()) {
        return Err(EventError::TimestampOverflow(Some(String::from_str(key))));
    }
    match parse_file_comment(fields[i].3.as_str()) {
        Ok(v) => Ok(v),
        Err(m) => Err(EventError::BadField { key: String::from_str(key), error: m }),
    }
}

/// What reading JSON text as a pinned item gives: the value, or the parser's message.
pub uninterp spec fn parsed_pinned_item(text: Seq<char>) -> Result<MessagePinnedItem, Seq<char>>;

/// Reads `text` with `serde_json::from_str::<MessagePinnedItem>`; an error gives its `Display`
/// text. The contract claims that the result is a function of `text`, named
/// `parsed_pinned_item`.
/// Its decoder for the type's timestamps multiplies in 64-bit arithmetic and
/// panics on overflow, so texts that hold a string on which it may overflow
/// are left out.
#[verifier::external_body]
pub(crate) fn parse_pinned_item(text: &str) -> (r: Result<MessagePinnedItem, String>)
    requires
        !holds_timestamp_overflow(text@),
    ensures
        parsed_pinned_item(text@) == error_text_view(r),
{
    match serde_json::from_str::<MessagePinnedItem>(text) {
        Ok(v) => Ok(v),
        Err(e) => Err(e.to_string()),
    }
}

/// Field `key` read as a pinned item.
pub open spec fn pinned_item_field(fs: Seq<FieldView>, key: Seq<char>) -> Result<MessagePinnedItem, EventErrorView> {
    match json_field(fs, key) {
        Err(e) => Err(e),
        Ok(j) => if holds_timestamp_overflow(j) {
            Err(EventErrorView::TimestampOverflow(Some(key)))
        } else {
            payload(key, parsed_pinned_item(j))
        },
    }
}

/// Reads field `key` as a pinned item.
pub(crate) fn read_pinned_item(fields: &Vec<Field>, key: &str) -> (r: Result<MessagePinnedItem, EventError>)
    ensures
        error_view(r) == pinned_item_field(fields.deep_view(), key@),
{
    let i = match find_json(fields, key) {
        Ok(i) => i,
        Err(e) => {
            return Err(e);
        },
    };
    if timestamp_may_overflow(fields[i].3.as_str()) {
        return Err(EventError::TimestampOverflow(Some(String::from_str(key))));
    }
    match parse_pinned_item(fields[i].3.as_str()) {
        Ok(v) => Ok(v),
        Err(m) => Err(EventError::BadField { key: String::from_str(key), error: m }),
    }
}

/// What reading JSON text as an unpinned item gives: the value, or the parser's message.
pub uninterp spec fn parsed_unpinned_item(text: Seq<char>) -> Result<MessageUnpinnedItem, Seq<char>>;

/// Reads `text` with `serde_json::from_str::<MessageUnpinnedItem>`; an error gives its `Display`
/// text. The contract claims that the result is a function of `text`, named
/// `parsed_unpinned_item`.
/// Its decoder for the type's timestamps multiplies in 64-bit arithmetic and
/// panics on overflow, so texts that hold a string on which it may overflow
/// are left out.
#[verifier::external_body]
pub(crate) fn parse_unpinned_item(text: &str) -> (r: Result<MessageUnpinnedItem, String>)
    requires
        !holds_timestamp_overflow(text@),
    ensures
        parsed_unpinned_item(text@) == error_text_view(r),
{
    match serde_json::from_str::<MessageUnpinnedItem>(text) {
        Ok(v) => Ok(v),
        Err(e) => Err(e.to_string()),
    }
}

/// Field `key` read as an unpinned item.
pub open spec fn unpinned_item_field(fs: Seq<FieldView>, key: Seq<char>) -> Result<MessageUnpinnedItem, EventErrorView> {
    match json_field(fs, key) {
        Err(e) => Err(e),
        Ok(j) => if holds_timestamp_overflow(j) {
            Err(EventErrorView::TimestampOverflow(Some(key)))
        } else {
            payload(key, parsed_unpinned_item(j))
        },
    }
}

/// Reads field `key` as an unpinned item.
pub(crate) fn read_unpinned_item(fields: &Vec<Field>, key: &str) -> (r: Result<MessageUnpinnedItem, EventError>)
    ensures
        error_view(r) == unpinned_item_field(fields.deep_view(), key@),
{
    let i = match find_json(fields, key) {
        Ok(i) => i,
        Err(e) => {
            return Err(e);
        },
    };
    if timestamp_may_overflow(fields[i].3.as_str()) {
        return Err(EventError::TimestampOverflow(Some(String::from_str(key))));
    }
    match parse_unpinned_item(fields[i].3.as_str()) {
        Ok(v) => Ok(v),
        Err(m) => Err(EventError::BadField { key: String::from_str(key), error: m }),
    }
}

/// What reading JSON text as a bot gives: the value, or the parser's message.
pub uninterp spec fn parsed_bot(text: Seq<char>) -> Result<Bot, Seq<char>>;

/// Reads `text` with `serde_json::from_str::<Bot>`; an error gives its `Display`
/// text. The contract claims that the result is a function of `text`, named
/// `parsed_bot`.
#[verifier::external_body]
pub(crate) fn parse_bot(text: &str) -> (r: Result<Bot, String>)
    ensures
        parsed_bot(text@) == error_text_view(r),
{
    match serde_json::from_str::<Bot>(text) {
        Ok(v) => Ok(v),
        Err(e) => Err(e.to_string()),
    }
}

/// Field `key` read as a bot.
pub open spec fn bot_field(fs: Seq<FieldView>, key: Seq<char>) -> Result<Bot, EventErrorView> {
    match json_field(fs, key) {
        Err(e) => Err(e),
        Ok(j) => payload(key, parsed_bot(j)),
    }
}

/// Reads field `key` as a bot.
pub(crate) fn read_bot(fields: &Vec<Field>, key: &str) -> (r: Result<Bot, EventError>)
    ensures
        error_view(r) == bot_field(fields.deep_view(), key@),
{
    let i = match find_json(fields, key) {
        Ok(i) => i,
        Err(e) => {
            return Err(e);
        },
    };
    match parse_bot(fields[i].3.as_str()) {
        Ok(v) => Ok(v),
        Err(m) => Err(EventError::BadField { key: String::from_str(key), error: m }),
    }
}

/// What reading JSON text as a starred item gives: the value, or the parser's message.
pub uninterp spec fn parsed_star_item(text: Seq<char>) -> Result<slack_api::stars::ListResponseItem, Seq<char>>;

/// Reads `text` with `serde_json::from_str::<slack_api::stars::ListResponseItem>`; an error gives its `Display`
/// text. The contract claims that the result is a function of `text`, named
/// `parsed_star_item`.
/// Its decoder for the type's timestamps multiplies in 64-bit arithmetic and
/// panics on overflow, so texts that hold a string on which it may overflow
/// are left out.
#[verifier::external_body]
pub(crate) fn parse_star_item(text: &str) -> (r: Result<slack_api::stars::ListResponseItem, String>)
    requires
        !holds_timestamp_overflow(text@),
    ensures
        parsed_star_item(text@) == error_text_view(r),
{
    match serde_json::from_str::<slack_api::stars::ListResponseItem>(text) {
        Ok(v) => Ok(v),
        Err(e) => Err(e.to_string()),
    }
}

/// Field `key` read as a starred item.
pub open spec fn star_item_field(fs: Seq<FieldView>, key: Seq<char>) -> Result<slack_api::stars::ListResponseItem, EventErrorView> {
    match json_field(fs, key) {
        Err(e) => Err(e),
        Ok(j) => if holds_timestamp_overflow(j) {
            Err(EventErrorView::TimestampOverflow(Some(key)))
        } else {
            payload(key, parsed_star_item(j))
        },
    }
}

/// Reads field `key` as a starred item.
pub(crate) fn read_star_item(fields: &Vec<Field>, key: &str) -> (r: Result<slack_api::stars::ListResponseItem, EventError>)
    ensures
        error_view(r) == star_item_field(fields.deep_view(), key@),
{
    let i = match find_json(fields, key) {
        Ok(i) => i,
        Err(e) => {
            return Err(e);
        },
    };
    if timestamp_may_overflow(fields[i].3.as_str()) {
        return Err(EventError::TimestampOverflow(Some(String::from_str(key))));
    }
    match parse_star_item(fields[i].3.as_str()) {
        Ok(v) => Ok(v),
        Err(m) => Err(EventError::BadField { key: String::from_str(key), error: m }),
    }
}

/// What reading JSON text as an item with a reaction gives: the value, or the parser's message.
pub uninterp spec fn parsed_reaction_item(text: Seq<char>) -> Result<slack_api::reactions::ListResponseItem, Seq<char>>;

/// Reads `text` with `serde_json::from_str::<slack_api::reactions::ListResponseItem>`; an error gives its `Display`
/// text. The contract claims that the result is a function of `text`, named
/// `parsed_reaction_item`.
/// Its decoder for the type's timestamps multiplies in 64-bit arithmetic and
/// panics on overflow, so texts that hold a string on which it may overflow
/// are left out.
#[verifier::external_body]
pub(crate) fn parse_reaction_item(text: &str) -> (r: Result<slack_api::reactions::ListResponseItem, String>)
    requires
        !holds_timestamp_overflow(text@),
    ensures
        parsed_reaction_item(text@) == error_text_view(r),
{
    match serde_json::from_str::<slack_api::reactions::ListResponseItem>(text) {
        Ok(v) => Ok(v),
        Err(e) => Err(e.to_string()),
    }
}

/// Field `key` read as an item with a reaction.
pub open spec fn reaction_item_field(fs: Seq<FieldView>, key: Seq<char>) -> Result<slack_api::reactions::ListResponseItem, EventErrorView> {
    match json_field(fs, key) {
        Err(e) => Err(e),
        Ok(j) => if holds_timestamp_overflow(j) {
            Err(EventErrorView::TimestampOverflow(Some(key)))
        } else {
            payload(key, parsed_reaction_item(j))
        },
    }
}

/// Reads field `key` as an item with a reaction.
pub(crate) fn read_reaction_item(fields: &Vec<Field>, key: &str) -> (r: Result<slack_api::reactions::ListResponseItem, EventError>)
    ensures
        error_view(r) == reaction_item_field(fields.deep_view(), key@),
{
    let i = match find_json(fields, key) {
        Ok(i) => i,
        Err(e) => {
            return Err(e);
        },
    };
    if timestamp_may_overflow(fields[i].3.as_str()) {
        return Err(EventError::TimestampOverflow(Some(String::from_str(key))));
    }
    match parse_reaction_item(fields[i].3.as_str()) {
        Ok(v) => Ok(v),
        Err(m) => Err(EventError::BadField { key: String::from_str(key), error: m }),
    }
}

/// What reading JSON text as a boolean gives: the value, or the parser's message.
pub uninterp spec fn parsed_bool(text: Seq<char>) -> Result<bool, Seq<char>>;

/// Reads `text` with `serde_json::from_str::<bool>`; an error gives its `Display`
/// text. The contract claims that the result is a function of `text`, named
/// `parsed_bool`.
#[verifier::external_body]
pub(crate) fn parse_bool(text: &str) -> (r: Result<bool, String>)
    ensures
        parsed_bool(text@) == error_text_view(r),
{
    match serde_json::from_str::<bool>(text) {
        Ok(v) => Ok(v),
        Err(e) => Err(e.to_string()),
    }
}

/// Field `key` read as a boolean.
pub open spec fn bool_field(fs: Seq<FieldView>, key: Seq<char>) -> Result<bool, EventErrorView> {
    match json_field(fs, key) {
        Err(e) => Err(e),
        Ok(j) => payload(key, parsed_bool(j)),
    }
}

/// Reads field `key` as a boolean.
pub(crate) fn read_bool(fields: &Vec<Field>, key: &str) -> (r: Result<bool, EventError>)
    ensures
        error_view(r) == bool_field(fields.deep_view(), key@),
{
    let i = match find_json(fields, key) {
        Ok(i) => i,
        Err(e) => {
            return Err(e);
        },
    };
    match parse_bool(fields[i].3.as_str()) {
        Ok(v) => Ok(v),
        Err(m) => Err(EventError::BadField { key: String::from_str(key), error: m }),
    }
}

/// What reading JSON text as a message gives: the value, or the parser's message.
pub uninterp spec fn parsed_message(text: Seq<char>) -> Result<Message, Seq<char>>;

/// Reads `text` with `serde_json::from_str::<Message>`; an error gives its `Display`
/// text. The contract claims that the result is a function of `text`, named
/// `parsed_message`.
/// Its decoder for the type's timestamps multiplies in 64-bit arithmetic and
/// panics on overflow, so texts that hold a string on which it may overflow
/// are left out.
#[verifier::external_body]
pub(crate) fn parse_message(text: &str) -> (r: Result<Message, String>)
    requires
        !holds_timestamp_overflow(text@),
    ensures
        parsed_message(text@) == error_text_view(r),
{
    match serde_json::from_str::<Message>(text) {
        Ok(v) => Ok(v),
        Err(e) => Err(e.to_string()),
    }
}

} // verus!
