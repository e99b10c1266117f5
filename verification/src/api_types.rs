//! Types of the Slack Web API crate that events carry through unchanged.

use vstd::prelude::*;

verus! {

/// A chat message as the Slack Web API crate models it.
#[verifier::external_type_specification]
#[verifier::external_body]
pub struct ExMessage(slack_api::Message);

/// A channel as the Slack Web API crate models it.
#[verifier::external_type_specification]
#[verifier::external_body]
pub struct ExChannel(slack_api::Channel);

/// A shared file as the Slack Web API crate models it.
#[verifier::external_type_specification]
#[verifier::external_body]
pub struct ExFile(slack_api::File);

/// A comment on a file as the Slack Web API crate models it.
#[verifier::external_type_specification]
#[verifier::external_body]
pub struct ExFileComment(slack_api::FileComment);

/// A user as the Slack Web API crate models it.
#[verifier::external_type_specification]
#[verifier::external_body]
pub struct ExUser(slack_api::User);

/// A bot integration as the Slack Web API crate models it.
#[verifier::external_type_specification]
#[verifier::external_body]
pub struct ExBot(slack_api::Bot);

/// The item of a `pinned_item` message.
#[verifier::external_type_specification]
#[verifier::external_body]
pub struct ExMessagePinnedItem(slack_api::MessagePinnedItem);

/// The item of an `unpinned_item` message.
#[verifier::external_type_specification]
#[verifier::external_body]
pub struct ExMessageUnpinnedItem(slack_api::MessageUnpinnedItem);

/// A starred item.
#[verifier::external_type_specification]
#[verifier::external_body]
pub struct ExStarsListResponseItem(slack_api::stars::ListResponseItem);

/// An item that carries a reaction.
#[verifier::external_type_specification]
#[verifier::external_body]
pub struct ExReactionsListResponseItem(slack_api::reactions::ListResponseItem);

/// `Clone::clone` of the message type, which `derive(Clone)` writes from
/// clones of its fields; the contract claims that the copy equals the value cloned.
pub assume_specification[ <slack_api::Message as Clone>::clone ](v: &slack_api::Message) -> (r: slack_api::Message)
    ensures
        r == *v,
;

/// `Clone::clone` of the channel type, which `derive(Clone)` writes from
/// clones of its fields; the contract claims that the copy equals the value cloned.
pub assume_specification[ <slack_api::Channel as Clone>::clone ](v: &slack_api::Channel) -> (r: slack_api::Channel)
    ensures
        r == *v,
;

/// `Clone::clone` of the file type, which `derive(Clone)` writes from
/// clones of its fields; the contract claims that the copy equals the value cloned.
pub assume_specification[ <slack_api::File as Clone>::clone ](v: &slack_api::File) -> (r: slack_api::File)
    ensures
        r == *v,
;

/// `Clone::clone` of the file comment type, which `derive(Clone)` writes from
/// clones of its fields; the contract claims that the copy equals the value cloned.
pub assume_specification[ <slack_api::FileComment as Clone>::clone ](v: &slack_api::FileComment) -> (r: slack_api::FileComment)
    ensures
        r == *v,
;

/// `Clone::clone` of the user type, which `derive(Clone)` writes from
/// clones of its fields; the contract claims that the copy equals the value cloned.
pub assume_specification[ <slack_api::User as Clone>::clone ](v: &slack_api::User) -> (r: slack_api::User)
    ensures
        r == *v,
;

/// `Clone::clone` of the bot type, which `derive(Clone)` writes from
/// clones of its fields; the contract claims that the copy equals the value cloned.
pub assume_specification[ <slack_api::Bot as Clone>::clone ](v: &slack_api::Bot) -> (r: slack_api::Bot)
    ensures
        r == *v,
;

/// `Clone::clone` of the pinned item type, which `derive(Clone)` writes from
/// clones of its fields; the contract claims that the copy equals the value cloned.
pub assume_specification[ <slack_api::MessagePinnedItem as Clone>::clone ](v: &slack_api::MessagePinnedItem) -> (r: slack_api::MessagePinnedItem)
    ensures
        r == *v,
;

/// `Clone::clone` of the unpinned item type, which `derive(Clone)` writes from
/// clones of its fields; the contract claims that the copy equals the value cloned.
pub assume_specification[ <slack_api::MessageUnpinnedItem as Clone>::clone ](v: &slack_api::MessageUnpinnedItem) -> (r: slack_api::MessageUnpinnedItem)
    ensures
        r == *v,
;

/// `Clone::clone` of the starred item type, which `derive(Clone)` writes from
/// clones of its fields; the contract claims that the copy equals the value cloned.
pub assume_specification[ <slack_api::stars::ListResponseItem as Clone>::clone ](v: &slack_api::stars::ListResponseItem) -> (r: slack_api::stars::ListResponseItem)
    ensures
        r == *v,
;

/// `Clone::clone` of the reacted item type, which `derive(Clone)` writes from
/// clones of its fields; the contract claims that the copy equals the value cloned.
pub assume_specification[ <slack_api::reactions::ListResponseItem as Clone>::clone ](v: &slack_api::reactions::ListResponseItem) -> (r: slack_api::reactions::ListResponseItem)
    ensures
        r == *v,
;

} // verus!
