//! The `~meme` command: the reply text, the reactions put on it, and the
//! direct messages sent to those who reacted.

use vstd::prelude::*;
use crate::emoji::{reaction_text, Reaction, ReactionStore};
use crate::post::{content_text, ChildrenData};

verus! {

/// The user id of the bot itself.
pub const BOT_ID: u64 = 1010296921274974379;

/// The unicode reaction put on a meme when the custom `halal` emoji is not found.
pub const HALAL_FALLBACK: &'static str = "\u{1f44c}";

/// The unicode reaction put on a meme when the custom `haram` emoji is not found.
pub const HARAM_FALLBACK: &'static str = "\u{1f44e}";

/// The message to those who liked a meme, before the emoji.
pub open spec fn halal_msg() -> Seq<char> {
    "SI TE GUSTO EL MEME SUSCRIBETE"@
}

/// The message to those who disliked a meme, before the emoji.
pub open spec fn haram_msg() -> Seq<char> {
    "NO TE GUSTO EL MEME AHHH?"@
}

/// The message to those who disliked a meme, after the emoji.
pub open spec fn haram_msg_p2() -> Seq<char> {
    "AKI TE VA OTRO\n https://media.discordapp.net/attachments/1010298574241800302/1012487429829169282/FZkBXMiXkAAQLxm.jpeg.jpg?width=556&height=685 "@
}

/// The reply to `~meme` when no post could be fetched.
pub open spec fn no_meme_text() -> Seq<char> {
    ":TrollFace:"@
}

/// The message to a user who reacted to a meme with `halal`.
pub open spec fn positive_response_text(halal: Reaction) -> Seq<char> {
    halal_msg() + " "@ + reaction_text(halal)
}

/// The message to a user who reacted to a meme with `haram`.
pub open spec fn negative_response_text(haram: Reaction) -> Seq<char> {
    haram_msg() + " "@ + reaction_text(haram) + "\n"@ + haram_msg_p2()
}

/// What the bot reads of a message in a channel.
pub struct MessageInfo {
    pub id: u64,
    pub author_id: u64,
    pub referenced_id: Option<u64>,
}

/// Whether `m` is the bot's reply to the message `msg_id`.
pub open spec fn is_bot_reply(m: MessageInfo, msg_id: u64) -> bool {
    m.author_id == BOT_ID && m.referenced_id == Some(msg_id)
}

/// The reply to `~meme`: the post's content, or `:TrollFace:` when no
/// post could be fetched.
pub fn meme_reply_text(post: Option<&ChildrenData>) -> (r: String)
    ensures
        post matches Some(p) ==> r@ == content_text(*p),
        post is None ==> r@ == no_meme_text(),
{
    match post {
        Some(p) => p.content(),
        None => String::from_str(":TrollFace:"),
    }
}

/// The reaction found, or the unicode emoji `fallback` when none was found.
pub fn reaction_or_unicode(found: Option<Reaction>, fallback: &str) -> (r: Reaction)
    ensures
        found matches Some(f) ==> r == f,
        found is None ==> (r matches Reaction::Unicode(s) && s@ == fallback@),
{
    match found {
        Some(f) => f,
        None => Reaction::Unicode(String::from_str(fallback)),
    }
}

/// The position of the first message that is the bot's reply to `msg_id`.
pub fn find_bot_reply(messages: &Vec<MessageInfo>, msg_id: u64) -> (r: Option<usize>)
    ensures
        r matches Some(i) ==> i < messages@.len() && is_bot_reply(messages@[i as int], msg_id)
            && forall|j: int| 0 <= j < i ==> !is_bot_reply(messages@[j], msg_id),
        r is None ==> forall|j: int| 0 <= j < messages@.len() ==> !is_bot_reply(messages@[j], msg_id),
{
    let n = messages.len();
    for i in 0..n
        invariant
            n == messages@.len(),
            forall|j: int| 0 <= j < i ==> !is_bot_reply(messages@[j], msg_id),
    {
        let m = &messages[i];
        let refers = match m.referenced_id {
            Some(r) => r == msg_id,
            None => false,
        };
        if m.author_id == BOT_ID && refers {
            return Some(i);
        }
    }
    None
}

/// Whether a user who reacted gets a direct message: everyone but the bot.
pub open spec fn is_recipient(user_id: u64) -> bool {
    user_id != BOT_ID
}

/// The users among `user_ids` who get a direct message, in order.
pub open spec fn recipients_of(user_ids: Seq<u64>) -> Seq<u64> {
    user_ids.filter(|u: u64| is_recipient(u))
}

/// The users who reacted, in order, without the bot itself.
pub fn dm_recipients(user_ids: &Vec<u64>) -> (r: Vec<u64>)
    ensures
        r@ == recipients_of(user_ids@),
{
    let ghost pred = |u: u64| is_recipient(u);
    let mut r: Vec<u64> = Vec::new();
    let n = user_ids.len();
    for i in 0..n
        invariant
            n == user_ids@.len(),
            pred == (|u: u64| is_recipient(u)),
            r@ == user_ids@.take(i as int).filter(pred),
    {
        if user_ids[i] != BOT_ID {
            r.push(user_ids[i]);
        }
        proof {
            reveal_with_fuel(Seq::<_>::filter, 1);
            assert(user_ids@.take(i + 1).drop_last() =~= user_ids@.take(i as int));
            assert(user_ids@.take(i + 1).last() == user_ids@[i as int]);
        }
    }
    proof {
        assert(user_ids@.take(n as int) =~= user_ids@);
    }
    r
}

/// The bot never sends a direct message to itself.
pub proof fn law_bot_is_never_messaged(user_ids: Seq<u64>)
    ensures
        forall|i: int| 0 <= i < recipients_of(user_ids).len() ==> #[trigger] recipients_of(user_ids)[i] != BOT_ID,
{
    let pred = |u: u64| is_recipient(u);
    assert forall|i: int| 0 <= i < user_ids.filter(pred).len() implies #[trigger] user_ids.filter(pred)[i] != BOT_ID by {
        user_ids.lemma_filter_pred(pred, i);
    }
}

/// The messages sent to those who reacted to a meme with `halal` and with
/// `haram`, made from the reactions stored under those names.
pub fn meme_replies(store: &ReactionStore) -> (r: (String, String))
    requires
        store@.dom().contains("halal"@),
        store@.dom().contains("haram"@),
    ensures
        r.0@ == positive_response_text(store@["halal"@]),
        r.1@ == negative_response_text(store@["haram"@]),
{
    let halal = store.get("halal");
    let haram = store.get("haram");
    match (halal, haram) {
        (Some(halal), Some(haram)) => {
            let mut positive = String::from_str("SI TE GUSTO EL MEME SUSCRIBETE");
            positive.append(" ");
            let halal_text = halal.text();
            positive.append(halal_text.as_str());
            let mut negative = String::from_str("NO TE GUSTO EL MEME AHHH?");
            negative.append(" ");
            let haram_text = haram.text();
            negative.append(haram_text.as_str());
            negative.append("\n");
            negative.append(
                "AKI TE VA OTRO\n https://media.discordapp.net/attachments/1010298574241800302/1012487429829169282/FZkBXMiXkAAQLxm.jpeg.jpg?width=556&height=685 ",
            );
            (positive, negative)
        },
        _ => {
            proof {
                assert(false);
            }
            (String::new(), String::new())
        },
    }
}

/// Only a message by the bot that refers to the given message is its reply:
/// a message by anyone else, or one that refers to another message or to
/// none, is not.
pub proof fn law_bot_reply_needs_author_and_reference(m: MessageInfo, msg_id: u64)
    ensures
        m.author_id != BOT_ID ==> !is_bot_reply(m, msg_id),
        m.referenced_id != Some(msg_id) ==> !is_bot_reply(m, msg_id),
        m.author_id == BOT_ID && m.referenced_id == Some(msg_id) ==> is_bot_reply(m, msg_id),
{
}

/// Everyone who reacted except the bot gets a direct message, and no one
/// else does.
pub proof fn law_every_other_user_is_messaged(user_ids: Seq<u64>, x: u64)
    ensures
        user_ids.contains(x) && x != BOT_ID ==> recipients_of(user_ids).contains(x),
        recipients_of(user_ids).contains(x) ==> user_ids.contains(x) && x != BOT_ID,
{
    let pred = |u: u64| is_recipient(u);
    if user_ids.contains(x) && x != BOT_ID {
        let i = choose|i: int| 0 <= i < user_ids.len() && user_ids[i] == x;
        user_ids.lemma_filter_contains(pred, i);
    }
    if recipients_of(user_ids).contains(x) {
        let i = choose|i: int| 0 <= i < user_ids.filter(pred).len() && user_ids.filter(pred)[i] == x;
        user_ids.lemma_filter_pred(pred, i);
        user_ids.lemma_filter_contains_rev(pred, x);
    }
}

} // verus!
