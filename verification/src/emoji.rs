//! Emojis and reactions: how they are written in a message, which custom
//! emojis the bot knows, and the store of reactions it uses.

use vstd::prelude::*;
use crate::post::or_empty;
use crate::table::NamedTable;
use crate::text::{decimal, decimal_string, str_eq};

verus! {

/// The id of the custom emoji `haram`.
pub const HARAM_EMOJI_ID: u64 = 953465443312623706;

/// The id of the custom emoji `halal`.
pub const HALAL_EMOJI_ID: u64 = 953465392607690752;

/// The id of the custom emoji `kaos`.
pub const KAOS_EMOJI_ID: u64 = 957368542423052288;

/// The guild whose custom emojis the bot reacts with.
pub const EMOJI_GUILD_ID: u64 = 555183947244634112;

/// A reaction: a custom emoji of a guild, or a unicode emoji.
pub enum Reaction {
    Custom { animated: bool, id: u64, name: Option<String> },
    Unicode(String),
}

/// A custom emoji of a guild.
pub struct GuildEmoji {
    pub animated: bool,
    pub id: u64,
    pub name: String,
}

/// How a custom emoji is written in a message: `<:name:id>`, or
/// `<a:name:id>` for an animated one.
pub open spec fn custom_emoji_text(animated: bool, name: Seq<char>, id: u64) -> Seq<char> {
    (if animated { "<a:"@ } else { "<:"@ }) + name + ":"@ + decimal(id as nat) + ">"@
}

/// How a reaction is written in a message: a custom emoji as
/// `custom_emoji_text` (an absent name as the empty name), a unicode emoji
/// as itself.
pub open spec fn reaction_text(r: Reaction) -> Seq<char> {
    match r {
        Reaction::Custom { animated, id, name } => custom_emoji_text(animated, or_empty(name), id),
        Reaction::Unicode(s) => s@,
    }
}

/// How a guild emoji is written in a message.
pub open spec fn emoji_text(e: GuildEmoji) -> Seq<char> {
    custom_emoji_text(e.animated, e.name@, e.id)
}

/// The id of the custom emoji that the bot knows by `name`.
pub open spec fn known_emoji_id(name: Seq<char>) -> Option<u64> {
    if name == "haram"@ {
        Some(HARAM_EMOJI_ID)
    } else if name == "halal"@ {
        Some(HALAL_EMOJI_ID)
    } else if name == "kaos"@ {
        Some(KAOS_EMOJI_ID)
    } else {
        None
    }
}

/// The reply to `~emojix` when no emoji of that name was found.
pub open spec fn emoji_not_found_text() -> Seq<char> {
    "xd"@
}

fn custom_text(animated: bool, name: &str, id: u64) -> (r: String)
    ensures
        r@ == custom_emoji_text(animated, name@, id),
{
    let mut s = if animated {
        String::from_str("<a:")
    } else {
        String::from_str("<:")
    };
    s.append(name);
    s.append(":");
    let digits = decimal_string(id);
    s.append(digits.as_str());
    s.append(">");
    s
}

impl Reaction {
    /// The reaction as it is written in a message.
    pub fn text(&self) -> (r: String)
        ensures
            r@ == reaction_text(*self),
    {
        match self {
            Reaction::Custom { animated, id, name } => {
                match name {
                    Some(n) => custom_text(*animated, n.as_str(), *id),
                    None => {
                        let empty = String::new();
                        custom_text(*animated, empty.as_str(), *id)
                    },
                }
            },
            Reaction::Unicode(s) => s.clone(),
        }
    }
}

impl GuildEmoji {
    /// The emoji as it is written in a message.
    pub fn text(&self) -> (r: String)
        ensures
            r@ == emoji_text(*self),
    {
        custom_text(self.animated, self.name.as_str(), self.id)
    }
}

/// The id of the custom emoji that the bot knows by `name`, if it knows one.
pub fn emoji_id_for_name(name: &str) -> (r: Option<u64>)
    ensures
        r == known_emoji_id(name@),
{
    if str_eq(name, "haram") {
        Some(HARAM_EMOJI_ID)
    } else if str_eq(name, "halal") {
        Some(HALAL_EMOJI_ID)
    } else if str_eq(name, "kaos") {
        Some(KAOS_EMOJI_ID)
    } else {
        None
    }
}

/// The position of the first emoji named `name`, if there is one.
pub fn find_emoji_by_name(emojis: &Vec<GuildEmoji>, name: &str) -> (r: Option<usize>)
    ensures
        r matches Some(i) ==> i < emojis@.len() && emojis@[i as int].name@ == name@
            && forall|j: int| 0 <= j < i ==> emojis@[j].name@ != name@,
        r is None ==> forall|j: int| 0 <= j < emojis@.len() ==> emojis@[j].name@ != name@,
{
    let n = emojis.len();
    for i in 0..n
        invariant
            n == emojis@.len(),
            forall|j: int| 0 <= j < i ==> emojis@[j].name@ != name@,
    {
        if str_eq(emojis[i].name.as_str(), name) {
            return Some(i);
        }
    }
    None
}

/// The reply to `~emojix <name>`: the first of the guild's emojis named
/// `name`, written as in a message, or `xd` when there is none.
pub fn emojix_reply(emojis: &Vec<GuildEmoji>, name: &str) -> (r: String)
    ensures
        (forall|j: int| 0 <= j < emojis@.len() ==> emojis@[j].name@ != name@) ==> r@ == emoji_not_found_text(),
        forall|i: int|
            0 <= i < emojis@.len() && emojis@[i].name@ == name@
                && (forall|j: int| 0 <= j < i ==> emojis@[j].name@ != name@)
                ==> r@ == emoji_text(emojis@[i]),
{
    match find_emoji_by_name(emojis, name) {
        Some(i) => emojis[i].text(),
        None => String::from_str("xd"),
    }
}

/// Whether `r` is the custom, not animated emoji `name` with id `id`.
pub open spec fn is_custom_emoji(r: Reaction, name: Seq<char>, id: u64) -> bool {
    &&& r matches Reaction::Custom { animated, id: rid, name: rname }
    &&& !animated
    &&& rid == id
    &&& rname is Some
    &&& or_empty(rname) == name
}

/// Whether the store holds the reactions that `init_emojis` puts in it.
pub open spec fn emojis_initialized(m: Map<Seq<char>, Reaction>) -> bool {
    &&& m.dom().contains("haram"@)
    &&& m.dom().contains("halal"@)
    &&& is_custom_emoji(m["haram"@], "haram"@, HARAM_EMOJI_ID)
    &&& is_custom_emoji(m["halal"@], "halal"@, HALAL_EMOJI_ID)
}

/// The reactions the bot stores, by name.
pub struct ReactionStore {
    reactions: NamedTable<Reaction>,
}

impl View for ReactionStore {
    type V = Map<Seq<char>, Reaction>;

    closed spec fn view(&self) -> Map<Seq<char>, Reaction> {
        self.reactions@
    }
}

impl ReactionStore {
    /// A store holds reactions under finitely many names.
    pub proof fn lemma_reactions_finite(&self)
        ensures
            self@.dom().finite(),
    {
        self.reactions.lemma_contents_finite();
    }

    /// A store with no reaction.
    pub fn new() -> (r: Self)
        ensures
            r@ == Map::<Seq<char>, Reaction>::empty(),
    {
        ReactionStore { reactions: NamedTable::new() }
    }

    /// The reaction stored under `name`, if any.
    pub fn get(&self, name: &str) -> (r: Option<&Reaction>)
        ensures
            r is Some <==> self@.dom().contains(name@),
            r matches Some(v) ==> *v == self@[name@],
    {
        self.reactions.get(name)
    }

    /// Stores `reaction` under `name`, replacing what was stored there.
    pub fn insert(&mut self, name: &str, reaction: Reaction)
        ensures
            final(self)@ == old(self)@.insert(name@, reaction),
    {
        self.reactions.insert(name, reaction);
    }
}

/// Stores the custom emojis `haram` and `halal` under their names.
pub fn init_emojis(store: &mut ReactionStore)
    ensures
        emojis_initialized(final(store)@),
        final(store)@.dom() == old(store)@.dom().insert("haram"@).insert("halal"@),
        forall|k: Seq<char>| k != "haram"@ && k != "halal"@ ==>
            (#[trigger] final(store)@.dom().contains(k) == old(store)@.dom().contains(k)
                && (old(store)@.dom().contains(k) ==> final(store)@[k] == old(store)@[k])),
{
    proof {
        reveal_strlit("haram");
        reveal_strlit("halal");
        assert("haram"@[2] != "halal"@[2]);
    }
    let haram = Reaction::Custom { animated: false, id: HARAM_EMOJI_ID, name: Some(String::from_str("haram")) };
    store.insert("haram", haram);
    let halal = Reaction::Custom { animated: false, id: HALAL_EMOJI_ID, name: Some(String::from_str("halal")) };
    store.insert("halal", halal);
}

/// A read of the store gives back the reaction last stored under that
/// name, and storing under one name leaves every other name as it was.
pub proof fn law_store_read_after_write(m: Map<Seq<char>, Reaction>, name: Seq<char>, r: Reaction, other: Seq<char>)
    ensures
        m.insert(name, r).dom().contains(name),
        m.insert(name, r)[name] == r,
        other != name ==> (m.insert(name, r).dom().contains(other) == m.dom().contains(other)),
        other != name && m.dom().contains(other) ==> m.insert(name, r)[other] == m[other],
{
}

/// After `init_emojis` the store holds what `meme_replies` needs, and the
/// emojis are written with their names and ids.
pub proof fn law_init_enables_meme_replies(m: Map<Seq<char>, Reaction>)
    requires
        emojis_initialized(m),
    ensures
        m.dom().contains("halal"@),
        m.dom().contains("haram"@),
        reaction_text(m["halal"@]) == "<:"@ + "halal"@ + ":"@ + decimal(HALAL_EMOJI_ID as nat) + ">"@,
        reaction_text(m["haram"@]) == "<:"@ + "haram"@ + ":"@ + decimal(HARAM_EMOJI_ID as nat) + ">"@,
{
}

/// A custom reaction is written as the guild emoji of the same name, id and
/// animation.
pub proof fn law_reaction_text_matches_emoji_text(e: GuildEmoji, name: Option<String>)
    requires
        name matches Some(n) && n@ == e.name@,
    ensures
        reaction_text(Reaction::Custom { animated: e.animated, id: e.id, name }) == emoji_text(e),
{
}

/// A unicode reaction is written as itself; a custom one as `<`, `a` when
/// animated, `:`, its name (empty when absent), `:`, its id in decimal and `>`.
pub proof fn law_reaction_written_form(r: Reaction)
    ensures
        r matches Reaction::Unicode(s) ==> reaction_text(r) == s@,
        r matches Reaction::Custom { animated, id, name } ==> reaction_text(r)
            == (if animated { "<a:"@ } else { "<:"@ }) + or_empty(name) + ":"@ + decimal(id as nat) + ">"@,
{
}

} // verus!
