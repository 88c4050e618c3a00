//! The `~momo` command: a meme message whose post the user pages through
//! with reactions. The decisions are a state machine from the history of
//! posts and the position shown, and a reaction, to the next state and
//! what to do.

use vstd::prelude::*;
use crate::post::ChildrenData;
use crate::text::str_eq;

verus! {

/// The reaction that goes back to the previous post.
pub const PREV: char = '\u{2b05}';

/// The reaction that fetches another post.
pub const NEXT: char = '\u{27a1}';

/// The reaction for a good meme.
pub const GOOD: char = '\u{1f44c}';

/// The reaction for a bad meme.
pub const BAD: char = '\u{1f44e}';

/// How long, in seconds, reactions to a `~momo` message are collected.
pub const COLLECTOR_DURATION: u64 = 60;

/// What a reaction asks for.
#[derive(Debug, PartialEq, Eq, Structural)]
pub enum ReactionKind {
    Next,
    Prev,
    Other,
}

/// What the command does after a reaction.
#[derive(Debug, PartialEq, Eq, Structural)]
pub enum MomoAction {
    /// Fetch another post and hand it to `MomoBrowser::on_fetched`.
    FetchNext,
    /// Show the current post in place of the one shown.
    Redraw,
    /// Send the reacting user the taunt of `taunt_message`.
    Taunt,
}

/// What the reaction written `rct` asks for.
pub open spec fn reaction_kind(rct: Seq<char>) -> ReactionKind {
    if rct == seq![NEXT] {
        ReactionKind::Next
    } else if rct == seq![PREV] {
        ReactionKind::Prev
    } else {
        ReactionKind::Other
    }
}

/// A history of posts and the position of the one shown.
pub type BrowserView = (Seq<ChildrenData>, nat);

/// The position shown is one of the history.
pub open spec fn browser_valid(v: BrowserView) -> bool {
    v.1 < v.0.len()
}

/// The state and action after a reaction of the given kind: `Next` asks for a
/// post, `Prev` steps back when there is a post before, and anything else
/// (`Prev` on the first post too) is answered with a taunt.
pub open spec fn after_reaction(v: BrowserView, kind: ReactionKind) -> (BrowserView, MomoAction) {
    match kind {
        ReactionKind::Next => (v, MomoAction::FetchNext),
        ReactionKind::Prev => if v.1 > 0 {
            ((v.0, (v.1 - 1) as nat), MomoAction::Redraw)
        } else {
            (v, MomoAction::Taunt)
        },
        ReactionKind::Other => (v, MomoAction::Taunt),
    }
}

/// The state after a fetch for `Next`, and whether the post shown changed: a
/// fetched post goes to the end of the history and the position moves one on;
/// a failed fetch changes nothing.
pub open spec fn after_fetch(v: BrowserView, fetched: Option<ChildrenData>) -> (BrowserView, bool) {
    match fetched {
        Some(p) => ((v.0.push(p), v.1 + 1), true),
        None => (v, false),
    }
}

/// The message sent to a user whose reaction is not understood.
pub open spec fn taunt_text(name: Seq<char>) -> Seq<char> {
    name + " se la come doblada"@
}

/// What the reaction written `rct` asks for.
pub fn classify_reaction(rct: &str) -> (r: ReactionKind)
    ensures
        r == reaction_kind(rct@),
{
    proof {
        reveal_strlit("\u{27a1}");
        reveal_strlit("\u{2b05}");
        assert("\u{27a1}"@ =~= seq![NEXT]);
        assert("\u{2b05}"@ =~= seq![PREV]);
    }
    if str_eq(rct, "\u{27a1}") {
        ReactionKind::Next
    } else if str_eq(rct, "\u{2b05}") {
        ReactionKind::Prev
    } else {
        ReactionKind::Other
    }
}

/// The message sent to the user called `name` whose reaction is not understood.
pub fn taunt_message(name: &str) -> (r: String)
    ensures
        r@ == taunt_text(name@),
{
    let mut s = String::from_str(name);
    s.append(" se la come doblada");
    s
}

/// The posts shown so far by a `~momo` message, and which one it shows.
pub struct MomoBrowser {
    posts: Vec<ChildrenData>,
    index: usize,
}

impl View for MomoBrowser {
    type V = BrowserView;

    closed spec fn view(&self) -> BrowserView {
        (self.posts@, self.index as nat)
    }
}

impl MomoBrowser {
    /// A browser showing `first`, its only post.
    pub fn new(first: ChildrenData) -> (r: Self)
        ensures
            r@ == (seq![first], 0nat),
            browser_valid(r@),
    {
        let mut posts: Vec<ChildrenData> = Vec::new();
        posts.push(first);
        MomoBrowser { posts, index: 0 }
    }

    /// The post shown.
    pub fn current(&self) -> (r: &ChildrenData)
        requires
            browser_valid(self@),
        ensures
            *r == self@.0[self@.1 as int],
    {
        &self.posts[self.index]
    }

    /// The position of the post shown.
    pub fn position(&self) -> (r: usize)
        ensures
            r == self@.1,
    {
        self.index
    }

    /// The number of posts shown so far.
    pub fn len(&self) -> (r: usize)
        ensures
            r == self@.0.len(),
    {
        self.posts.len()
    }

    /// Takes in the reaction written `rct` and says what to do.
    pub fn on_reaction(&mut self, rct: &str) -> (r: MomoAction)
        requires
            browser_valid(old(self)@),
        ensures
            (final(self)@, r) == after_reaction(old(self)@, reaction_kind(rct@)),
            browser_valid(final(self)@),
            rct@ == seq![NEXT] ==> r == MomoAction::FetchNext && final(self)@ == old(self)@,
            rct@ == seq![PREV] && old(self)@.1 > 0 ==> r == MomoAction::Redraw
                && final(self)@.0 == old(self)@.0 && final(self)@.1 + 1 == old(self)@.1,
            rct@ == seq![PREV] && old(self)@.1 == 0 ==> r == MomoAction::Taunt && final(self)@ == old(self)@,
            rct@ != seq![NEXT] && rct@ != seq![PREV] ==> r == MomoAction::Taunt && final(self)@ == old(self)@,
    {
        proof {
            assert(seq![PREV][0] != seq![NEXT][0]);
        }
        match classify_reaction(rct) {
            ReactionKind::Next => MomoAction::FetchNext,
            ReactionKind::Prev => {
                if self.index > 0 {
                    self.index = self.index - 1;
                    MomoAction::Redraw
                } else {
                    MomoAction::Taunt
                }
            },
            ReactionKind::Other => MomoAction::Taunt,
        }
    }

    /// Takes in the outcome of the fetch that `Next` asked for, and says
    /// whether the post shown changed.
    pub fn on_fetched(&mut self, fetched: Option<ChildrenData>) -> (r: bool)
        requires
            browser_valid(old(self)@),
        ensures
            (final(self)@, r) == after_fetch(old(self)@, fetched),
            browser_valid(final(self)@),
            fetched matches Some(p) ==> r && final(self)@.0 == old(self)@.0.push(p)
                && final(self)@.1 == old(self)@.1 + 1,
            fetched is None ==> !r && final(self)@ == old(self)@,
    {
        match fetched {
            Some(p) => {
                let len_before = self.posts.len();
                assert(self.index < len_before);
                self.posts.push(p);
                self.index = self.index + 1;
                true
            },
            None => false,
        }
    }
}

/// Going back after a post was fetched shows again the post that was shown
/// before the fetch.
pub proof fn law_prev_undoes_next(v: BrowserView, p: ChildrenData)
    requires
        browser_valid(v),
    ensures
        ({
            let (w, changed) = after_fetch(v, Some(p));
            let (u, action) = after_reaction(w, ReactionKind::Prev);
            changed && action == MomoAction::Redraw && u.1 == v.1 && u.0[u.1 as int] == v.0[v.1 as int]
        }),
{
}

/// No step changes or drops a post already in the history.
pub proof fn law_history_only_grows(v: BrowserView, kind: ReactionKind, fetched: Option<ChildrenData>)
    ensures
        after_reaction(v, kind).0.0 == v.0,
        after_fetch(v, fetched).0.0.len() >= v.0.len(),
        after_fetch(v, fetched).0.0.subrange(0, v.0.len() as int) == v.0,
{
    assert(after_fetch(v, fetched).0.0.subrange(0, v.0.len() as int) =~= v.0);
}

/// Every step keeps the position shown inside the history.
pub proof fn law_steps_keep_position_valid(v: BrowserView, kind: ReactionKind, fetched: Option<ChildrenData>)
    requires
        browser_valid(v),
    ensures
        browser_valid(after_reaction(v, kind).0),
        browser_valid(after_fetch(v, fetched).0),
{
}

/// `Next` asks for a post whatever post is shown, and changes nothing
/// before the post comes.
pub proof fn law_next_always_fetches(v: BrowserView)
    ensures
        after_reaction(v, ReactionKind::Next).0 == v,
        after_reaction(v, ReactionKind::Next).1 == MomoAction::FetchNext,
{
}

/// A reaction that is neither `Next` nor `Prev` changes nothing and is
/// answered with a taunt, whatever post is shown.
pub proof fn law_other_reaction_only_taunts(v: BrowserView)
    ensures
        after_reaction(v, ReactionKind::Other).0 == v,
        after_reaction(v, ReactionKind::Other).1 == MomoAction::Taunt,
{
}

/// `Prev` moves back by exactly one post when there is one before, and is
/// answered with a taunt on the first post.
pub proof fn law_prev_steps_back_one(v: BrowserView)
    ensures
        v.1 > 0 ==> after_reaction(v, ReactionKind::Prev).0.0 == v.0
            && after_reaction(v, ReactionKind::Prev).0.1 + 1 == v.1
            && after_reaction(v, ReactionKind::Prev).1 == MomoAction::Redraw,
        v.1 == 0 ==> after_reaction(v, ReactionKind::Prev).0 == v
            && after_reaction(v, ReactionKind::Prev).1 == MomoAction::Taunt,
{
}

/// Only `Prev` moves the position shown, only `Prev` redraws, and only
/// `Next` asks for a post.
pub proof fn law_only_prev_moves(v: BrowserView, kind: ReactionKind)
    ensures
        after_reaction(v, kind).0.1 != v.1 ==> kind == ReactionKind::Prev,
        after_reaction(v, kind).1 == MomoAction::Redraw ==> kind == ReactionKind::Prev,
        after_reaction(v, kind).1 == MomoAction::FetchNext <==> kind == ReactionKind::Next,
        after_reaction(v, kind).0.0 == v.0,
{
}

/// The reaction characters: `NEXT` asks for a post, `PREV` for the one
/// before, and the two rating reactions for neither.
pub proof fn law_reaction_characters()
    ensures
        reaction_kind(seq![NEXT]) == ReactionKind::Next,
        reaction_kind(seq![PREV]) == ReactionKind::Prev,
        reaction_kind(seq![GOOD]) == ReactionKind::Other,
        reaction_kind(seq![BAD]) == ReactionKind::Other,
        forall|rct: Seq<char>| rct != seq![NEXT] && rct != seq![PREV] ==> reaction_kind(rct) == ReactionKind::Other,
{
    assert(seq![GOOD] != seq![NEXT] && seq![GOOD] != seq![PREV]) by {
        assert(seq![GOOD][0] != seq![NEXT][0]);
        assert(seq![GOOD][0] != seq![PREV][0]);
    }
    assert(seq![BAD] != seq![NEXT] && seq![BAD] != seq![PREV]) by {
        assert(seq![BAD][0] != seq![NEXT][0]);
        assert(seq![BAD][0] != seq![PREV][0]);
    }
    assert(seq![PREV] != seq![NEXT]) by {
        assert(seq![PREV][0] != seq![NEXT][0]);
    }
}

/// A fetched post goes to the end of the history and the position moves on
/// by one (to the post after the one shown); a failed fetch changes nothing.
pub proof fn law_fetch_appends_and_steps_one(v: BrowserView, fetched: Option<ChildrenData>)
    ensures
        fetched matches Some(p) ==> after_fetch(v, fetched).1
            && after_fetch(v, fetched).0.0 == v.0.push(p)
            && after_fetch(v, fetched).0.1 == v.1 + 1,
        fetched is None ==> !after_fetch(v, fetched).1 && after_fetch(v, fetched).0 == v,
{
}

} // verus!
