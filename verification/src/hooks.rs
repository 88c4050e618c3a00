//! What the bot does around every command: counting it before it runs,
//! and the follow-up work after it ran.

use vstd::prelude::*;
use crate::counter::{recorded, usage_count, CommandCounter};
use crate::text::str_eq;

verus! {

/// The work that follows a command.
#[derive(Debug, PartialEq, Eq, Structural)]
pub enum FollowUp {
    /// Answer the reactions to the meme just posted.
    MemeReactions,
    /// Take the paging reactions off the `~momo` message.
    MomoCleanup,
    /// Nothing more.
    Nothing,
}

/// The work that follows the command `name`: only a command that succeeded
/// is followed up, `meme` by answering reactions, `momo` by cleaning up.
pub open spec fn follow_up_for(name: Seq<char>, succeeded: bool) -> FollowUp {
    if !succeeded {
        FollowUp::Nothing
    } else if name == "meme"@ {
        FollowUp::MemeReactions
    } else if name == "momo"@ {
        FollowUp::MomoCleanup
    } else {
        FollowUp::Nothing
    }
}

/// Counts one more run of the command `name`; every command goes on to run.
pub fn before(counter: &mut CommandCounter, name: &str) -> (r: bool)
    requires
        usage_count(old(counter)@, name@) < u64::MAX,
    ensures
        r,
        final(counter)@ == recorded(old(counter)@, name@),
{
    counter.record(name);
    true
}

/// The work that follows the command `name`, which succeeded or not.
pub fn follow_up(name: &str, succeeded: bool) -> (r: FollowUp)
    ensures
        r == follow_up_for(name@, succeeded),
        r == FollowUp::MemeReactions <==> succeeded && name@ == "meme"@,
        r == FollowUp::MomoCleanup <==> succeeded && name@ == "momo"@,
        r == FollowUp::Nothing <==> !succeeded || (name@ != "meme"@ && name@ != "momo"@),
{
    proof {
        reveal_strlit("meme");
        reveal_strlit("momo");
        assert("meme"@[1] != "momo"@[1]);
    }
    if !succeeded {
        FollowUp::Nothing
    } else if str_eq(name, "meme") {
        FollowUp::MemeReactions
    } else if str_eq(name, "momo") {
        FollowUp::MomoCleanup
    } else {
        FollowUp::Nothing
    }
}

/// Only a successful `meme` is followed by answering reactions, only a
/// successful `momo` by the clean-up, and every other command, and every
/// failed one, by nothing.
pub proof fn law_follow_up_only_for_meme_and_momo(name: Seq<char>, succeeded: bool)
    ensures
        follow_up_for(name, succeeded) == FollowUp::MemeReactions <==> succeeded && name == "meme"@,
        follow_up_for(name, succeeded) == FollowUp::MomoCleanup <==> succeeded && name == "momo"@,
        follow_up_for(name, succeeded) == FollowUp::Nothing <==> !succeeded || (name != "meme"@ && name != "momo"@),
{
    reveal_strlit("meme");
    reveal_strlit("momo");
    assert("meme"@[1] != "momo"@[1]);
}

} // verus!
