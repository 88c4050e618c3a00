//! Reddit posts: how a post is shown, which subreddits are drawn from,
//! and which post of a listing is picked.

use vstd::prelude::*;
use rand::seq::SliceRandom;
use crate::text::str_eq;

verus! {

/// The fields of a Reddit post that the bot reads.
pub struct ChildrenData {
    pub title: String,
    pub subreddit: String,
    pub thumbnail: Option<String>,
    pub domain: String,
    pub url: Option<String>,
    pub stickied: bool,
}

/// The characters of an optional string, or nothing when it is absent.
pub open spec fn or_empty(s: Option<String>) -> Seq<char> {
    match s {
        Some(t) => t@,
        None => Seq::empty(),
    }
}

/// The text of a post message: its title in bold, then its link on the next line.
pub open spec fn content_text(post: ChildrenData) -> Seq<char> {
    "**"@ + post.title@ + "**\n "@ + or_empty(post.url)
}

/// The image shown for a post: the thumbnail for a post hosted on
/// `v.redd.it`, the post's link for any other.
pub open spec fn thumbnail_text(post: ChildrenData) -> Seq<char> {
    if post.domain@ == "v.redd.it"@ {
        or_empty(post.thumbnail)
    } else {
        or_empty(post.url)
    }
}

/// The subreddits that posts are drawn from.
pub open spec fn subreddit_names() -> Seq<Seq<char>> {
    seq![
        "okbuddybaka"@,
        "okbuddyretard"@,
        "okbuddyphd"@,
        "yo_ctm"@,
        "dankgentina"@,
        "196"@,
    ]
}

/// The address of Reddit's endpoint for a random post of `subreddit`.
pub open spec fn random_post_url_text(subreddit: Seq<char>) -> Seq<char> {
    "https://www.reddit.com/r/"@ + subreddit + "/random.json"@
}

fn string_or_empty(s: &Option<String>) -> (r: String)
    ensures
        r@ == or_empty(*s),
{
    match s {
        Some(t) => t.clone(),
        None => String::new(),
    }
}

impl ChildrenData {
    /// A post made of the given fields.
    pub fn new(
        title: String,
        subreddit: String,
        thumbnail: Option<String>,
        domain: String,
        url: Option<String>,
        stickied: bool,
    ) -> (r: Self)
        ensures
            r == (ChildrenData { title, subreddit, thumbnail, domain, url, stickied }),
    {
        ChildrenData { title, subreddit, thumbnail, domain, url, stickied }
    }

    /// A copy of the post, field for field.
    pub fn duplicate(&self) -> (r: Self)
        ensures
            r == *self,
    {
        let thumbnail = match &self.thumbnail {
            Some(t) => Some(t.clone()),
            None => None,
        };
        let url = match &self.url {
            Some(u) => Some(u.clone()),
            None => None,
        };
        ChildrenData {
            title: self.title.clone(),
            subreddit: self.subreddit.clone(),
            thumbnail,
            domain: self.domain.clone(),
            url,
            stickied: self.stickied,
        }
    }

    /// The message text for the post: `**title**`, a newline, a space and the
    /// link (empty when the post has none).
    pub fn content(&self) -> (r: String)
        ensures
            r@ == content_text(*self),
            r@ == "**"@ + self.title@ + "**\n "@ + or_empty(self.url),
    {
        let mut s = String::from_str("**");
        s.append(self.title.as_str());
        s.append("**\n ");
        let url = string_or_empty(&self.url);
        s.append(url.as_str());
        s
    }

    /// The post as `(title, subreddit, thumbnail, url)`, with an absent link
    /// given as the empty string and the thumbnail chosen by `thumbnail_text`.
    pub fn unpack(&self) -> (r: (String, String, String, String))
        ensures
            r.0@ == self.title@,
            r.1@ == self.subreddit@,
            r.2@ == thumbnail_text(*self),
            r.3@ == or_empty(self.url),
            self.domain@ == "v.redd.it"@ ==> r.2@ == or_empty(self.thumbnail),
            self.domain@ != "v.redd.it"@ ==> r.2@ == r.3@,
    {
        let url = string_or_empty(&self.url);
        let thumbnail = if str_eq(self.domain.as_str(), "v.redd.it") {
            string_or_empty(&self.thumbnail)
        } else {
            url.clone()
        };
        (self.title.clone(), self.subreddit.clone(), thumbnail, url)
    }
}

/// `rand`'s `SliceRandom::choose` with the thread-local generator: `None`
/// for an empty slice, otherwise one element of the slice, chosen at random.
/// Which element comes back is left unsaid: it rests on chance.
#[verifier::external_body]
fn choose_random<T>(items: &[T]) -> (r: Option<&T>)
    ensures
        r is None <==> items@.len() == 0,
        r matches Some(x) ==> items@.contains(*x),
{
    items.choose(&mut rand::thread_rng())
}

/// The subreddits that posts are drawn from, in a fixed order.
pub fn subreddit_options() -> (r: Vec<&'static str>)
    ensures
        r@.len() == subreddit_names().len(),
        forall|i: int| 0 <= i < r@.len() ==> #[trigger] r@[i]@ == subreddit_names()[i],
{
    vec!["okbuddybaka", "okbuddyretard", "okbuddyphd", "yo_ctm", "dankgentina", "196"]
}

/// One of the subreddits of `subreddit_options`, chosen at random.
pub fn get_random_sr_name() -> (r: &'static str)
    ensures
        subreddit_names().contains(r@),
{
    let options = subreddit_options();
    match choose_random(options.as_slice()) {
        Some(name) => {
            proof {
                let i = choose|i: int| 0 <= i < options@.len() && options@[i] == *name;
                assert(subreddit_names()[i] == name@);
            }
            *name
        },
        None => {
            proof {
                assert(false);
            }
            options[0]
        },
    }
}

/// The address of Reddit's random-post endpoint for `subreddit`.
pub fn random_post_url(subreddit: &str) -> (r: String)
    ensures
        r@ == random_post_url_text(subreddit@),
{
    let mut s = String::from_str("https://www.reddit.com/r/");
    s.append(subreddit);
    s.append("/random.json");
    s
}

/// The positions, in increasing order, of the posts that are not stickied.
pub fn non_stickied_indices(children: &Vec<ChildrenData>) -> (r: Vec<usize>)
    ensures
        forall|k: int| 0 <= k < r@.len() ==> r@[k] < children@.len() && !children@[r@[k] as int].stickied,
        forall|k: int, l: int| 0 <= k < l < r@.len() ==> r@[k] < r@[l],
        forall|i: int| 0 <= i < children@.len() && !children@[i].stickied ==> r@.contains(i as usize),
{
    let mut r: Vec<usize> = Vec::new();
    let n = children.len();
    for i in 0..n
        invariant
            n == children@.len(),
            forall|k: int| 0 <= k < r@.len() ==> r@[k] < i && !children@[r@[k] as int].stickied,
            forall|k: int, l: int| 0 <= k < l < r@.len() ==> r@[k] < r@[l],
            forall|j: int| 0 <= j < i && !children@[j].stickied ==> r@.contains(j as usize),
    {
        let ghost old_r = r@;
        if !children[i].stickied {
            r.push(i);
            proof {
                assert(r@[r@.len() - 1] == i);
            }
        }
        proof {
            assert forall|j: int| 0 <= j < i + 1 && !children@[j].stickied implies r@.contains(j as usize) by {
                if j == i {
                    assert(r@[r@.len() - 1] == i);
                } else {
                    let k = choose|k: int| 0 <= k < old_r.len() && old_r[k] == j as usize;
                    assert(r@[k] == j as usize);
                }
            }
        }
    }
    r
}

/// A post of the listing that is not stickied, chosen at random. The
/// listing must hold such a post: the draw is repeated until one comes up.
pub fn pick_post(children: &Vec<ChildrenData>) -> (r: ChildrenData)
    requires
        exists|i: int| 0 <= i < children@.len() && !children@[i].stickied,
    ensures
        children@.contains(r),
        !r.stickied,
{
    let candidates = non_stickied_indices(children);
    match choose_random(candidates.as_slice()) {
        Some(i) => {
            let p = children[*i].duplicate();
            proof {
                let k = choose|k: int| 0 <= k < candidates@.len() && candidates@[k] == *i;
                assert(children@[*i as int] == p);
            }
            p
        },
        None => {
            proof {
                let i = choose|i: int| 0 <= i < children@.len() && !children@[i].stickied;
                assert(candidates@.contains(i as usize));
                assert(false);
            }
            children[0].duplicate()
        },
    }
}

/// The content of a post is its title in bold, a newline, a space and
/// its link: the link is the post's own (empty when absent), whatever the
/// domain or thumbnail.
pub proof fn law_content_is_title_then_link(p: ChildrenData)
    ensures
        content_text(p) == "**"@ + p.title@ + "**\n "@ + or_empty(p.url),
        content_text(p).len() == 2 + p.title@.len() + 4 + or_empty(p.url).len(),
        content_text(p).subrange(2, 2 + p.title@.len() as int) == p.title@,
        content_text(p).subrange(content_text(p).len() - or_empty(p.url).len(), content_text(p).len() as int)
            == or_empty(p.url),
{
    reveal_strlit("**");
    reveal_strlit("**\n ");
    let t = content_text(p);
    assert(t.subrange(2, 2 + p.title@.len() as int) =~= p.title@);
    assert(t.subrange(t.len() - or_empty(p.url).len(), t.len() as int) =~= or_empty(p.url));
}

/// Two posts with the same title and link have the same content, whatever
/// their domains, thumbnails, subreddits or stickiness.
pub proof fn law_content_ignores_domain_and_thumbnail(p: ChildrenData, q: ChildrenData)
    requires
        p.title@ == q.title@,
        or_empty(p.url) == or_empty(q.url),
    ensures
        content_text(p) == content_text(q),
{
}

/// The image of a post hosted on `v.redd.it` is its thumbnail (empty when
/// absent); the image of any other post is its link (empty when absent).
pub proof fn law_thumbnail_by_domain(p: ChildrenData)
    ensures
        p.domain@ == "v.redd.it"@ ==> thumbnail_text(p) == or_empty(p.thumbnail),
        p.domain@ != "v.redd.it"@ ==> thumbnail_text(p) == or_empty(p.url),
{
}

} // verus!
