use memebot::post::{
    get_random_sr_name, non_stickied_indices, pick_post, random_post_url, subreddit_options,
    ChildrenData,
};

fn post(title: &str, domain: &str, thumbnail: Option<&str>, url: Option<&str>, stickied: bool) -> ChildrenData {
    ChildrenData::new(
        title.to_string(),
        "okbuddyphd".to_string(),
        thumbnail.map(|t| t.to_string()),
        domain.to_string(),
        url.map(|u| u.to_string()),
        stickied,
    )
}

#[test]
fn content_shows_bold_title_and_link() {
    let p = post("Hello", "i.redd.it", None, Some("https://i.redd.it/x.png"), false);
    assert_eq!(p.content(), "**Hello**\n https://i.redd.it/x.png");
}

#[test]
fn content_without_link_ends_after_space() {
    let p = post("Only title", "self.okbuddyphd", None, None, false);
    assert_eq!(p.content(), "**Only title**\n ");
}

#[test]
fn unpack_uses_thumbnail_for_reddit_video() {
    let p = post("Video", "v.redd.it", Some("https://thumb/1.jpg"), Some("https://v.redd.it/abc"), false);
    let (title, subreddit, thumbnail, url) = p.unpack();
    assert_eq!(title, "Video");
    assert_eq!(subreddit, "okbuddyphd");
    assert_eq!(thumbnail, "https://thumb/1.jpg");
    assert_eq!(url, "https://v.redd.it/abc");
}

#[test]
fn unpack_reddit_video_without_thumbnail_gives_empty_image() {
    let p = post("Video", "v.redd.it", None, Some("https://v.redd.it/abc"), false);
    let (_, _, thumbnail, _) = p.unpack();
    assert_eq!(thumbnail, "");
}

#[test]
fn unpack_uses_link_as_image_for_other_domains() {
    let p = post("Pic", "i.redd.it", Some("https://thumb/2.jpg"), Some("https://i.redd.it/p.png"), false);
    let (_, _, thumbnail, url) = p.unpack();
    assert_eq!(thumbnail, "https://i.redd.it/p.png");
    assert_eq!(url, "https://i.redd.it/p.png");
}

#[test]
fn unpack_without_link_gives_empty_strings() {
    let p = post("Nothing", "i.redd.it", Some("https://thumb/3.jpg"), None, false);
    let (_, _, thumbnail, url) = p.unpack();
    assert_eq!(thumbnail, "");
    assert_eq!(url, "");
}

#[test]
fn subreddit_options_are_the_six_subreddits() {
    assert_eq!(
        subreddit_options(),
        vec!["okbuddybaka", "okbuddyretard", "okbuddyphd", "yo_ctm", "dankgentina", "196"]
    );
}

#[test]
fn random_subreddit_is_one_of_the_options() {
    let options = subreddit_options();
    for _ in 0..50 {
        let name = get_random_sr_name();
        assert!(options.contains(&name));
    }
}

#[test]
fn random_post_url_points_at_random_json() {
    assert_eq!(random_post_url("196"), "https://www.reddit.com/r/196/random.json");
}

#[test]
fn non_stickied_indices_skips_stickied_posts() {
    let children = vec![
        post("a", "d", None, None, true),
        post("b", "d", None, None, false),
        post("c", "d", None, None, true),
        post("d", "d", None, None, false),
    ];
    assert_eq!(non_stickied_indices(&children), vec![1, 3]);
}

#[test]
fn pick_post_returns_the_only_non_stickied_post() {
    let children = vec![
        post("pinned", "d", None, None, true),
        post("meme", "d", None, Some("https://x"), false),
        post("rules", "d", None, None, true),
    ];
    for _ in 0..20 {
        let picked = pick_post(&children);
        assert_eq!(picked.title, "meme");
        assert!(!picked.stickied);
    }
}

#[test]
fn pick_post_never_returns_a_stickied_post() {
    let children = vec![
        post("x", "d", None, None, false),
        post("pinned", "d", None, None, true),
        post("y", "d", None, None, false),
    ];
    for _ in 0..50 {
        let picked = pick_post(&children);
        assert!(picked.title == "x" || picked.title == "y");
    }
}

#[test]
fn duplicate_keeps_every_field() {
    let p = post("t", "v.redd.it", Some("th"), Some("u"), true);
    let q = p.duplicate();
    assert_eq!(q.title, "t");
    assert_eq!(q.subreddit, "okbuddyphd");
    assert_eq!(q.thumbnail.as_deref(), Some("th"));
    assert_eq!(q.domain, "v.redd.it");
    assert_eq!(q.url.as_deref(), Some("u"));
    assert!(q.stickied);
}
