use memebot::momo::{
    classify_reaction, taunt_message, MomoAction, MomoBrowser, ReactionKind, BAD, COLLECTOR_DURATION,
    GOOD, NEXT, PREV,
};
use memebot::post::ChildrenData;

fn post(title: &str) -> ChildrenData {
    ChildrenData::new(title.to_string(), "196".to_string(), None, "d".to_string(), None, false)
}

#[test]
fn reaction_constants() {
    assert_eq!(PREV, '\u{2b05}');
    assert_eq!(NEXT, '\u{27a1}');
    assert_eq!(GOOD, '\u{1f44c}');
    assert_eq!(BAD, '\u{1f44e}');
    assert_eq!(COLLECTOR_DURATION, 60);
}

#[test]
fn classify_reactions() {
    assert_eq!(classify_reaction(&NEXT.to_string()), ReactionKind::Next);
    assert_eq!(classify_reaction(&PREV.to_string()), ReactionKind::Prev);
    assert_eq!(classify_reaction(&GOOD.to_string()), ReactionKind::Other);
    assert_eq!(classify_reaction(""), ReactionKind::Other);
}

#[test]
fn taunt_message_names_the_user() {
    assert_eq!(taunt_message("bob"), "bob se la come doblada");
}

#[test]
fn new_browser_shows_first_post() {
    let b = MomoBrowser::new(post("first"));
    assert_eq!(b.current().title, "first");
    assert_eq!(b.position(), 0);
    assert_eq!(b.len(), 1);
}

#[test]
fn prev_on_first_post_taunts() {
    let mut b = MomoBrowser::new(post("first"));
    assert_eq!(b.on_reaction(&PREV.to_string()), MomoAction::Taunt);
    assert_eq!(b.position(), 0);
}

#[test]
fn other_reactions_taunt() {
    let mut b = MomoBrowser::new(post("first"));
    assert_eq!(b.on_reaction(&GOOD.to_string()), MomoAction::Taunt);
    assert_eq!(b.on_reaction(&BAD.to_string()), MomoAction::Taunt);
    assert_eq!(b.position(), 0);
}

#[test]
fn next_then_fetch_moves_on() {
    let mut b = MomoBrowser::new(post("first"));
    assert_eq!(b.on_reaction(&NEXT.to_string()), MomoAction::FetchNext);
    assert_eq!(b.position(), 0);
    assert!(b.on_fetched(Some(post("second"))));
    assert_eq!(b.position(), 1);
    assert_eq!(b.current().title, "second");
}

#[test]
fn failed_fetch_changes_nothing() {
    let mut b = MomoBrowser::new(post("first"));
    assert_eq!(b.on_reaction(&NEXT.to_string()), MomoAction::FetchNext);
    assert!(!b.on_fetched(None));
    assert_eq!(b.position(), 0);
    assert_eq!(b.len(), 1);
}

#[test]
fn prev_undoes_next() {
    let mut b = MomoBrowser::new(post("first"));
    b.on_reaction(&NEXT.to_string());
    b.on_fetched(Some(post("second")));
    assert_eq!(b.on_reaction(&PREV.to_string()), MomoAction::Redraw);
    assert_eq!(b.current().title, "first");
}

#[test]
fn next_after_going_back_moves_one_on_and_appends() {
    let mut b = MomoBrowser::new(post("a"));
    b.on_reaction(&NEXT.to_string());
    b.on_fetched(Some(post("b")));
    b.on_reaction(&PREV.to_string());
    b.on_reaction(&NEXT.to_string());
    assert!(b.on_fetched(Some(post("c"))));
    assert_eq!(b.len(), 3);
    assert_eq!(b.position(), 1);
    assert_eq!(b.current().title, "b");
}
