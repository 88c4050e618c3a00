use memebot::emoji::{
    emoji_id_for_name, emojix_reply, find_emoji_by_name, init_emojis, GuildEmoji, Reaction,
    ReactionStore, HALAL_EMOJI_ID, HARAM_EMOJI_ID, KAOS_EMOJI_ID,
};

fn emoji(name: &str, id: u64, animated: bool) -> GuildEmoji {
    GuildEmoji { animated, id, name: name.to_string() }
}

#[test]
fn custom_reaction_text() {
    let r = Reaction::Custom { animated: false, id: 953465392607690752, name: Some("halal".to_string()) };
    assert_eq!(r.text(), "<:halal:953465392607690752>");
}

#[test]
fn animated_reaction_text() {
    let r = Reaction::Custom { animated: true, id: 5, name: Some("dance".to_string()) };
    assert_eq!(r.text(), "<a:dance:5>");
}

#[test]
fn nameless_custom_reaction_text() {
    let r = Reaction::Custom { animated: false, id: 12, name: None };
    assert_eq!(r.text(), "<::12>");
}

#[test]
fn unicode_reaction_text() {
    let r = Reaction::Unicode("\u{1f44c}".to_string());
    assert_eq!(r.text(), "\u{1f44c}");
}

#[test]
fn guild_emoji_text_matches_custom_reaction() {
    let e = emoji("kaos", 957368542423052288, false);
    let r = Reaction::Custom { animated: false, id: 957368542423052288, name: Some("kaos".to_string()) };
    assert_eq!(e.text(), "<:kaos:957368542423052288>");
    assert_eq!(e.text(), r.text());
    assert_eq!(emoji("party", 1, true).text(), "<a:party:1>");
}

#[test]
fn known_emoji_ids() {
    assert_eq!(emoji_id_for_name("haram"), Some(HARAM_EMOJI_ID));
    assert_eq!(emoji_id_for_name("halal"), Some(HALAL_EMOJI_ID));
    assert_eq!(emoji_id_for_name("kaos"), Some(KAOS_EMOJI_ID));
    assert_eq!(emoji_id_for_name("other"), None);
    assert_eq!(HARAM_EMOJI_ID, 953465443312623706);
    assert_eq!(HALAL_EMOJI_ID, 953465392607690752);
    assert_eq!(KAOS_EMOJI_ID, 957368542423052288);
}

#[test]
fn find_emoji_by_name_takes_the_first_match() {
    let emojis = vec![emoji("a", 1, false), emoji("b", 2, false), emoji("b", 3, true)];
    assert_eq!(find_emoji_by_name(&emojis, "b"), Some(1));
    assert_eq!(find_emoji_by_name(&emojis, "c"), None);
}

#[test]
fn emojix_reply_writes_the_emoji_or_xd() {
    let emojis = vec![emoji("cat", 77, false), emoji("dog", 88, true)];
    assert_eq!(emojix_reply(&emojis, "dog"), "<a:dog:88>");
    assert_eq!(emojix_reply(&emojis, "cow"), "xd");
    assert_eq!(emojix_reply(&Vec::new(), "cat"), "xd");
}

#[test]
fn reaction_store_get_after_insert() {
    let mut store = ReactionStore::new();
    assert!(store.get("x").is_none());
    store.insert("x", Reaction::Unicode("1".to_string()));
    store.insert("y", Reaction::Unicode("2".to_string()));
    store.insert("x", Reaction::Unicode("3".to_string()));
    assert_eq!(store.get("x").unwrap().text(), "3");
    assert_eq!(store.get("y").unwrap().text(), "2");
    assert!(store.get("z").is_none());
}

#[test]
fn init_emojis_stores_haram_and_halal() {
    let mut store = ReactionStore::new();
    store.insert("kaos", Reaction::Unicode("k".to_string()));
    init_emojis(&mut store);
    assert_eq!(store.get("haram").unwrap().text(), "<:haram:953465443312623706>");
    assert_eq!(store.get("halal").unwrap().text(), "<:halal:953465392607690752>");
    assert_eq!(store.get("kaos").unwrap().text(), "k");
}
