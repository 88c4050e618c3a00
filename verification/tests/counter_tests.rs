use memebot::counter::{command_usage_reply, missing_argument_reply, usage_reply, CommandCounter};
use memebot::hooks::{before, follow_up, FollowUp};
use memebot::text::{decimal_string, str_eq};

#[test]
fn fresh_counter_reports_zero() {
    let c = CommandCounter::new();
    assert_eq!(c.usage("ping"), 0);
}

#[test]
fn record_adds_one_to_its_own_command_only() {
    let mut c = CommandCounter::new();
    c.record("ping");
    c.record("ping");
    c.record("meme");
    assert_eq!(c.usage("ping"), 2);
    assert_eq!(c.usage("meme"), 1);
    assert_eq!(c.usage("momo"), 0);
}

#[test]
fn before_counts_and_lets_the_command_run() {
    let mut c = CommandCounter::new();
    assert!(before(&mut c, "momo"));
    assert!(before(&mut c, "momo"));
    assert_eq!(c.usage("momo"), 2);
}

#[test]
fn usage_reply_for_unused_command() {
    assert_eq!(usage_reply("ping", 0), "The command `ping` has not yet been used.");
}

#[test]
fn usage_reply_for_used_command() {
    assert_eq!(usage_reply("ping", 3), "The command `ping` has been used 3 time/s this session!");
}

#[test]
fn command_usage_reply_without_argument() {
    let c = CommandCounter::new();
    assert_eq!(command_usage_reply(&c, None), "I require an argument to run this command.");
}

#[test]
fn command_usage_reply_reads_the_counter() {
    let mut c = CommandCounter::new();
    assert_eq!(
        command_usage_reply(&c, Some("meme")),
        "The command `meme` has not yet been used."
    );
    c.record("meme");
    assert_eq!(
        command_usage_reply(&c, Some("meme")),
        "The command `meme` has been used 1 time/s this session!"
    );
}

#[test]
fn decimal_string_renders_like_display() {
    for n in [0u64, 7, 10, 42, 100, 953465443312623706, u64::MAX] {
        assert_eq!(decimal_string(n), n.to_string());
    }
}

#[test]
fn str_eq_compares_characters() {
    assert!(str_eq("meme", "meme"));
    assert!(!str_eq("meme", "momo"));
    assert!(!str_eq("", "a"));
}

#[test]
fn follow_up_routes_successful_commands() {
    assert_eq!(follow_up("meme", true), FollowUp::MemeReactions);
    assert_eq!(follow_up("momo", true), FollowUp::MomoCleanup);
    assert_eq!(follow_up("ping", true), FollowUp::Nothing);
    assert_eq!(follow_up("meme", false), FollowUp::Nothing);
    assert_eq!(follow_up("momo", false), FollowUp::Nothing);
}

#[test]
fn missing_argument_reply_text() {
    assert_eq!(missing_argument_reply(), "I require an argument to run this command.");
}

#[test]
fn runs_in_any_order_give_the_same_counts() {
    let mut a = CommandCounter::new();
    let mut b = CommandCounter::new();
    for name in ["meme", "ping", "meme", "momo"] {
        before(&mut a, name);
    }
    for name in ["momo", "meme", "meme", "ping"] {
        before(&mut b, name);
    }
    for name in ["meme", "ping", "momo", "other"] {
        assert_eq!(a.usage(name), b.usage(name));
    }
    assert_eq!(a.usage("meme") + a.usage("ping") + a.usage("momo"), 4);
    assert_eq!(
        command_usage_reply(&a, Some("meme")),
        "The command `meme` has been used 2 time/s this session!"
    );
}
