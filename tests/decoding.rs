use topgg::decimal::{parse_u64, push_decimal};
use topgg::{
    decode_bot, decode_user, decode_votes, has_voted, parse_ids, social_link, JsonBot, JsonUser,
    PartialJsonUser,
};

fn strings(items: &[&str]) -> Vec<String> {
    items.iter().map(|s| s.to_string()).collect()
}

fn bot_fixture(owners: &[&str], guilds: &[&str], donate: &str) -> JsonBot {
    JsonBot {
        id: "668701133069352961".to_string(),
        username: "Example".to_string(),
        discriminator: "1234".to_string(),
        avatar: Some("abc".to_string()),
        def_avatar: "0".to_string(),
        lib: "serenity".to_string(),
        prefix: "!".to_string(),
        shortdesc: "short".to_string(),
        longdesc: None,
        tags: strings(&["fun", "music"]),
        website: None,
        support: Some("invite".to_string()),
        github: None,
        owners: strings(owners),
        guilds: strings(guilds),
        invite: None,
        date: "2020-01-01T00:00:00.000Z".to_string(),
        certified_bot: true,
        vanity: Some("example".to_string()),
        points: 42,
        monthly_points: 7,
        donatebotguildid: donate.to_string(),
    }
}

fn user_fixture(id: &str, social: &[(&str, &str)]) -> JsonUser {
    JsonUser {
        id: id.to_string(),
        username: "someone".to_string(),
        discriminator: "0001".to_string(),
        avatar: None,
        def_avatar: "1".to_string(),
        bio: Some("hello".to_string()),
        banner: None,
        social: social.iter().map(|(k, v)| (k.to_string(), v.to_string())).collect(),
        color: Some("#ffffff".to_string()),
        supporter: true,
        certified_dev: false,
        moderator: true,
        web_mod: false,
        admin: false,
    }
}

fn partial(id: &str) -> PartialJsonUser {
    PartialJsonUser {
        id: id.to_string(),
        username: "voter".to_string(),
        discriminator: "0002".to_string(),
        avatar: None,
    }
}

fn decimal(n: u64) -> String {
    let mut s = String::new();
    push_decimal(&mut s, n);
    s
}

#[test]
fn owner_and_guild_ids_round_trip() {
    let raw = bot_fixture(
        &["195512978634833920", "0", "18446744073709551615", "007"],
        &["264445053596991498", "110373943822540800"],
        "264445053596991498",
    );
    let bot = decode_bot(raw).expect("the fixture decodes");
    assert_eq!(bot.owners, vec![195512978634833920, 0, 18446744073709551615, 7]);
    assert_eq!(bot.guilds, vec![264445053596991498, 110373943822540800]);
    let owners_again: Vec<String> = bot.owners.iter().map(|n| decimal(*n)).collect();
    let guilds_again: Vec<String> = bot.guilds.iter().map(|n| decimal(*n)).collect();
    assert_eq!(parse_ids(&owners_again), Some(bot.owners.clone()));
    assert_eq!(parse_ids(&guilds_again), Some(bot.guilds.clone()));
}

#[test]
fn bot_fields_are_carried_over() {
    let bot = decode_bot(bot_fixture(&["1"], &[], "5")).expect("the fixture decodes");
    assert_eq!(bot.id, 668701133069352961);
    assert_eq!(bot.username, "Example");
    assert_eq!(bot.short_desc, "short");
    assert_eq!(bot.tags, strings(&["fun", "music"]));
    assert_eq!(bot.support, Some("invite".to_string()));
    assert!(bot.certified_bot);
    assert_eq!(bot.points, 42);
    assert_eq!(bot.monthly_points, 7);
    assert_eq!(bot.donate_bot_guild_id, Some(5));
    assert!(bot.guilds.is_empty());
}

#[test]
fn non_numeric_donation_guild_is_absent() {
    let bot = decode_bot(bot_fixture(&["1"], &["2"], "not a number")).expect("still decodes");
    assert_eq!(bot.donate_bot_guild_id, None);
    let bot = decode_bot(bot_fixture(&["1"], &["2"], "")).expect("still decodes");
    assert_eq!(bot.donate_bot_guild_id, None);
}

#[test]
fn zero_donation_guild_is_present() {
    let bot = decode_bot(bot_fixture(&["1"], &["2"], "0")).expect("decodes");
    assert_eq!(bot.donate_bot_guild_id, Some(0));
}

#[test]
fn bad_owner_id_fails_the_bot() {
    assert!(decode_bot(bot_fixture(&["1", "x"], &["2"], "0")).is_none());
    assert!(decode_bot(bot_fixture(&["1"], &["18446744073709551616"], "0")).is_none());
    let mut raw = bot_fixture(&["1"], &["2"], "0");
    raw.id = "-1".to_string();
    assert!(decode_bot(raw).is_none());
}

#[test]
fn missing_twitter_is_absent() {
    let user = decode_user(user_fixture("195512978634833920", &[("youtube", "yt"), ("github", "gh")]))
        .expect("decodes");
    assert_eq!(user.twitter, None);
    assert_eq!(user.youtube, Some("yt".to_string()));
    assert_eq!(user.github, Some("gh".to_string()));
    assert_eq!(user.reddit, None);
    assert_eq!(user.instagram, None);
}

#[test]
fn present_twitter_is_kept_exactly() {
    let user = decode_user(user_fixture("7", &[("mastodon", "m"), ("twitter", "  @Someone ")]))
        .expect("decodes");
    assert_eq!(user.twitter, Some("  @Someone ".to_string()));
    assert_eq!(user.id, 7);
    assert_eq!(user.bio, Some("hello".to_string()));
    assert!(user.supporter);
    assert!(user.moderator);
    assert!(!user.web_moderator);
}

#[test]
fn user_with_bad_id_fails() {
    assert!(decode_user(user_fixture("abc", &[])).is_none());
}

#[test]
fn social_link_is_exact_on_keys() {
    let social = vec![
        ("Twitter".to_string(), "upper".to_string()),
        ("twitter".to_string(), "lower".to_string()),
    ];
    assert_eq!(social_link(&social, "twitter"), Some("lower".to_string()));
    assert_eq!(social_link(&social, "twit"), None);
    assert_eq!(social_link(&Vec::new(), "twitter"), None);
}

#[test]
fn vote_check_flags() {
    assert!(!has_voted(0));
    assert!(has_voted(1));
    assert!(has_voted(-1));
    assert!(has_voted(127));
    assert!(has_voted(-128));
}

#[test]
fn voter_ids_keep_their_order() {
    let users = vec![partial("3"), partial("1"), partial("2")];
    assert_eq!(decode_votes(&users), Some(vec![3, 1, 2]));
    assert_eq!(decode_votes(&Vec::new()), Some(Vec::new()));
    let users = vec![partial("3"), partial("oops")];
    assert_eq!(decode_votes(&users), None);
}

#[test]
fn decimal_id_parsing() {
    assert_eq!(parse_u64("0"), Some(0));
    assert_eq!(parse_u64("42"), Some(42));
    assert_eq!(parse_u64("+42"), Some(42));
    assert_eq!(parse_u64("0042"), Some(42));
    assert_eq!(parse_u64("18446744073709551615"), Some(u64::MAX));
    assert_eq!(parse_u64("18446744073709551616"), None);
    assert_eq!(parse_u64("99999999999999999999"), None);
    assert_eq!(parse_u64(""), None);
    assert_eq!(parse_u64("+"), None);
    assert_eq!(parse_u64("-1"), None);
    assert_eq!(parse_u64(" 1"), None);
    assert_eq!(parse_u64("1a"), None);
    assert_eq!(parse_u64("١"), None);
}

#[test]
fn decimal_rendering() {
    assert_eq!(decimal(0), "0");
    assert_eq!(decimal(9), "9");
    assert_eq!(decimal(10), "10");
    assert_eq!(decimal(668701133069352961), "668701133069352961");
    assert_eq!(decimal(u64::MAX), "18446744073709551615");
}
