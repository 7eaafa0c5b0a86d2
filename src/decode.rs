use vstd::prelude::*;
use crate::decimal::{decimal_of, is_digit, lemma_parse_decimal_of, parse_decimal, parse_u64, unsigned_part};
use crate::models::{Bot, JsonBot, JsonUser, PartialJsonUser, User};

verus! {

/// The character sequences of a list of strings.
pub open spec fn views(ss: Seq<String>) -> Seq<Seq<char>> {
    ss.map_values(|s: String| s@)
}

/// The character sequence of an optional string.
pub open spec fn opt_view(o: Option<String>) -> Option<Seq<char>> {
    match o {
        Some(s) => Some(s@),
        None => None,
    }
}

/// Whether every string of `ss` is a decimal ID.
pub open spec fn all_ids(ss: Seq<Seq<char>>) -> bool {
    forall|i: int| 0 <= i < ss.len() ==> (#[trigger] parse_decimal(ss[i])) is Some
}

/// The IDs that the strings of `ss` spell, in order.
pub open spec fn ids_of(ss: Seq<Seq<char>>) -> Seq<u64> {
    ss.map_values(|s: Seq<char>| parse_decimal(s)->0)
}

/// A list of decimal IDs decoded: every ID in order, or nothing when one of
/// them is no ID.
pub open spec fn parse_id_list(ss: Seq<Seq<char>>) -> Option<Seq<u64>> {
    if all_ids(ss) {
        Some(ids_of(ss))
    } else {
        None
    }
}

/// IDs written out in decimal, in order.
pub open spec fn encode_ids(ids: Seq<u64>) -> Seq<Seq<char>> {
    ids.map_values(|n: u64| decimal_of(n as nat))
}

/// The IDs of a list of short user records as sent.
pub open spec fn partial_ids(users: Seq<PartialJsonUser>) -> Seq<Seq<char>> {
    users.map_values(|u: PartialJsonUser| u.id@)
}

/// The value of the first entry of `social` whose key is `key`.
pub open spec fn social_value(social: Seq<(String, String)>, key: Seq<char>) -> Option<Seq<char>>
    decreases social.len(),
{
    if social.len() == 0 {
        None
    } else if social[0].0@ == key {
        Some(social[0].1@)
    } else {
        social_value(social.drop_first(), key)
    }
}

/// Whether `b` is the bot profile `raw` with its IDs read as numbers.
pub open spec fn decoded_bot(raw: JsonBot, b: Bot) -> bool {
    &&& parse_decimal(raw.id@) == Some(b.id)
    &&& b.username == raw.username
    &&& b.discriminator == raw.discriminator
    &&& b.avatar == raw.avatar
    &&& b.def_avatar == raw.def_avatar
    &&& b.lib == raw.lib
    &&& b.prefix == raw.prefix
    &&& b.short_desc == raw.shortdesc
    &&& b.long_desc == raw.longdesc
    &&& b.tags == raw.tags
    &&& b.website == raw.website
    &&& b.support == raw.support
    &&& b.github == raw.github
    &&& parse_id_list(views(raw.owners@)) == Some(b.owners@)
    &&& parse_id_list(views(raw.guilds@)) == Some(b.guilds@)
    &&& b.invite == raw.invite
    &&& b.date == raw.date
    &&& b.certified_bot == raw.certified_bot
    &&& b.vanity == raw.vanity
    &&& b.points == raw.points
    &&& b.monthly_points == raw.monthly_points
    &&& b.donate_bot_guild_id == parse_decimal(raw.donatebotguildid@)
}

/// Whether a bot profile as sent can be decoded: its own ID and every owner
/// and guild ID are decimal IDs. The donation guild ID does not count.
pub open spec fn bot_decodable(raw: JsonBot) -> bool {
    &&& parse_decimal(raw.id@) is Some
    &&& all_ids(views(raw.owners@))
    &&& all_ids(views(raw.guilds@))
}

/// Whether `u` is the user profile `raw` with its ID read as a number and
/// the known social links looked up by key.
pub open spec fn decoded_user(raw: JsonUser, u: User) -> bool {
    &&& parse_decimal(raw.id@) == Some(u.id)
    &&& u.username == raw.username
    &&& u.discriminator == raw.discriminator
    &&& u.avatar == raw.avatar
    &&& u.def_avatar == raw.def_avatar
    &&& u.bio == raw.bio
    &&& u.banner == raw.banner
    &&& opt_view(u.youtube) == social_value(raw.social@, "youtube"@)
    &&& opt_view(u.reddit) == social_value(raw.social@, "reddit"@)
    &&& opt_view(u.twitter) == social_value(raw.social@, "twitter"@)
    &&& opt_view(u.instagram) == social_value(raw.social@, "instagram"@)
    &&& opt_view(u.github) == social_value(raw.social@, "github"@)
    &&& u.color == raw.color
    &&& u.supporter == raw.supporter
    &&& u.certified_dev == raw.certified_dev
    &&& u.moderator == raw.moderator
    &&& u.web_moderator == raw.web_mod
    &&& u.admin == raw.admin
}

/// Reads a list of decimal IDs, keeping their order; `None` when any of them
/// is no ID.
pub fn parse_ids(ss: &Vec<String>) -> (r: Option<Vec<u64>>)
    ensures
        opt_seq(r) == parse_id_list(views(ss@)),
{
    let mut out: Vec<u64> = Vec::new();
    let mut i: usize = 0;
    while i < ss.len()
        invariant
            i <= ss@.len(),
            all_ids(views(ss@).subrange(0, i as int)),
            out@ == ids_of(views(ss@).subrange(0, i as int)),
        decreases ss@.len() - i,
    {
        let id = parse_u64(ss[i].as_str());
        match id {
            None => {
                assert(parse_decimal(views(ss@)[i as int]) is None);
                return None;
            },
            Some(n) => {
                out.push(n);
                proof {
                    let pre = views(ss@).subrange(0, i as int + 1);
                    assert(pre =~= views(ss@).subrange(0, i as int).push(ss@[i as int]@));
                    assert(out@ =~= ids_of(pre));
                }
            },
        }
        i = i + 1;
    }
    assert(views(ss@).subrange(0, i as int) =~= views(ss@));
    Some(out)
}

/// The sequence held by an optional `Vec`.
pub open spec fn opt_seq(o: Option<Vec<u64>>) -> Option<Seq<u64>> {
    match o {
        Some(v) => Some(v@),
        None => None,
    }
}

/// Looks up `key` in the entries of a social mapping.
pub fn social_link(social: &Vec<(String, String)>, key: &str) -> (r: Option<String>)
    ensures
        opt_view(r) == social_value(social@, key@),
{
    let k = String::from_str(key);
    let mut i: usize = 0;
    assert(social@.subrange(0, social@.len() as int) =~= social@);
    while i < social.len()
        invariant
            i <= social@.len(),
            k@ == key@,
            social_value(social@, key@) == social_value(social@.subrange(i as int, social@.len() as int), key@),
        decreases social@.len() - i,
    {
        let ghost rest = social@.subrange(i as int, social@.len() as int);
        assert(rest.drop_first() =~= social@.subrange(i as int + 1, social@.len() as int));
        if social[i].0 == k {
            return Some(social[i].1.clone());
        }
        i = i + 1;
    }
    None
}

/// Decodes a bot profile. It fails when the bot's ID or an owner or guild ID
/// is no decimal ID; a donation guild ID that is none decodes as absent.
pub fn decode_bot(raw: JsonBot) -> (r: Option<Bot>)
    ensures
        r is Some <==> bot_decodable(raw),
        r matches Some(b) ==> decoded_bot(raw, b),
{
    let id = match parse_u64(raw.id.as_str()) {
        Some(n) => n,
        None => return None,
    };
    let owners = match parse_ids(&raw.owners) {
        Some(v) => v,
        None => return None,
    };
    let guilds = match parse_ids(&raw.guilds) {
        Some(v) => v,
        None => return None,
    };
    let donate_bot_guild_id = parse_u64(raw.donatebotguildid.as_str());
    Some(
        Bot {
            id,
            username: raw.username,
            discriminator: raw.discriminator,
            avatar: raw.avatar,
            def_avatar: raw.def_avatar,
            lib: raw.lib,
            prefix: raw.prefix,
            short_desc: raw.shortdesc,
            long_desc: raw.longdesc,
            tags: raw.tags,
            website: raw.website,
            support: raw.support,
            github: raw.github,
            owners,
            guilds,
            invite: raw.invite,
            date: raw.date,
            certified_bot: raw.certified_bot,
            vanity: raw.vanity,
            points: raw.points,
            monthly_points: raw.monthly_points,
            donate_bot_guild_id,
        },
    )
}

/// Decodes a user profile. It fails when the user's ID is no decimal ID.
pub fn decode_user(raw: JsonUser) -> (r: Option<User>)
    ensures
        r is Some <==> parse_decimal(raw.id@) is Some,
        r matches Some(u) ==> decoded_user(raw, u),
{
    let id = match parse_u64(raw.id.as_str()) {
        Some(n) => n,
        None => return None,
    };
    let youtube = social_link(&raw.social, "youtube");
    let reddit = social_link(&raw.social, "reddit");
    let twitter = social_link(&raw.social, "twitter");
    let instagram = social_link(&raw.social, "instagram");
    let github = social_link(&raw.social, "github");
    Some(
        User {
            id,
            username: raw.username,
            discriminator: raw.discriminator,
            avatar: raw.avatar,
            def_avatar: raw.def_avatar,
            bio: raw.bio,
            banner: raw.banner,
            youtube,
            reddit,
            twitter,
            instagram,
            github,
            color: raw.color,
            supporter: raw.supporter,
            certified_dev: raw.certified_dev,
            moderator: raw.moderator,
            web_moderator: raw.web_mod,
            admin: raw.admin,
        },
    )
}

/// The IDs of the users in a vote list, in order; `None` when one of them is
/// no decimal ID.
pub fn decode_votes(users: &Vec<PartialJsonUser>) -> (r: Option<Vec<u64>>)
    ensures
        opt_seq(r) == parse_id_list(partial_ids(users@)),
{
    let mut out: Vec<u64> = Vec::new();
    let mut i: usize = 0;
    while i < users.len()
        invariant
            i <= users@.len(),
            all_ids(partial_ids(users@).subrange(0, i as int)),
            out@ == ids_of(partial_ids(users@).subrange(0, i as int)),
        decreases users@.len() - i,
    {
        let id = parse_u64(users[i].id.as_str());
        match id {
            None => {
                assert(parse_decimal(partial_ids(users@)[i as int]) is None);
                return None;
            },
            Some(n) => {
                out.push(n);
                proof {
                    let pre = partial_ids(users@).subrange(0, i as int + 1);
                    assert(pre =~= partial_ids(users@).subrange(0, i as int).push(users@[i as int].id@));
                    assert(out@ =~= ids_of(pre));
                }
            },
        }
        i = i + 1;
    }
    assert(partial_ids(users@).subrange(0, i as int) =~= partial_ids(users@));
    Some(out)
}

/// Whether a vote-check flag from the wire means the user has voted: zero
/// means no, any other value yes.
pub fn has_voted(flag: i8) -> (r: bool)
    ensures
        r == (flag != 0),
{
    flag != 0
}

/// Writing a list of IDs out in decimal and decoding it again gives the same
/// IDs in the same order.
pub proof fn lemma_id_list_round_trip(ids: Seq<u64>)
    ensures
        parse_id_list(encode_ids(ids)) == Some(ids),
{
    let enc = encode_ids(ids);
    assert forall|i: int| 0 <= i < enc.len() implies (#[trigger] parse_decimal(enc[i])) == Some(ids[i]) by {
        lemma_parse_decimal_of(ids[i]);
    }
    assert(ids_of(enc) =~= ids);
}

/// The owner and guild IDs of a decoded bot profile, written out in decimal
/// and decoded again, come back as the same IDs in the same order, and are
/// the IDs that the profile was sent with.
pub proof fn lemma_bot_ids_round_trip(raw: JsonBot, b: Bot)
    requires
        decoded_bot(raw, b),
    ensures
        parse_id_list(encode_ids(b.owners@)) == Some(b.owners@),
        parse_id_list(encode_ids(b.guilds@)) == Some(b.guilds@),
        b.owners@ == ids_of(views(raw.owners@)),
        b.guilds@ == ids_of(views(raw.guilds@)),
{
    lemma_id_list_round_trip(b.owners@);
    lemma_id_list_round_trip(b.guilds@);
}

/// A donation guild ID with a character that is no digit (a leading `+`
/// aside), or with no digit at all, decodes as absent. The profile decodes
/// all the same: whether it decodes does not depend on that field.
pub proof fn lemma_non_numeric_donation_guild_is_absent(raw: JsonBot, b: Bot)
    requires
        decoded_bot(raw, b),
        unsigned_part(raw.donatebotguildid@).len() == 0 || exists|i: int|
            0 <= i < unsigned_part(raw.donatebotguildid@).len() && !is_digit(
                #[trigger] unsigned_part(raw.donatebotguildid@)[i],
            ),
    ensures
        b.donate_bot_guild_id is None,
{
}

/// Whether no two entries of `social` have the same key, as in any mapping.
pub open spec fn distinct_keys(social: Seq<(String, String)>) -> bool {
    forall|i: int, j: int|
        0 <= i < j < social.len() ==> (#[trigger] social[i]).0@ != (#[trigger] social[j]).0@
}

proof fn lemma_social_value(social: Seq<(String, String)>, key: Seq<char>)
    ensures
        (forall|j: int| 0 <= j < social.len() ==> (#[trigger] social[j]).0@ != key) ==> social_value(
            social,
            key,
        ) is None,
        forall|i: int|
            0 <= i < social.len() && (#[trigger] social[i]).0@ == key && (forall|j: int|
                0 <= j < i ==> (#[trigger] social[j]).0@ != key) ==> social_value(social, key) == Some(
                social[i].1@,
            ),
    decreases social.len(),
{
    if social.len() > 0 {
        let rest = social.drop_first();
        lemma_social_value(rest, key);
        assert forall|i: int|
            0 <= i < social.len() && (#[trigger] social[i]).0@ == key && (forall|j: int|
                0 <= j < i ==> (#[trigger] social[j]).0@ != key) implies social_value(social, key)
            == Some(social[i].1@) by {
            if i > 0 {
                assert(social[0].0@ != key);
                assert(rest[i - 1] == social[i]);
                assert forall|j: int| 0 <= j < i - 1 implies (#[trigger] rest[j]).0@ != key by {
                    assert(rest[j] == social[j + 1]);
                }
            }
        }
        if forall|j: int| 0 <= j < social.len() ==> (#[trigger] social[j]).0@ != key {
            assert(social[0].0@ != key);
            assert forall|j: int| 0 <= j < rest.len() implies (#[trigger] rest[j]).0@ != key by {
                assert(rest[j] == social[j + 1]);
            }
        }
    }
}

/// A decoded user has no twitter link when the social mapping has no
/// "twitter" key, and otherwise exactly the value stored under that key.
pub proof fn lemma_twitter_link(raw: JsonUser, u: User)
    requires
        decoded_user(raw, u),
        distinct_keys(raw.social@),
    ensures
        (forall|j: int| 0 <= j < raw.social@.len() ==> (#[trigger] raw.social@[j]).0@ != "twitter"@)
            ==> u.twitter is None,
        forall|i: int|
            0 <= i < raw.social@.len() && (#[trigger] raw.social@[i]).0@ == "twitter"@ ==> opt_view(
                u.twitter,
            ) == Some(raw.social@[i].1@),
{
    lemma_social_value(raw.social@, "twitter"@);
    assert forall|i: int|
        0 <= i < raw.social@.len() && (#[trigger] raw.social@[i]).0@ == "twitter"@ implies opt_view(
            u.twitter,
        ) == Some(raw.social@[i].1@) by {
        assert forall|j: int| 0 <= j < i implies (#[trigger] raw.social@[j]).0@ != "twitter"@ by {
            assert(raw.social@[j].0@ != raw.social@[i].0@);
        }
    }
}

} // verus!
