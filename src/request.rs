use vstd::prelude::*;
use crate::decimal::{decimal_of, push_decimal};

verus! {

/// The directory endpoints that a client reads or writes.
pub enum Endpoint {
    Bot(u64),
    User(u64),
    Votes(u64),
    CheckVote { bot_id: u64, user_id: u64 },
    Stats(u64),
}

/// The full URL of an endpoint.
pub open spec fn endpoint_url(e: Endpoint) -> Seq<char> {
    match e {
        Endpoint::Bot(id) => "https://top.gg/api/bots/"@ + decimal_of(id as nat),
        Endpoint::User(id) => "https://top.gg/api/users/"@ + decimal_of(id as nat),
        Endpoint::Votes(id) => "https://top.gg/api/bots/"@ + decimal_of(id as nat) + "/votes"@,
        Endpoint::CheckVote { bot_id, user_id } => "https://top.gg/api/bots/"@ + decimal_of(
            bot_id as nat,
        ) + "/check?userId="@ + decimal_of(user_id as nat),
        Endpoint::Stats(id) => "https://top.gg/api/bots/"@ + decimal_of(id as nat) + "/stats"@,
    }
}

impl Endpoint {
    /// The full URL of this endpoint.
    pub fn url(&self) -> (r: String)
        ensures
            r@ == endpoint_url(*self),
    {
        match self {
            Endpoint::Bot(id) => {
                let mut s = String::from_str("https://top.gg/api/bots/");
                push_decimal(&mut s, *id);
                s
            },
            Endpoint::User(id) => {
                let mut s = String::from_str("https://top.gg/api/users/");
                push_decimal(&mut s, *id);
                s
            },
            Endpoint::Votes(id) => {
                let mut s = String::from_str("https://top.gg/api/bots/");
                push_decimal(&mut s, *id);
                s.append("/votes");
                s
            },
            Endpoint::CheckVote { bot_id, user_id } => {
                let mut s = String::from_str("https://top.gg/api/bots/");
                push_decimal(&mut s, *bot_id);
                s.append("/check?userId=");
                push_decimal(&mut s, *user_id);
                s
            },
            Endpoint::Stats(id) => {
                let mut s = String::from_str("https://top.gg/api/bots/");
                push_decimal(&mut s, *id);
                s.append("/stats");
                s
            },
        }
    }
}

/// The statistics that a bot publishes; an absent field is left out of the
/// request body.
pub struct PostBotStats {
    pub server_count: Option<u32>,
    pub shards: Option<Vec<u32>>,
    pub shard_id: Option<u32>,
    pub shard_count: Option<u32>,
}

/// `parts` separated by commas.
pub open spec fn join(parts: Seq<Seq<char>>) -> Seq<char>
    decreases parts.len(),
{
    if parts.len() == 0 {
        Seq::empty()
    } else if parts.len() == 1 {
        parts[0]
    } else {
        join(parts.drop_last()) + ","@ + parts.last()
    }
}

/// A JSON member whose value is an optional count: one member when present,
/// none when absent.
pub open spec fn count_member(name: Seq<char>, v: Option<u32>) -> Seq<Seq<char>> {
    match v {
        Some(n) => seq!["\""@ + name + "\":"@ + decimal_of(n as nat)],
        None => Seq::empty(),
    }
}

/// The JSON member that lists the shard counts, when there is a list.
pub open spec fn shards_member(shards: Option<Vec<u32>>) -> Seq<Seq<char>> {
    match shards {
        Some(v) => seq![
            "\"shards\":["@ + join(v@.map_values(|n: u32| decimal_of(n as nat))) + "]"@,
        ],
        None => Seq::empty(),
    }
}

/// The members of the JSON object that publishes `p`, in field order.
pub open spec fn stats_members(p: PostBotStats) -> Seq<Seq<char>> {
    count_member("server_count"@, p.server_count) + shards_member(p.shards) + count_member("shard_id"@, p.shard_id) + count_member("shard_count"@, p.shard_count)
}

/// The JSON body that publishes `p`.
pub open spec fn stats_json(p: PostBotStats) -> Seq<char> {
    "{"@ + join(stats_members(p)) + "}"@
}

/// Whether a set of statistics says anything to publish: a total server
/// count or a list of shard counts.
pub open spec fn worth_publishing(p: PostBotStats) -> bool {
    p.server_count is Some || p.shards is Some
}

fn join_strings(parts: &Vec<String>) -> (r: String)
    ensures
        r@ == join(parts@.map_values(|s: String| s@)),
{
    let ghost vs = parts@.map_values(|s: String| s@);
    let mut out = String::new();
    let mut i: usize = 0;
    while i < parts.len()
        invariant
            i <= parts@.len(),
            vs == parts@.map_values(|s: String| s@),
            out@ == join(vs.subrange(0, i as int)),
        decreases parts@.len() - i,
    {
        let ghost pre = vs.subrange(0, i as int + 1);
        assert(pre.drop_last() =~= vs.subrange(0, i as int));
        if i > 0 {
            out.append(",");
        } else {
            assert(out@ =~= Seq::<char>::empty());
        }
        out.append(parts[i].as_str());
        i = i + 1;
    }
    assert(vs.subrange(0, i as int) =~= vs);
    out
}

fn count_into(members: &mut Vec<String>, name: &str, v: Option<u32>)
    ensures
        final(members)@.map_values(|s: String| s@) == old(members)@.map_values(|s: String| s@)
            + count_member(name@, v),
{
    match v {
        Some(n) => {
            let mut s = String::from_str("\"");
            s.append(name);
            s.append("\":");
            push_decimal(&mut s, n as u64);
            members.push(s);
            assert(final(members)@.map_values(|s: String| s@) =~= old(members)@.map_values(
                |s: String| s@,
            ) + count_member(name@, v));
        },
        None => {
            assert(old(members)@.map_values(|s: String| s@) + count_member(name@, v) =~= old(
                members,
            )@.map_values(|s: String| s@));
        },
    }
}

/// The JSON body that publishes `p`: an object holding the fields that are
/// present, in field order.
pub fn stats_body(p: &PostBotStats) -> (r: String)
    ensures
        r@ == stats_json(*p),
{
    let mut members: Vec<String> = Vec::new();
    count_into(&mut members, "server_count", p.server_count);
    let ghost after_count = members@.map_values(|s: String| s@);
    match &p.shards {
        Some(v) => {
            let mut counts: Vec<String> = Vec::new();
            let mut i: usize = 0;
            while i < v.len()
                invariant
                    i <= v@.len(),
                    counts@.map_values(|s: String| s@) =~= v@.subrange(0, i as int).map_values(
                        |n: u32| decimal_of(n as nat),
                    ),
                decreases v@.len() - i,
            {
                let mut s = String::new();
                push_decimal(&mut s, v[i] as u64);
                assert(s@ =~= decimal_of(v@[i as int] as nat));
                let ghost before = counts@;
                counts.push(s);
                assert(counts@.map_values(|s: String| s@) =~= before.map_values(|s: String| s@).push(
                    decimal_of(v@[i as int] as nat),
                ));
                assert(v@.subrange(0, i as int + 1).map_values(|n: u32| decimal_of(n as nat))
                    =~= v@.subrange(0, i as int).map_values(|n: u32| decimal_of(n as nat)).push(
                    decimal_of(v@[i as int] as nat),
                ));
                assert(counts@.map_values(|s: String| s@) =~= v@.subrange(0, i as int + 1).map_values(
                    |n: u32| decimal_of(n as nat),
                ));
                i = i + 1;
            }
            assert(v@.subrange(0, i as int) =~= v@);
            let mut s = String::from_str("\"shards\":[");
            let inner = join_strings(&counts);
            s.append(inner.as_str());
            s.append("]");
            members.push(s);
        },
        None => {},
    }
    assert(members@.map_values(|s: String| s@) =~= after_count + shards_member(p.shards));
    count_into(&mut members, "shard_id", p.shard_id);
    count_into(&mut members, "shard_count", p.shard_count);
    assert(members@.map_values(|s: String| s@) =~= stats_members(*p));
    let mut out = String::from_str("{");
    let inner = join_strings(&members);
    out.append(inner.as_str());
    out.append("}");
    out
}

/// The body of a statistics update, or `None` when there is nothing to
/// publish: neither a server count nor a shard list was given. In that case
/// no request is to be made.
pub fn stats_payload(
    server_count: Option<u32>,
    shards: Option<Vec<u32>>,
    shard_id: Option<u32>,
    shard_count: Option<u32>,
) -> (r: Option<String>)
    ensures
        r is None <==> (server_count is None && shards is None),
        r matches Some(body) ==> body@ == stats_json(
            (PostBotStats { server_count, shards, shard_id, shard_count }),
        ),
{
    if server_count.is_none() && shards.is_none() {
        return None;
    }
    let p = PostBotStats { server_count, shards, shard_id, shard_count };
    Some(stats_body(&p))
}

/// The HTTP methods that the client uses.
pub enum HttpMethod {
    Get,
    Post,
}

/// One request to the directory, ready to be sent: the `Authorization`
/// header carries the client's token as it is.
pub struct Outbound {
    pub method: HttpMethod,
    pub url: String,
    pub authorization: String,
    pub body: Option<String>,
}

/// Who the client speaks for: the bot's own ID and the token that
/// authenticates it. Neither changes once the client is made.
pub struct ClientIdentity {
    pub bot_id: u64,
    pub token: String,
}

impl ClientIdentity {
    /// An identity for bot `bot_id` that authenticates with `token`.
    pub fn new(bot_id: u64, token: String) -> (r: ClientIdentity)
        ensures
            r.bot_id == bot_id,
            r.token == token,
    {
        ClientIdentity { bot_id, token }
    }

    /// The read of endpoint `e`.
    pub fn get(&self, e: Endpoint) -> (r: Outbound)
        ensures
            r.method == HttpMethod::Get,
            r.url@ == endpoint_url(e),
            r.authorization@ == self.token@,
            r.body is None,
    {
        Outbound { method: HttpMethod::Get, url: e.url(), authorization: self.token.clone(), body: None }
    }

    /// The update of this bot's statistics, or `None` when neither a server
    /// count nor a shard list is given: then no request is made at all.
    pub fn publish_stats(
        &self,
        server_count: Option<u32>,
        shards: Option<Vec<u32>>,
        shard_id: Option<u32>,
        shard_count: Option<u32>,
    ) -> (r: Option<Outbound>)
        ensures
            r is None <==> (server_count is None && shards is None),
            r matches Some(o) ==> {
                &&& o.method == HttpMethod::Post
                &&& o.url@ == endpoint_url(Endpoint::Stats(self.bot_id))
                &&& o.authorization@ == self.token@
                &&& o.body matches Some(b) && b@ == stats_json(
                    (PostBotStats { server_count, shards, shard_id, shard_count }),
                )
            },
    {
        match stats_payload(server_count, shards, shard_id, shard_count) {
            None => None,
            Some(body) => Some(
                Outbound {
                    method: HttpMethod::Post,
                    url: Endpoint::Stats(self.bot_id).url(),
                    authorization: self.token.clone(),
                    body: Some(body),
                },
            ),
        }
    }
}

} // verus!
