//! A client for the top.gg bot directory: the decoding of its wire records,
//! the requests that the client sends, and the rules of the vote webhook
//! receiver.

pub mod decimal;
pub mod decode;
pub mod models;
pub mod request;
pub mod webhook;

pub use decode::{decode_bot, decode_user, decode_votes, has_voted, parse_ids, social_link};
pub use models::{Bot, BotStats, JsonBot, JsonUser, PartialJsonUser, PartialUser, User};
pub use request::{ClientIdentity, Endpoint, HttpMethod, Outbound, PostBotStats};
pub use webhook::{InboundRequest, Reply, Webhook, WebhookClient};
