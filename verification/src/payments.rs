//! The payment worker's verified cores: request bodies, the shared-secret
//! authorization check, payment-code generation, and the texts and
//! endpoints of order fulfilment. The HTTP traffic around them lives with
//! the host program.

use vstd::prelude::*;
use crate::fmt::spec_udecimal;
use crate::random::{is_lower_hex_char, random_payment_code};

verus! {

/// The request body asking for a payment link.
pub struct CreatePaymentLink {
    pub discord_user_id: String,
    pub price_id: String,
}

/// The request body exchanging a payment code.
pub struct ExchangePaymentCode {
    pub code: String,
}

/// A request is authorized exactly when it carries the configured shared
/// secret, and a secret is configured.
pub fn authorization_ok(header: Option<&String>, secret: Option<&String>) -> (r: bool)
    ensures
        r == (match (header, secret) {
            (Some(h), Some(s)) => h@ == s@,
            _ => false,
        }),
{
    match (header, secret) {
        (Some(h), Some(s)) => *h == *s,
        _ => false,
    }
}

/// Order fulfilment: code generation and the delivery message.
pub struct Fulfillments;

impl Fulfillments {
    /// A fresh payment code: 32 lower-case hexadecimal characters.
    pub fn generate_code() -> (r: String)
        ensures
            r@.len() == 32,
            forall|i: int| 0 <= i < r@.len() ==> is_lower_hex_char(#[trigger] r@[i]),
    {
        random_payment_code()
    }

    /// The message that delivers a payment code to its buyer.
    pub fn code_message(code: &str) -> (r: String)
        ensures
            r@ == "`"@ + code@ + "`\n\nRun `/shop exchange "@ + code@
                + "` to get your items."@,
    {
        let mut s = String::from_str("`");
        s.append(code);
        s.append("`\n\nRun `/shop exchange ");
        s.append(code);
        s.append("` to get your items.");
        s
    }

    /// The endpoint that opens a direct-message channel.
    pub fn create_dm_url() -> (r: String)
        ensures
            r@ == "https://discord.com/api/v10/users/@me/channels"@,
    {
        String::from_str("https://discord.com/api/v10/users/@me/channels")
    }

    /// The endpoint that posts a message into a channel.
    pub fn channel_messages_url(channel_id: u64) -> (r: String)
        ensures
            r@ == "https://discord.com/api/v10/channels/"@ + spec_udecimal(channel_id as nat)
                + "/messages"@,
    {
        let mut s = String::from_str("https://discord.com/api/v10/channels/");
        crate::fmt::append_u64(&mut s, channel_id);
        s.append("/messages");
        s
    }
}

/// The payment-link request entries, in order: the priced line item with
/// a quantity of one, then the buyer and the price echoed as metadata.
pub open spec fn spec_payment_link_entries(
    discord_id: Seq<char>,
    price_id: Seq<char>,
) -> Seq<(Seq<char>, Seq<char>)> {
    seq![
        ("line_items[0][price]"@, price_id),
        ("line_items[0][quantity]"@, "1"@),
        ("metadata[discord_id]"@, discord_id),
        ("metadata[price_id]"@, price_id),
    ]
}

/// The views of a vector of key-value pairs.
pub open spec fn pair_views(ps: Seq<(String, String)>) -> Seq<(Seq<char>, Seq<char>)> {
    ps.map(|_i: int, p: (String, String)| (p.0@, p.1@))
}

/// Builds the payment-link request entries.
pub fn payment_link_entries(discord_id: &str, price_id: &str) -> (r: Vec<(String, String)>)
    ensures
        pair_views(r@) =~~= spec_payment_link_entries(discord_id@, price_id@),
{
    let mut r: Vec<(String, String)> = Vec::new();
    r.push((String::from_str("line_items[0][price]"), String::from_str(price_id)));
    r.push((String::from_str("line_items[0][quantity]"), String::from_str("1")));
    r.push((String::from_str("metadata[discord_id]"), String::from_str(discord_id)));
    r.push((String::from_str("metadata[price_id]"), String::from_str(price_id)));
    r
}

/// What urlencoding a sequence of key-value pairs yields: a function of
/// the pairs alone.
pub uninterp spec fn urlencoded_of(pairs: Seq<(Seq<char>, Seq<char>)>) -> Seq<char>;

/// Relies on serde_urlencoded's to_string over string pairs: the encoding
/// keeps the pairs' order and is a function of the pairs alone; a
/// sequence of string pairs never fails to encode.
#[verifier::external_body]
fn urlencode_pairs(pairs: &Vec<(String, String)>) -> (r: String)
    ensures
        r@ == urlencoded_of(pair_views(pairs@)),
{
    serde_urlencoded::to_string(pairs).expect("Failed to urlencode body")
}

/// The payment provider's client: building the request URLs. Sending the
/// requests is the host program's business.
pub struct StripeClient;

impl StripeClient {
    /// The provider URL for one call: key-authenticated host, versioned
    /// path, and the urlencoded payment-link entries as the query string.
    pub fn create_url(key: &str, path: &str, discord_id: &str, price_id: &str) -> (r: String)
        ensures
            r@ == "https://"@ + key@ + ":@api.stripe.com/v1"@ + path@ + "?"@ + urlencoded_of(
                spec_payment_link_entries(discord_id@, price_id@),
            ),
    {
        let mut url = String::from_str("https://");
        url.append(key);
        url.append(":@api.stripe.com/v1");
        url.append(path);
        url.append("?");
        let entries = payment_link_entries(discord_id, price_id);
        let form = urlencode_pairs(&entries);
        url.append(form.as_str());
        url
    }
}

} // verus!
