//! The payment provider's webhook: parsing the signature header,
//! recomputing the HMAC over the signed payload, checking the timestamp,
//! and routing the verified event.

use vstd::prelude::*;
use hmac::Mac;
use crate::fmt::{append_i64_bytes, parse_i64, spec_idecimal_bytes, spec_parse_i64};

verus! {

/// The segments of `s` split on `sep`; always at least one segment.
pub open spec fn spec_split(s: Seq<char>, sep: char) -> Seq<Seq<char>>
    decreases s.len(),
{
    if s.len() == 0 {
        seq![s]
    } else if s.first() == sep {
        seq![Seq::<char>::empty()] + spec_split(s.drop_first(), sep)
    } else {
        let rest = spec_split(s.drop_first(), sep);
        rest.update(0, seq![s.first()] + rest[0])
    }
}

/// Splitting yields at least one segment.
pub proof fn lemma_split_nonempty(s: Seq<char>, sep: char)
    ensures
        spec_split(s, sep).len() >= 1,
    decreases s.len(),
{
    if s.len() > 0 && s.first() != sep {
        lemma_split_nonempty(s.drop_first(), sep);
    }
}

/// The views of a vector of strings.
pub open spec fn views_of(ss: Seq<String>) -> Seq<Seq<char>> {
    ss.map(|_i: int, s: String| s@)
}

/// Splits a string on a separator character.
pub fn split_char(s: &str, sep: char) -> (r: Vec<String>)
    ensures
        views_of(r@) =~= spec_split(s@, sep),
        r@.len() >= 1,
    decreases s@.len(),
{
    let n = s.unicode_len();
    if n == 0 {
        let mut r: Vec<String> = Vec::new();
        r.push(String::new());
        proof {
            assert(views_of(r@) =~~= spec_split(s@, sep));
        }
        r
    } else {
        let c = s.get_char(0);
        let rest = s.substring_char(1, n);
        proof {
            assert(rest@ =~= s@.drop_first());
            lemma_split_nonempty(rest@, sep);
        }
        let mut rv = split_char(rest, sep);
        if c == sep {
            rv.insert(0, String::new());
            proof {
                assert(views_of(rv@) =~~= seq![Seq::<char>::empty()] + spec_split(
                    s@.drop_first(),
                    sep,
                ));
            }
            rv
        } else {
            let mut first = String::new();
            crate::fmt::push_char(&mut first, c);
            first.append(rv[0].as_str());
            let ghost old_views = views_of(rv@);
            rv.set(0, first);
            proof {
                assert(views_of(rv@) =~~= old_views.update(0, seq![s@.first()] + old_views[0]));
            }
            rv
        }
    }
}

/// The value of the last segment of the form `key=value`, scanning back
/// to front: within each segment the key is what stands before the first
/// `=` and the value what stands between the first and the second.
pub open spec fn spec_assoc(segments: Seq<Seq<char>>, key: Seq<char>) -> Option<Seq<char>>
    decreases segments.len(),
{
    if segments.len() == 0 {
        None
    } else {
        let pieces = spec_split(segments.last(), '=');
        if pieces.len() >= 2 && pieces[0] == key {
            Some(pieces[1])
        } else {
            spec_assoc(segments.drop_last(), key)
        }
    }
}

/// The view of an optional string.
pub open spec fn opt_view(o: Option<String>) -> Option<Seq<char>> {
    match o {
        Some(s) => Some(s@),
        None => None,
    }
}

/// A parsed signature header: the timestamp and the hex-encoded code.
pub struct Signature {
    pub t: i64,
    pub v1: String,
}

/// What the signature header yields: the `t` and `v1` values, each the
/// last of its name among the comma-separated segments.
pub open spec fn spec_signature(raw: Seq<char>) -> Option<(Seq<char>, Seq<char>)> {
    let segs = spec_split(raw, ',');
    if spec_assoc(segs, "t"@) is Some && spec_assoc(segs, "v1"@) is Some {
        Some((spec_assoc(segs, "t"@).unwrap(), spec_assoc(segs, "v1"@).unwrap()))
    } else {
        None
    }
}

impl Signature {
    /// Parses the provider's signature header: it is accepted exactly
    /// when it names both a `t` value that reads as a 64-bit timestamp
    /// and a `v1` value.
    pub fn parse(raw: &str) -> (r: Option<Signature>)
        ensures
            ({
                let sg = spec_signature(raw@);
                match r {
                    Some(sig) => sg is Some && spec_parse_i64(sg.unwrap().0) == Some(sig.t)
                        && sig.v1@ == sg.unwrap().1,
                    None => sg is None || spec_parse_i64(sg.unwrap().0) is None,
                }
            }),
    {
        let segments = split_char(raw, ',');
        let key_t = String::from_str("t");
        let key_v1 = String::from_str("v1");
        let mut tval: Option<String> = None;
        let mut v1val: Option<String> = None;
        let n = segments.len();
        let mut i: usize = 0;
        proof {
            assert(views_of(segments@).take(0) =~= Seq::<Seq<char>>::empty());
        }
        while i < n
            invariant
                n == segments@.len(),
                i <= n,
                views_of(segments@) =~= spec_split(raw@, ','),
                key_t@ == "t"@,
                key_v1@ == "v1"@,
                opt_view(tval) == spec_assoc(views_of(segments@).take(i as int), "t"@),
                opt_view(v1val) == spec_assoc(views_of(segments@).take(i as int), "v1"@),
            decreases n - i,
        {
            let pieces = split_char(segments[i].as_str(), '=');
            proof {
                reveal_strlit("t");
                reveal_strlit("v1");
                assert(views_of(segments@)[i as int] == segments@[i as int]@);
                assert(views_of(segments@).take(i as int + 1).drop_last() =~= views_of(
                    segments@,
                ).take(i as int));
                assert(views_of(segments@).take(i as int + 1).last() == segments@[i as int]@);
                assert(views_of(pieces@)[0] == pieces@[0]@);
            }
            if pieces.len() >= 2 {
                proof {
                    assert(views_of(pieces@)[1] == pieces@[1]@);
                }
                if pieces[0] == key_t {
                    tval = Some(pieces[1].clone());
                } else if pieces[0] == key_v1 {
                    v1val = Some(pieces[1].clone());
                }
            }
            i = i + 1;
        }
        proof {
            assert(views_of(segments@).take(n as int) =~= views_of(segments@));
        }
        match tval {
            Some(ts) => match v1val {
                Some(vs) => match parse_i64(ts.as_str()) {
                    Some(t) => Some(Signature { t, v1: vs }),
                    None => None,
                },
                None => None,
            },
            None => None,
        }
    }
}

/// A hexadecimal digit, either case.
pub open spec fn spec_is_hex_digit(c: char) -> bool {
    ('0' <= c && c <= '9') || ('a' <= c && c <= 'f') || ('A' <= c && c <= 'F')
}

/// The value of a hexadecimal digit.
pub open spec fn spec_hex_val(c: char) -> int {
    if '0' <= c && c <= '9' {
        c as int - 48
    } else if 'a' <= c && c <= 'f' {
        c as int - 97 + 10
    } else {
        c as int - 65 + 10
    }
}

/// A valid hex encoding: even length, hex digits throughout.
pub open spec fn spec_hex_valid(s: Seq<char>) -> bool {
    s.len() % 2 == 0 && (forall|i: int| 0 <= i < s.len() ==> spec_is_hex_digit(#[trigger] s[i]))
}

/// The bytes a valid hex encoding decodes to, two digits per byte.
pub open spec fn spec_hex_decode(s: Seq<char>) -> Seq<u8> {
    Seq::new((s.len() / 2) as nat, |i: int| (16 * spec_hex_val(s[2 * i]) + spec_hex_val(s[2 * i + 1])) as u8)
}

/// Relies on hex's decode: one byte for every two hex digits; an odd
/// length or a character outside 0-9, a-f, A-F is refused.
#[verifier::external_body]
pub(crate) fn hex_decode(s: &str) -> (r: Option<Vec<u8>>)
    ensures
        r is Some <==> spec_hex_valid(s@),
        match r {
            Some(v) => v@ == spec_hex_decode(s@),
            None => true,
        },
{
    hex::decode(s).ok()
}

/// What HMAC-SHA-256 computes over a key and a message: a function of
/// the two alone, 32 bytes long.
pub uninterp spec fn hmac_sha256_of(key: Seq<u8>, message: Seq<u8>) -> Seq<u8>;

/// Relies on hmac's Hmac over sha2's Sha256: a key of any length is
/// accepted, and verify_slice succeeds exactly when the tag equals the
/// computed 32-byte code.
#[verifier::external_body]
pub(crate) fn hmac_sha256_verify(key: &[u8], message: &[u8], tag: &[u8]) -> (r: bool)
    ensures
        r == (tag@ == hmac_sha256_of(key@, message@)),
        r ==> tag@.len() == 32,
{
    match <hmac::Hmac<sha2::Sha256> as Mac>::new_from_slice(key) {
        Ok(mut m) => {
            m.update(message);
            m.verify_slice(tag).is_ok()
        },
        Err(_) => false,
    }
}

/// The bytes the provider signs: the timestamp, a dot, the raw payload.
pub open spec fn spec_signed_payload(t: int, payload: Seq<u8>) -> Seq<u8> {
    spec_idecimal_bytes(t) + seq![46u8] + payload
}

/// Builds the signed payload.
pub fn signed_payload(t: i64, payload: &[u8]) -> (r: Vec<u8>)
    ensures
        r@ == spec_signed_payload(t as int, payload@),
{
    let mut out: Vec<u8> = Vec::new();
    append_i64_bytes(&mut out, t);
    out.push(46);
    let m = payload.len();
    let mut i: usize = 0;
    proof {
        assert(out@ =~= spec_idecimal_bytes(t as int) + seq![46u8] + payload@.take(0));
    }
    while i < m
        invariant
            m == payload@.len(),
            i <= m,
            out@ =~= spec_idecimal_bytes(t as int) + seq![46u8] + payload@.take(i as int),
        decreases m - i,
    {
        out.push(payload[i]);
        proof {
            assert(out@ =~= spec_idecimal_bytes(t as int) + seq![46u8] + payload@.take(
                i as int + 1,
            ));
        }
        i = i + 1;
    }
    proof {
        assert(payload@.take(m as int) =~= payload@);
        assert(out@ =~= spec_signed_payload(t as int, payload@));
    }
    out
}

/// A signature timestamp is current when it lies within five minutes of
/// the present, either side.
pub fn timestamp_fresh(now: i64, t: i64) -> (r: bool)
    ensures
        r == (-300 <= now - t <= 300),
{
    let d: i128 = now as i128 - t as i128;
    -300 <= d && d <= 300
}

/// How a webhook request was judged.
#[derive(Clone, Copy, PartialEq, Eq, Structural, Debug)]
pub enum WebhookVerdict {
    /// The signature header does not parse.
    InvalidSignature,
    /// The code does not match the payload under the shared secret.
    BadSignature,
    /// The signature matches but its timestamp is too far from now.
    BadTimestamp,
    /// The request is authentic and current.
    Accepted,
}

/// The verdict owed for a request, given the present time, the shared
/// secret, the signature header and the raw payload.
pub open spec fn spec_webhook_verdict(
    now: int,
    secret: Seq<u8>,
    header: Seq<char>,
    payload: Seq<u8>,
) -> WebhookVerdict {
    let sg = spec_signature(header);
    if sg is None || spec_parse_i64(sg.unwrap().0) is None {
        WebhookVerdict::InvalidSignature
    } else {
        let t = spec_parse_i64(sg.unwrap().0).unwrap() as int;
        let v1 = sg.unwrap().1;
        if !(spec_hex_valid(v1) && spec_hex_decode(v1) == hmac_sha256_of(
            secret,
            spec_signed_payload(t, payload),
        )) {
            WebhookVerdict::BadSignature
        } else if !(-300 <= now - t <= 300) {
            WebhookVerdict::BadTimestamp
        } else {
            WebhookVerdict::Accepted
        }
    }
}

/// The verified core of the webhook endpoint: parses the signature
/// header, recomputes the code over the signed payload, and checks the
/// timestamp, in the order the provider prescribes.
pub fn verify_webhook(now: i64, secret: &[u8], signature_header: &str, payload: &[u8]) -> (r:
    WebhookVerdict)
    ensures
        r == spec_webhook_verdict(now as int, secret@, signature_header@, payload@),
{
    let sig = match Signature::parse(signature_header) {
        Some(sig) => sig,
        None => {
            return WebhookVerdict::InvalidSignature;
        },
    };
    let signed = signed_payload(sig.t, payload);
    let provided = match hex_decode(sig.v1.as_str()) {
        Some(bytes) => bytes,
        None => {
            return WebhookVerdict::BadSignature;
        },
    };
    if !hmac_sha256_verify(secret, signed.as_slice(), provided.as_slice()) {
        return WebhookVerdict::BadSignature;
    }
    if !timestamp_fresh(now, sig.t) {
        WebhookVerdict::BadTimestamp
    } else {
        WebhookVerdict::Accepted
    }
}

/// One event delivered by the payment provider.
pub struct StripeEvent {
    pub id: String,
    pub data: StripeEventObjectParent,
    pub event_type: String,
}

pub struct StripeEventObjectParent {
    pub object: StripeEventObject,
}

pub struct StripeEventObject {
    pub id: String,
    pub metadata: StripeEventMetadata,
}

/// Not every event carries metadata, so both fields are optional.
pub struct StripeEventMetadata {
    pub discord_id: Option<String>,
    pub price_id: Option<String>,
}

/// What an authentic event calls for.
#[derive(Clone, Copy, PartialEq, Eq, Structural, Debug)]
pub enum WebhookDisposition {
    /// A completed checkout with a buyer attached: fulfil the order.
    FulfillOrder,
    /// A completed checkout without a buyer: refuse it.
    MissingDiscordId,
    /// Any other event kind: acknowledge and do nothing.
    Ignore,
}

/// Routes an authentic event: only a completed checkout session is acted
/// on, and only when it names the buyer.
pub fn webhook_disposition(event: &StripeEvent) -> (r: WebhookDisposition)
    ensures
        r == (if event.event_type@ == "checkout.session.completed"@ {
            if event.data.object.metadata.discord_id is Some {
                WebhookDisposition::FulfillOrder
            } else {
                WebhookDisposition::MissingDiscordId
            }
        } else {
            WebhookDisposition::Ignore
        }),
{
    let completed = String::from_str("checkout.session.completed");
    if event.event_type == completed {
        match &event.data.object.metadata.discord_id {
            Some(_) => WebhookDisposition::FulfillOrder,
            None => WebhookDisposition::MissingDiscordId,
        }
    } else {
        WebhookDisposition::Ignore
    }
}

} // verus!
