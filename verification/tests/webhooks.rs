use hmac::Mac;
use mywaifu::webhook::{
    signed_payload, timestamp_fresh, verify_webhook, webhook_disposition, Signature, StripeEvent,
    StripeEventMetadata, StripeEventObject, StripeEventObjectParent, WebhookDisposition,
    WebhookVerdict,
};

fn hmac_hex(secret: &[u8], message: &[u8]) -> String {
    let mut mac = hmac::Hmac::<sha2::Sha256>::new_from_slice(secret).unwrap();
    mac.update(message);
    hex::encode(mac.finalize().into_bytes())
}

fn event(event_type: &str, discord_id: Option<&str>) -> StripeEvent {
    StripeEvent {
        id: "evt_1".to_string(),
        data: StripeEventObjectParent {
            object: StripeEventObject {
                id: "cs_1".to_string(),
                metadata: StripeEventMetadata {
                    discord_id: discord_id.map(String::from),
                    price_id: Some("standard_crate_mywaifu".to_string()),
                },
            },
        },
        event_type: event_type.to_string(),
    }
}

#[test]
fn signature_header_parses_t_and_v1() {
    let sig = Signature::parse("t=1700000000,v1=deadbeef").expect("parses");
    assert_eq!(sig.t, 1700000000);
    assert_eq!(sig.v1, "deadbeef");
}

#[test]
fn signature_header_last_duplicate_wins() {
    let sig = Signature::parse("t=1,t=2,v1=aa,v1=bb").expect("parses");
    assert_eq!(sig.t, 2);
    assert_eq!(sig.v1, "bb");
}

#[test]
fn signature_header_value_stops_at_second_equals() {
    let sig = Signature::parse("t=5,v1=abc=def").expect("parses");
    assert_eq!(sig.v1, "abc");
}

#[test]
fn signature_header_rejects_missing_or_bad_parts() {
    assert!(Signature::parse("").is_none());
    assert!(Signature::parse("v1=abc").is_none());
    assert!(Signature::parse("t=123").is_none());
    assert!(Signature::parse("t=12x,v1=abc").is_none());
    assert!(Signature::parse("t,v1=abc").is_none());
    assert!(Signature::parse("t=99999999999999999999,v1=abc").is_none());
}

#[test]
fn signed_payload_joins_timestamp_and_body() {
    assert_eq!(signed_payload(123, b"abc"), b"123.abc".to_vec());
    assert_eq!(signed_payload(-5, b""), b"-5.".to_vec());
}

#[test]
fn timestamps_are_fresh_within_five_minutes() {
    assert!(timestamp_fresh(1000, 1000));
    assert!(timestamp_fresh(1000, 700));
    assert!(timestamp_fresh(1000, 1300));
    assert!(!timestamp_fresh(1000, 699));
    assert!(!timestamp_fresh(1000, 1301));
}

#[test]
fn authentic_webhook_is_accepted() {
    let secret = b"whsec_test_secret";
    let payload = b"{\"id\":\"evt_1\"}";
    let t: i64 = 1_700_000_000;
    let mut signed = t.to_string().into_bytes();
    signed.push(b'.');
    signed.extend_from_slice(payload);
    let header = {
        let mut h = String::from("t=");
        h.push_str(&t.to_string());
        h.push_str(",v1=");
        h.push_str(&hmac_hex(secret, &signed));
        h
    };
    assert_eq!(verify_webhook(t, secret, &header, payload), WebhookVerdict::Accepted);
    assert_eq!(verify_webhook(t + 250, secret, &header, payload), WebhookVerdict::Accepted);
    assert_eq!(verify_webhook(t + 301, secret, &header, payload), WebhookVerdict::BadTimestamp);
    assert_eq!(
        verify_webhook(t, b"another_secret", &header, payload),
        WebhookVerdict::BadSignature
    );
    assert_eq!(
        verify_webhook(t, secret, &header, b"{\"id\":\"evt_2\"}"),
        WebhookVerdict::BadSignature
    );
}

#[test]
fn tampered_headers_are_rejected() {
    let secret = b"whsec_test_secret";
    let payload = b"body";
    assert_eq!(
        verify_webhook(0, secret, "no signature here", payload),
        WebhookVerdict::InvalidSignature
    );
    assert_eq!(
        verify_webhook(0, secret, "t=0,v1=nothex!", payload),
        WebhookVerdict::BadSignature
    );
    assert_eq!(
        verify_webhook(0, secret, "t=0,v1=00ff", payload),
        WebhookVerdict::BadSignature
    );
    assert_eq!(
        verify_webhook(0, secret, "t=0,v1=abc", payload),
        WebhookVerdict::BadSignature
    );
}

#[test]
fn only_completed_checkouts_with_a_buyer_are_fulfilled() {
    assert_eq!(
        webhook_disposition(&event("checkout.session.completed", Some("123"))),
        WebhookDisposition::FulfillOrder
    );
    assert_eq!(
        webhook_disposition(&event("checkout.session.completed", None)),
        WebhookDisposition::MissingDiscordId
    );
    assert_eq!(
        webhook_disposition(&event("invoice.paid", Some("123"))),
        WebhookDisposition::Ignore
    );
}
