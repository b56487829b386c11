use mywaifu::fmt::{i64_to_string, parse_i64, u64_to_string};
use mywaifu::models::{member_label, Account, Alliance, Waifu};
use mywaifu::payments::{authorization_ok, Fulfillments, StripeClient};
use mywaifu::random::random_component_id;

#[test]
fn decimal_rendering_matches_std() {
    assert_eq!(u64_to_string(0), "0");
    assert_eq!(u64_to_string(7), "7");
    assert_eq!(u64_to_string(1234567890), "1234567890");
    assert_eq!(u64_to_string(u64::MAX), "18446744073709551615");
    assert_eq!(i64_to_string(0), "0");
    assert_eq!(i64_to_string(-45), "-45");
    assert_eq!(i64_to_string(i64::MIN), "-9223372036854775808");
    assert_eq!(i64_to_string(i64::MAX), "9223372036854775807");
}

#[test]
fn integer_parsing_matches_std() {
    assert_eq!(parse_i64("0"), Some(0));
    assert_eq!(parse_i64("123"), Some(123));
    assert_eq!(parse_i64("+42"), Some(42));
    assert_eq!(parse_i64("-17"), Some(-17));
    assert_eq!(parse_i64("9223372036854775807"), Some(i64::MAX));
    assert_eq!(parse_i64("-9223372036854775808"), Some(i64::MIN));
    assert_eq!(parse_i64("9223372036854775808"), None);
    assert_eq!(parse_i64("-9223372036854775809"), None);
    assert_eq!(parse_i64("999999999999999999999999999999999999999"), None);
    assert_eq!(parse_i64(""), None);
    assert_eq!(parse_i64("-"), None);
    assert_eq!(parse_i64("+"), None);
    assert_eq!(parse_i64("12a"), None);
    assert_eq!(parse_i64(" 12"), None);
    assert_eq!(parse_i64("1_2"), None);
}

#[test]
fn waifu_price_is_net_popularity_plus_base() {
    let mut waifu = Waifu {
        _id: 1,
        name: "Rin".to_string(),
        description: "desc".to_string(),
        gdrive_id: "abc123".to_string(),
        likes: 10,
        trash: 5,
    };
    assert_eq!(waifu.price(), 180);
    waifu.likes = 0;
    waifu.trash = 500;
    assert_eq!(waifu.price(), 0);
    waifu.likes = u32::MAX;
    waifu.trash = 0;
    assert_eq!(waifu.price(), u32::MAX);
    waifu.likes = 200;
    waifu.trash = 375;
    assert_eq!(waifu.price(), 0);
}

#[test]
fn waifu_download_url_appends_drive_id() {
    let waifu = Waifu {
        _id: 1,
        name: "Rin".to_string(),
        description: "desc".to_string(),
        gdrive_id: "abc123".to_string(),
        likes: 0,
        trash: 0,
    };
    assert_eq!(
        waifu.download_url(),
        "https://worker-rust.reachvishm8605.workers.dev/image/abc123"
    );
}

#[test]
fn account_level_divides_experience() {
    let mut account = Account {
        user_id: 1,
        currency: 0,
        premium_currency: 0,
        waifus: vec![],
        packs: 0,
        premium_one_packs: 0,
        experience: 600,
    };
    assert_eq!(account.level(), 2);
    account.experience = 249;
    assert_eq!(account.level(), 0);
    account.experience = -600;
    assert_eq!(account.level(), -2);
}

#[test]
fn alliance_counts_its_owner() {
    let alliance = Alliance { owner: 1, name: "N".to_string(), members: vec![2, 3] };
    assert_eq!(alliance.total_members(), 3);
}

#[test]
fn member_labels_are_numbered() {
    assert_eq!(member_label(0), "Member 0");
    assert_eq!(member_label(12), "Member 12");
}

#[test]
fn code_message_names_the_code_twice() {
    assert_eq!(
        Fulfillments::code_message("abc"),
        "`abc`\n\nRun `/shop exchange abc` to get your items."
    );
}

#[test]
fn fulfilment_endpoints_are_exact() {
    assert_eq!(
        Fulfillments::create_dm_url(),
        "https://discord.com/api/v10/users/@me/channels"
    );
    assert_eq!(
        Fulfillments::channel_messages_url(42),
        "https://discord.com/api/v10/channels/42/messages"
    );
}

#[test]
fn generated_payment_codes_are_lower_hex() {
    let code = Fulfillments::generate_code();
    assert_eq!(code.len(), 32);
    assert!(code.chars().all(|c| c.is_ascii_hexdigit() && !c.is_ascii_uppercase()));
    assert_ne!(Fulfillments::generate_code(), code);
}

#[test]
fn payment_link_url_encodes_the_query() {
    let url = StripeClient::create_url("sk_test", "/payment_links", "42", "standard_crate_mywaifu");
    assert!(url.starts_with("https://sk_test:@api.stripe.com/v1/payment_links?"));
    assert!(url.contains("line_items%5B0%5D%5Bprice%5D=standard_crate_mywaifu"));
    assert!(url.contains("line_items%5B0%5D%5Bquantity%5D=1"));
    assert!(url.contains("metadata%5Bdiscord_id%5D=42"));
    assert!(url.contains("metadata%5Bprice_id%5D=standard_crate_mywaifu"));
}

#[test]
fn authorization_requires_matching_secret() {
    let header = "SECRET-REDACTED".to_string();
    let secret = "SECRET-REDACTED".to_string();
    let other = "something-else".to_string();
    assert!(authorization_ok(Some(&header), Some(&secret)));
    assert!(!authorization_ok(Some(&header), Some(&other)));
    assert!(!authorization_ok(None, Some(&secret)));
    assert!(!authorization_ok(Some(&header), None));
    assert!(!authorization_ok(None, None));
}

#[test]
fn component_ids_are_random_alphanumerics() {
    let id = random_component_id();
    assert_eq!(id.chars().count(), 30);
    assert!(id.chars().all(|c| c.is_ascii_alphanumeric()));
    assert_ne!(random_component_id(), id);
}
