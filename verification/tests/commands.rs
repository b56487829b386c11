use mywaifu::alliance::{
    alliance_name_acceptable, invite_decision, plan_alliance_graph, render_dot, InviteDecision,
};
use mywaifu::checks::CheckCache;
use mywaifu::config::Stripe;
use mywaifu::dates::DatePrompt;
use mywaifu::interactions::{autocomplete_waifu_name, feed_plan, str_starts_with, FoodChoice};
use mywaifu::models::Waifu;
use mywaifu::models::Account;
use mywaifu::purchase::{
    exchange_response_kind, pack_catalog, purchase_plan, CrateOption, ExchangeOutcome,
};
use mywaifu::summon::PackChoice;

fn account(currency: i32, premium_currency: i32, packs: i16, premium_one_packs: i16) -> Account {
    Account {
        user_id: 1,
        currency,
        premium_currency,
        waifus: vec![],
        packs,
        premium_one_packs,
        experience: 0,
    }
}

#[test]
fn food_prices_and_icons_are_fixed() {
    assert_eq!(FoodChoice::Bread.price(), 100);
    assert_eq!(FoodChoice::IceCream.price(), 200);
    assert_eq!(FoodChoice::Meat.price(), 475);
    assert_eq!(FoodChoice::Bread.icon(), "🍞");
    assert_eq!(FoodChoice::IceCream.icon(), "🍨");
    assert_eq!(FoodChoice::Meat.icon(), "🍖");
}

#[test]
fn food_experience_stays_in_range() {
    for _ in 0..50 {
        assert!((10..=20).contains(&FoodChoice::Bread.random_experience()));
        assert!((20..=35).contains(&FoodChoice::IceCream.random_experience()));
        assert!((100..=125).contains(&FoodChoice::Meat.random_experience()));
    }
}

#[test]
fn feeding_needs_enough_currency() {
    assert!(feed_plan(99, &FoodChoice::Bread, 15).is_none());
    let plan = feed_plan(100, &FoodChoice::Bread, 15).expect("affordable");
    assert_eq!(plan.currency_cost, 100);
    assert_eq!(plan.experience_gain, 15);
}

#[test]
fn pack_kinds_summon_and_consume() {
    assert_eq!(PackChoice::StandardPack.waifu_count(), 3);
    assert_eq!(PackChoice::GoldPack.waifu_count(), 5);
    assert_eq!(PackChoice::StandardPack.consumption(), (-1, 0));
    assert_eq!(PackChoice::GoldPack.consumption(), (0, -1));
    assert!(PackChoice::StandardPack.has_packs(&account(0, 0, 1, 0)));
    assert!(!PackChoice::StandardPack.has_packs(&account(0, 0, 0, 5)));
    assert!(PackChoice::GoldPack.has_packs(&account(0, 0, 0, 5)));
    assert!(!PackChoice::GoldPack.has_packs(&account(0, 0, 5, 0)));
}

#[test]
fn crate_price_ids_are_fixed() {
    assert_eq!(CrateOption::Standard.price_id(), "standard_crate_mywaifu");
    assert_eq!(CrateOption::Diamond.price_id(), "diamond_crate_mywaifu");
}

#[test]
fn pack_purchase_checks_the_chosen_balance() {
    let catalog = pack_catalog();
    let standard = &catalog[0];
    let gold = &catalog[1];

    assert!(purchase_plan(249, 0, standard, 1).is_none());
    let plan = purchase_plan(250, 0, standard, 1).expect("affordable");
    assert_eq!(plan.currency_cost, 250);
    assert_eq!(plan.premium_cost, 0);
    assert_eq!(plan.packs_delta, (1, 0));

    assert!(purchase_plan(0, 49, standard, 2).is_none());
    let plan = purchase_plan(0, 50, standard, 2).expect("affordable");
    assert_eq!(plan.currency_cost, 0);
    assert_eq!(plan.premium_cost, 50);
    assert_eq!(plan.packs_delta, (1, 0));

    let plan = purchase_plan(0, 100, gold, 2).expect("affordable");
    assert_eq!(plan.premium_cost, 100);
    assert_eq!(plan.packs_delta, (0, 1));
}

#[test]
fn large_catalogs_still_open_with_distinct_controls() {
    let mut items = Vec::new();
    for i in 0..120u32 {
        items.push(mywaifu::shop::Item::new(
            &format!("Item {i}"),
            "bulk",
            (i as i32, None),
        ));
    }
    let mut shop = mywaifu::shop::Shop::new("Big Shop", "everything", items);
    shop.open();
    let view = shop.view();
    assert_eq!(view.controls.len(), 120);
    for i in 0..view.controls.len() {
        for j in 0..i {
            assert_ne!(view.controls[i].token, view.controls[j].token);
        }
    }
    let chosen = shop.handle_event(&mywaifu::session::InteractionEvent {
        user: 1,
        token: view.controls[117].token.clone(),
    });
    assert_eq!(chosen, Some(117));
}

#[test]
fn exchange_statuses_are_classified() {
    assert_eq!(exchange_response_kind(404), ExchangeOutcome::InvalidCode);
    assert_eq!(exchange_response_kind(200), ExchangeOutcome::Redeemed);
    assert_eq!(exchange_response_kind(204), ExchangeOutcome::Redeemed);
    assert_eq!(exchange_response_kind(299), ExchangeOutcome::Redeemed);
    assert_eq!(exchange_response_kind(300), ExchangeOutcome::Failure);
    assert_eq!(exchange_response_kind(500), ExchangeOutcome::Failure);
    assert_eq!(exchange_response_kind(199), ExchangeOutcome::Failure);
}

#[test]
fn check_cache_maps_are_independent() {
    let mut cache = CheckCache::new();
    assert_eq!(cache.get_has_account(1), None);
    assert_eq!(cache.get_in_alliance(1), None);
    cache.insert_has_account(1, true);
    assert_eq!(cache.get_has_account(1), Some(true));
    assert_eq!(cache.get_in_alliance(1), None);
    cache.insert_in_alliance(1, false);
    assert_eq!(cache.get_in_alliance(1), Some(false));
    cache.insert_has_account(1, false);
    assert_eq!(cache.get_has_account(1), Some(false));
    assert_eq!(cache.get_has_account(2), None);
}

fn waifu(id: u16, name: &str) -> Waifu {
    Waifu {
        _id: id,
        name: name.to_string(),
        description: String::new(),
        gdrive_id: String::new(),
        likes: 0,
        trash: 0,
    }
}

#[test]
fn autocompletion_folds_case_and_matches_prefixes() {
    let waifus = vec![waifu(1, "Rin"), waifu(2, "Rem"), waifu(3, "Emilia")];
    assert_eq!(autocomplete_waifu_name(&waifus, "rE"), vec![("Rem".to_string(), 2)]);
    assert_eq!(
        autocomplete_waifu_name(&waifus, "RIN"),
        vec![("Rin".to_string(), 1)]
    );
    assert_eq!(
        autocomplete_waifu_name(&waifus, ""),
        vec![("Rin".to_string(), 1), ("Rem".to_string(), 2), ("Emilia".to_string(), 3)]
    );
    assert_eq!(autocomplete_waifu_name(&waifus, "zzz"), vec![]);
}

#[test]
fn prefix_check_compares_characters() {
    assert!(str_starts_with("emilia", "emi"));
    assert!(str_starts_with("emilia", ""));
    assert!(!str_starts_with("emi", "emilia"));
    assert!(!str_starts_with("emilia", "mil"));
}

#[test]
fn invitations_check_account_membership_and_ownership() {
    assert_eq!(invite_decision(false, false, 1, 1), InviteDecision::MemberHasNoAccount);
    assert_eq!(invite_decision(true, true, 1, 1), InviteDecision::MemberAlreadyInAlliance);
    assert_eq!(invite_decision(true, false, 1, 2), InviteDecision::NotTheOwner);
    assert_eq!(invite_decision(true, false, 1, 1), InviteDecision::AskConfirmation);
}

#[test]
fn alliance_names_are_capped_at_fifteen_bytes() {
    assert!(alliance_name_acceptable("Avengers"));
    assert!(alliance_name_acceptable("exactly15bytes!"));
    assert!(!alliance_name_acceptable("sixteen bytes!!!"));
}

#[test]
fn alliance_graph_plan_lays_out_groups_in_order() {
    let groups = vec![
        ("Member 0".to_string(), vec!["W1".to_string(), "W2".to_string()]),
        ("Member 1".to_string(), vec!["W3".to_string()]),
    ];
    let plan = plan_alliance_graph(&groups);
    let expected_nodes: Vec<String> =
        vec!["Member 0", "W1", "W2", "Member 1", "W3"].into_iter().map(String::from).collect();
    assert_eq!(plan.nodes, expected_nodes);
    assert_eq!(plan.edges, vec![(0, 1), (0, 2), (3, 4), (0, 3)]);
}

#[test]
fn dot_rendering_names_the_nodes() {
    let groups = vec![("Member 0".to_string(), vec!["W1".to_string()])];
    let plan = plan_alliance_graph(&groups);
    let dot = render_dot(&plan.nodes, &plan.edges);
    assert!(dot.contains("digraph"));
    assert!(dot.contains("Member 0"));
    assert!(dot.contains("W1"));
    assert!(dot.contains("->"));
}

#[test]
fn stripe_hook_urls_join_base_and_path() {
    let stripe = Stripe {
        cloudflare_hook_base: "https://worker.example".to_string(),
        cloudflare_auth: "SECRET-REDACTED".to_string(),
    };
    assert_eq!(stripe.format_stripe_hook_url("/cpl"), "https://worker.example/cpl");
}

#[test]
fn date_prompt_copies_its_choices() {
    let prompt = DatePrompt::new("lol idk", vec![("Yes", 10), ("No", -10)]);
    assert_eq!(prompt.question, "lol idk");
    assert_eq!(prompt.choices, vec![("Yes".to_string(), 10), ("No".to_string(), -10)]);
}
