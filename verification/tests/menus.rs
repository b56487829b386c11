use mywaifu::choice::ChoicePrompt;
use mywaifu::confirm::{ConfirmMenu, ConfirmStep};
use mywaifu::paginator::{EmbedPaginator, PaginatorStep};
use mywaifu::session::{ControlAction, ControlRegistry, InteractionEvent, Resolution, SessionCore};
use mywaifu::shop::{Item, Shop};
use mywaifu::purchase::pack_catalog;

fn ev(user: u64, token: &str) -> InteractionEvent {
    InteractionEvent { user: user, token: token.to_string() }
}

#[test]
fn registry_tokens_are_pairwise_distinct() {
    let mut actions = Vec::new();
    for _ in 0..150 {
        actions.push(ControlAction::RotateLeft);
    }
    let registry = ControlRegistry::build(&actions);
    assert_eq!(registry.count(), 150);
    for i in 0..registry.count() {
        let token = registry.token_at(i);
        assert!(token.len() > 30);
        assert!(token.chars().all(|c| c.is_ascii_alphanumeric()));
        for j in 0..i {
            assert_ne!(token, registry.token_at(j));
        }
    }
}

#[test]
fn registry_lookup_finds_each_action() {
    let actions = vec![ControlAction::Confirm, ControlAction::Cancel, ControlAction::Choose(9)];
    let registry = ControlRegistry::build(&actions);
    assert_eq!(registry.lookup(registry.token_at(0)), Some(ControlAction::Confirm));
    assert_eq!(registry.lookup(registry.token_at(1)), Some(ControlAction::Cancel));
    assert_eq!(registry.lookup(registry.token_at(2)), Some(ControlAction::Choose(9)));
    assert_eq!(registry.lookup(&"not-a-token".to_string()), None);
}

#[test]
fn scoped_session_ignores_other_users() {
    let actions = vec![ControlAction::Confirm];
    let core = SessionCore::open(&actions, Some(1));
    let token = core.registry.token_at(0).clone();
    assert_eq!(core.resolve(&ev(2, &token)), Resolution::Ignored);
    assert_eq!(core.resolve(&ev(1, &token)), Resolution::Apply(ControlAction::Confirm));
}

#[test]
fn paginator_right_rotations_then_select_returns_first() {
    let mut p = EmbedPaginator::new(vec!["A".to_string(), "B".to_string(), "C".to_string()]);
    p.open(7, true);
    let controls = p.controls();
    assert_eq!(controls.len(), 3);
    assert_eq!(controls[0].label, "<-");
    assert_eq!(controls[1].label, "->");
    assert_eq!(controls[2].label, "Select");
    let right = controls[1].token.clone();
    let select = controls[2].token.clone();

    assert_eq!(p.handle_event(&ev(7, &right)), PaginatorStep::Redrawn);
    assert_eq!(p.item_at(p.head()).as_str(), "B");
    assert_eq!(p.handle_event(&ev(7, &right)), PaginatorStep::Redrawn);
    assert_eq!(p.item_at(p.head()).as_str(), "C");
    assert_eq!(p.handle_event(&ev(7, &right)), PaginatorStep::Redrawn);
    assert_eq!(p.item_at(p.head()).as_str(), "A");
    match p.handle_event(&ev(7, &select)) {
        PaginatorStep::Selected(i) => assert_eq!(p.item_at(i).as_str(), "A"),
        other => panic!("expected a selection, got {:?}", other),
    }
}

#[test]
fn paginator_left_from_first_wraps_to_last() {
    let mut p = EmbedPaginator::new(vec!["A".to_string(), "B".to_string(), "C".to_string()]);
    p.open(7, false);
    let left = p.controls()[0].token.clone();
    assert_eq!(p.handle_event(&ev(7, &left)), PaginatorStep::Redrawn);
    assert_eq!(p.item_at(p.head()).as_str(), "C");
}

#[test]
fn paginator_net_zero_rotation_restores_head() {
    let mut p = EmbedPaginator::new(vec!["A".to_string(), "B".to_string(), "C".to_string()]);
    p.open(7, false);
    let controls = p.controls();
    let left = controls[0].token.clone();
    let right = controls[1].token.clone();
    for _ in 0..5 {
        p.handle_event(&ev(7, &right));
    }
    for _ in 0..5 {
        p.handle_event(&ev(7, &left));
    }
    assert_eq!(p.head(), 0);
}

#[test]
fn paginator_run_returns_selection_index() {
    let mut p = EmbedPaginator::new(vec!["A".to_string(), "B".to_string(), "C".to_string()]);
    p.open(7, true);
    let controls = p.controls();
    let right = controls[1].token.clone();
    let select = controls[2].token.clone();
    let events = vec![ev(7, &right), ev(7, &right), ev(7, &right), ev(7, &select)];
    assert_eq!(p.run(&events), Some(0));
}

#[test]
fn paginator_ignores_unauthorized_and_stale_events() {
    let mut p = EmbedPaginator::new(vec!["A".to_string(), "B".to_string()]);
    p.open(7, true);
    let right = p.controls()[1].token.clone();
    assert_eq!(p.handle_event(&ev(8, &right)), PaginatorStep::Ignored);
    assert_eq!(p.head(), 0);
    assert_eq!(p.handle_event(&ev(7, "stale-token")), PaginatorStep::Ignored);
    assert_eq!(p.head(), 0);
    assert_eq!(p.run(&vec![ev(8, &right)]), None);
    assert_eq!(p.head(), 0);
}

#[test]
fn confirm_click_decides_true() {
    let menu = ConfirmMenu::open("Delete the account?", 7);
    let view = menu.view();
    assert_eq!(view.title, "Woah! Hold up!");
    assert_eq!(view.description, "Delete the account?");
    assert_eq!(view.controls[0].label, "Confirm");
    assert_eq!(view.controls[1].label, "Cancel");
    let confirm = view.controls[0].token.clone();
    assert_eq!(menu.handle_event(&ev(7, &confirm)), ConfirmStep::Decided(true));
    assert!(menu.run(&vec![ev(7, &confirm)]));
}

#[test]
fn cancel_click_decides_false() {
    let menu = ConfirmMenu::open("Sure?", 7);
    let cancel = menu.view().controls[1].token.clone();
    assert_eq!(menu.handle_event(&ev(7, &cancel)), ConfirmStep::Decided(false));
    assert!(!menu.run(&vec![ev(7, &cancel)]));
}

#[test]
fn confirm_timeout_returns_false_without_redraw() {
    let menu = ConfirmMenu::open("Sure?", 7);
    // No event arrives before the timeout: the run ends with false, and no
    // step of this menu ever asks for a re-render.
    assert!(!menu.run(&vec![]));
    let confirm = menu.view().controls[0].token.clone();
    assert_eq!(menu.handle_event(&ev(9, &confirm)), ConfirmStep::Ignored);
    assert!(!menu.run(&vec![ev(9, &confirm)]));
}

#[test]
fn choice_premium_control_yields_its_id() {
    let mut prompt = ChoicePrompt::new(vec![("Standard", 1), ("Premium", 2)]);
    prompt.open();
    let view = prompt.view("Currency use", "What type of currency do you want to use?");
    assert_eq!(view.title, "Currency use");
    let premium = view
        .controls
        .iter()
        .find(|c| c.label == "Premium")
        .expect("a control labelled Premium")
        .token
        .clone();
    assert_eq!(prompt.handle_event(&ev(3, &premium)), Some(2));
    assert_eq!(prompt.run(&vec![ev(3, &premium)]), Some(2));
}

#[test]
fn choice_timeout_yields_none() {
    let mut prompt = ChoicePrompt::new(vec![("Standard", 1), ("Premium", 2)]);
    prompt.open();
    assert_eq!(prompt.run(&vec![]), None);
    assert_eq!(prompt.handle_event(&ev(3, "unknown")), None);
}

#[test]
fn shop_buy_control_yields_item_index() {
    let mut shop = Shop::new("Pack Shop", "Purchase some packs.", pack_catalog());
    shop.open();
    let view = shop.view();
    assert_eq!(view.title, "Pack Shop");
    assert_eq!(view.controls.len(), 2);
    assert_eq!(view.controls[0].label, "Standard Pack");
    assert_eq!(view.controls[1].label, "Gold Pack");
    let gold = view.controls[1].token.clone();
    assert_eq!(shop.handle_event(&ev(5, &gold)), Some(1));
    assert_eq!(shop.run(&vec![ev(5, &gold)]), Some(1));
    assert_eq!(shop.run(&vec![]), None);
}

#[test]
fn shop_formats_dual_currency_prices() {
    let shop = Shop::new("S", "d", Vec::new());
    assert_eq!(shop.format_price((250, Some(50))), ":coin: 250\n:cookie: 50");
    assert_eq!(shop.format_price((475, None)), ":coin: 475");
    let item = Item::new("Thing", "A thing", (10, None));
    assert_eq!(item.name, "Thing");
    assert_eq!(item.price, (10, None));
}

#[test]
fn shop_view_lists_catalog_fields() {
    let mut shop = Shop::new("Pack Shop", "Buy packs.", pack_catalog());
    shop.open();
    let view = shop.view();
    assert_eq!(view.fields.len(), 2);
    assert_eq!(view.fields[0].0, "Standard Pack");
    assert_eq!(view.fields[0].1, ":coin: 250\n:cookie: 50");
    assert_eq!(view.fields[1].0, "Gold Pack");
    assert_eq!(view.fields[1].1, ":coin: 475\n:cookie: 100");
    assert!(view.description.starts_with("Buy packs. \n\nClick on the buttons below"));
}
