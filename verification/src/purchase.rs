//! The verified cores of the shop commands: the pack catalog, the
//! purchase decision, the premium crates, and the classification of a
//! payment-code exchange response.

use vstd::prelude::*;
use crate::shop::Item;

verus! {

/// The response body naming a freshly created payment URL.
pub struct UrlKey {
    pub url: String,
}

/// The metadata attached to a completed payment.
pub struct Metadata {
    pub discord_id: String,
    pub price_id: String,
}

/// A crate purchasable with real money.
#[derive(Clone, Copy, PartialEq, Eq, Structural, Debug)]
pub enum CrateOption {
    Standard,
    Diamond,
}

impl CrateOption {
    /// The payment provider's price identifier for the crate.
    pub fn price_id(&self) -> (r: &'static str)
        ensures
            r@ == (match self {
                CrateOption::Standard => "standard_crate_mywaifu"@,
                CrateOption::Diamond => "diamond_crate_mywaifu"@,
            }),
    {
        match self {
            CrateOption::Standard => "standard_crate_mywaifu",
            CrateOption::Diamond => "diamond_crate_mywaifu",
        }
    }
}

/// The pack shop's catalog: the standard pack and the gold pack, each
/// priced in both currencies.
pub fn pack_catalog() -> (r: Vec<Item>)
    ensures
        r@.len() == 2,
        r@[0].name@ == "Standard Pack"@,
        r@[0].description@ == "Comes with 3 waifus (any rarity)"@,
        r@[0].price == (250i32, Some(50i32)),
        r@[1].name@ == "Gold Pack"@,
        r@[1].description@ == "Comes with 5 waifus (any rarity)"@,
        r@[1].price == (475i32, Some(100i32)),
{
    let mut items: Vec<Item> = Vec::new();
    items.push(Item::new("Standard Pack", "Comes with 3 waifus (any rarity)", (250, Some(50))));
    items.push(Item::new("Gold Pack", "Comes with 5 waifus (any rarity)", (475, Some(100))));
    items
}

/// What a pack purchase costs and grants once it goes through.
pub struct PurchasePlan {
    pub currency_cost: i32,
    pub premium_cost: i32,
    pub packs_delta: (i16, i16),
}

/// The verified core of the pack purchase: paying with the primary
/// currency (method 1) requires covering the primary price, any other
/// method requires covering the premium price; the purchase is refused
/// exactly when the balance falls short. A granted plan costs the chosen
/// price and adds one pack of the purchased kind.
///
/// An item offered for premium purchase must carry a premium price; the
/// pack catalog always does.
pub fn purchase_plan(currency: i32, premium_currency: i32, item: &Item, method: u8) -> (r: Option<
    PurchasePlan,
>)
    requires
        method != 1 ==> item.price.1 is Some,
    ensures
        method == 1 ==> (r is None <==> currency < item.price.0),
        method != 1 ==> (r is None <==> premium_currency < item.price.1.unwrap()),
        match r {
            Some(p) => {
                &&& (method == 1 ==> p.currency_cost == item.price.0 && p.premium_cost == 0)
                &&& (method != 1 ==> p.currency_cost == 0 && p.premium_cost
                    == item.price.1.unwrap())
                &&& p.packs_delta == (if item.name@ == "Standard Pack"@ {
                    (1i16, 0i16)
                } else {
                    (0i16, 1i16)
                })
            },
            None => true,
        },
{
    let affordable_cost: Option<(i32, i32)> = if method == 1 {
        if currency < item.price.0 {
            None
        } else {
            Some((item.price.0, 0))
        }
    } else {
        let premium_price = match item.price.1 {
            Some(pp) => pp,
            None => 0,
        };
        if premium_currency < premium_price {
            None
        } else {
            Some((0, premium_price))
        }
    };
    match affordable_cost {
        None => None,
        Some((currency_cost, premium_cost)) => {
            let standard = String::from_str("Standard Pack");
            let packs_delta: (i16, i16) = if item.name == standard {
                (1, 0)
            } else {
                (0, 1)
            };
            Some(PurchasePlan { currency_cost, premium_cost, packs_delta })
        },
    }
}

/// How the payment worker answered a code exchange.
#[derive(Clone, Copy, PartialEq, Eq, Structural, Debug)]
pub enum ExchangeOutcome {
    /// The worker does not know the code.
    InvalidCode,
    /// The worker failed for some other reason.
    Failure,
    /// The code was accepted and its items are owed.
    Redeemed,
}

/// Classifies the worker's HTTP status: not-found means the code is
/// invalid, any success means the code was redeemed, anything else is a
/// failure.
pub fn exchange_response_kind(status: u16) -> (r: ExchangeOutcome)
    ensures
        r == (if status == 404 {
            ExchangeOutcome::InvalidCode
        } else if 200 <= status && status < 300 {
            ExchangeOutcome::Redeemed
        } else {
            ExchangeOutcome::Failure
        }),
{
    if status == 404 {
        ExchangeOutcome::InvalidCode
    } else if 200 <= status && status < 300 {
        ExchangeOutcome::Redeemed
    } else {
        ExchangeOutcome::Failure
    }
}

} // verus!
