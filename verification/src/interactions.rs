//! The feed and sell interactions: food kinds with their prices and
//! experience ranges, the verified core of the feed command, and the
//! case-insensitive name matching behind autocompletion.

use vstd::prelude::*;
use crate::models::Waifu;
use crate::random::random_in_range;

verus! {

/// A food a character can be fed.
#[derive(Clone, Copy, PartialEq, Eq, Structural, Debug)]
pub enum FoodChoice {
    Bread,
    IceCream,
    Meat,
}

impl FoodChoice {
    pub open spec fn spec_icon(self) -> Seq<char> {
        match self {
            FoodChoice::Bread => "🍞"@,
            FoodChoice::IceCream => "🍨"@,
            FoodChoice::Meat => "🍖"@,
        }
    }

    pub fn icon(&self) -> (r: &'static str)
        ensures
            r@ == self.spec_icon(),
    {
        match self {
            FoodChoice::Bread => "🍞",
            FoodChoice::IceCream => "🍨",
            FoodChoice::Meat => "🍖",
        }
    }

    pub open spec fn spec_price(self) -> u16 {
        match self {
            FoodChoice::Bread => 100,
            FoodChoice::IceCream => 200,
            FoodChoice::Meat => 475,
        }
    }

    pub fn price(&self) -> (r: u16)
        ensures
            r == self.spec_price(),
    {
        match self {
            FoodChoice::Bread => 100,
            FoodChoice::IceCream => 200,
            FoodChoice::Meat => 475,
        }
    }

    /// The experience range the food can grant, both ends inclusive.
    pub open spec fn spec_experience_bounds(self) -> (u16, u16) {
        match self {
            FoodChoice::Bread => (10, 20),
            FoodChoice::IceCream => (20, 35),
            FoodChoice::Meat => (100, 125),
        }
    }

    /// Draws an experience amount within the food's range.
    pub fn random_experience(&self) -> (r: u16)
        ensures
            self.spec_experience_bounds().0 <= r && r <= self.spec_experience_bounds().1,
    {
        let (lo, hi) = match self {
            FoodChoice::Bread => (10u16, 20u16),
            FoodChoice::IceCream => (20u16, 35u16),
            FoodChoice::Meat => (100u16, 125u16),
        };
        random_in_range(lo, hi)
    }
}

/// What feeding changes when the account can afford the food.
pub struct FeedPlan {
    pub currency_cost: u16,
    pub experience_gain: u16,
}

/// The verified core of the feed command: feeding is refused exactly when
/// the account's currency is below the food's price; otherwise it costs
/// the price and grants the rolled experience.
pub fn feed_plan(currency: i32, food: &FoodChoice, experience_roll: u16) -> (r: Option<FeedPlan>)
    ensures
        r is None <==> currency < food.spec_price(),
        match r {
            Some(p) => p.currency_cost == food.spec_price()
                && p.experience_gain == experience_roll,
            None => true,
        },
{
    let price = food.price();
    if currency < price as i32 {
        None
    } else {
        Some(FeedPlan { currency_cost: price, experience_gain: experience_roll })
    }
}

/// `p` is a prefix of `s`.
pub open spec fn is_prefix_of(p: Seq<char>, s: Seq<char>) -> bool {
    p.len() <= s.len() && s.subrange(0, p.len() as int) == p
}

/// Whether `p` is a prefix of `s`, character by character.
pub fn str_starts_with(s: &str, p: &str) -> (r: bool)
    ensures
        r == is_prefix_of(p@, s@),
{
    let np = p.unicode_len();
    let ns = s.unicode_len();
    if np > ns {
        return false;
    }
    let mut i: usize = 0;
    while i < np
        invariant
            np == p@.len(),
            ns == s@.len(),
            np <= ns,
            i <= np,
            forall|k: int| 0 <= k < i ==> s@[k] == p@[k],
        decreases np - i,
    {
        if s.get_char(i) != p.get_char(i) {
            proof {
                assert(s@.subrange(0, np as int)[i as int] == s@[i as int]);
            }
            return false;
        }
        i = i + 1;
    }
    proof {
        assert(s@.subrange(0, np as int) =~= p@);
    }
    true
}

/// What case folding returns for a string: a function of the characters
/// alone.
pub uninterp spec fn lower_of(s: Seq<char>) -> Seq<char>;

/// Relies on str::to_lowercase: the result depends on the characters
/// alone, and an empty string stays empty.
#[verifier::external_body]
fn lowercase(s: &str) -> (r: String)
    ensures
        r@ == lower_of(s@),
        s@.len() == 0 ==> r@.len() == 0,
{
    s.to_lowercase()
}

/// A name offers itself for a partial query when its folded form starts
/// with the folded query.
pub open spec fn matches_partial(name: Seq<char>, partial: Seq<char>) -> bool {
    is_prefix_of(lower_of(partial), lower_of(name))
}

/// The (name, identifier) pairs of the characters whose name matches the
/// query, in their original order.
pub open spec fn spec_matching(waifus: Seq<Waifu>, partial: Seq<char>) -> Seq<(Seq<char>, u16)>
    decreases waifus.len(),
{
    if waifus.len() == 0 {
        Seq::empty()
    } else {
        let rest = spec_matching(waifus.drop_last(), partial);
        if matches_partial(waifus.last().name@, partial) {
            rest.push((waifus.last().name@, waifus.last()._id))
        } else {
            rest
        }
    }
}

/// The views of the offered (name, identifier) pairs.
pub open spec fn pairs_of(ps: Seq<(String, u16)>) -> Seq<(Seq<char>, u16)> {
    ps.map(|_i: int, p: (String, u16)| (p.0@, p.1))
}

/// The verified core of name autocompletion: offers exactly the
/// characters whose folded name starts with the folded query.
pub fn autocomplete_waifu_name(waifus: &Vec<Waifu>, partial: &str) -> (r: Vec<(String, u16)>)
    ensures
        pairs_of(r@) =~= spec_matching(waifus@, partial@),
{
    let low_partial = lowercase(partial);
    let n = waifus.len();
    let mut r: Vec<(String, u16)> = Vec::new();
    proof {
        assert(waifus@.take(0) =~= Seq::<Waifu>::empty());
    }
    let mut i: usize = 0;
    while i < n
        invariant
            n == waifus@.len(),
            i <= n,
            low_partial@ == lower_of(partial@),
            pairs_of(r@) =~= spec_matching(waifus@.take(i as int), partial@),
        decreases n - i,
    {
        proof {
            assert(waifus@.take(i as int + 1).drop_last() =~= waifus@.take(i as int));
            assert(waifus@.take(i as int + 1).last() == waifus@[i as int]);
        }
        let low_name = lowercase(waifus[i].name.as_str());
        if str_starts_with(low_name.as_str(), low_partial.as_str()) {
            r.push((waifus[i].name.clone(), waifus[i]._id));
        }
        i = i + 1;
    }
    proof {
        assert(waifus@.take(n as int) =~= waifus@);
    }
    r
}

} // verus!
