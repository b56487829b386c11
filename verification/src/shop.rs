//! The shop variant: a catalog rendered all at once, with one terminal
//! control per item. Selecting is single-shot; there is no cursor and no
//! confirmation prompt.

use vstd::prelude::*;
use crate::fmt::{append_i64, spec_idecimal};
use crate::session::{
    Control, ControlAction, InteractionEvent, MenuView, Resolution, SessionCore,
};

verus! {

/// One purchasable item: a name, a description, and a dual-currency price
/// (primary currency, and optionally premium currency).
pub struct Item {
    pub name: String,
    pub description: String,
    pub price: (i32, Option<i32>),
}

impl Item {
    pub fn new(name: &str, description: &str, price: (i32, Option<i32>)) -> (r: Item)
        ensures
            r.name@ == name@,
            r.description@ == description@,
            r.price == price,
    {
        Item { name: String::from_str(name), description: String::from_str(description), price }
    }
}

/// The canonical two-line rendering of a dual-currency price: the primary
/// currency always, the premium currency only when defined.
pub open spec fn spec_price_text(p: (i32, Option<i32>)) -> Seq<char> {
    match p.1 {
        Some(pc) => ":coin: "@ + spec_idecimal(p.0 as int) + "\n:cookie: "@ + spec_idecimal(
            pc as int,
        ),
        None => ":coin: "@ + spec_idecimal(p.0 as int),
    }
}

/// A shop over a catalog of items.
pub struct Shop {
    pub items: Vec<Item>,
    pub name: String,
    pub description: String,
    pub core: SessionCore,
}

impl Shop {
    /// Once opened, control `i` buys catalog item `i`.
    pub open spec fn wf(&self) -> bool {
        &&& self.core.registry.wf()
        &&& self.core.registry.spec_actions() =~= Seq::new(
            self.core.registry.spec_actions().len(),
            |i: int| ControlAction::Buy(i as usize),
        )
        &&& self.core.registry.len() <= self.items@.len()
    }

    /// A closed shop over the given catalog.
    pub fn new(name: &str, description: &str, items: Vec<Item>) -> (r: Shop)
        ensures
            r.wf(),
            r.name@ == name@,
            r.description@ == description@,
            r.items@ == items@,
            r.core.registry.len() == 0,
    {
        let actions: Vec<ControlAction> = Vec::new();
        let r = Shop {
            items,
            name: String::from_str(name),
            description: String::from_str(description),
            core: SessionCore::open(&actions, None),
        };
        proof {
            r.core.registry.lemma_action_len();
        }
        r
    }

    /// Opens the session: one terminal control per catalog item, unscoped.
    pub fn open(&mut self)
        ensures
            final(self).wf(),
            final(self).items@ == old(self).items@,
            final(self).name@ == old(self).name@,
            final(self).description@ == old(self).description@,
            final(self).core.registry.len() == old(self).items@.len(),
            final(self).core.scope is None,
    {
        let n = self.items.len();
        let mut actions: Vec<ControlAction> = Vec::new();
        let mut i: usize = 0;
        while i < n
            invariant
                n == self.items@.len(),
                i <= n,
                actions@.len() == i,
                forall|k: int|
                    0 <= k < i ==> #[trigger] actions@[k] == ControlAction::Buy(k as usize),
            decreases n - i,
        {
            actions.push(ControlAction::Buy(i));
            i = i + 1;
        }
        self.core = SessionCore::open(&actions, None);
        proof {
            self.core.registry.lemma_action_len();
            assert(self.core.registry.spec_actions() =~= Seq::new(
                self.core.registry.spec_actions().len(),
                |i: int| ControlAction::Buy(i as usize),
            ));
        }
    }

    /// What one event decides: nothing, or the index of the bought item.
    pub open spec fn spec_decision(&self, user: u64, token: Seq<char>) -> Option<usize> {
        match self.core.spec_resolution(user, token) {
            Resolution::Apply(ControlAction::Buy(i)) => Some(i),
            _ => None,
        }
    }

    /// Applies one interaction event; the state itself never changes. A
    /// decided index always lies inside the catalog.
    pub fn handle_event(&self, ev: &InteractionEvent) -> (r: Option<usize>)
        requires
            self.wf(),
        ensures
            r == self.spec_decision(ev.user, ev.token@),
            match r {
                Some(i) => i < self.items@.len(),
                None => true,
            },
    {
        let r = match self.core.resolve(ev) {
            Resolution::Apply(ControlAction::Buy(i)) => Some(i),
            _ => None,
        };
        proof {
            if r is Some {
                self.core.registry.lemma_lookup_value(ev.token@);
                self.core.registry.lemma_action_len();
            }
        }
        r
    }

    /// The whole interaction: the index of the first item bought, or
    /// nothing when the stream ends by timeout.
    pub open spec fn spec_run(&self, events: Seq<InteractionEvent>) -> Option<usize>
        decreases events.len(),
    {
        if events.len() == 0 {
            None
        } else {
            match self.spec_decision(events.first().user, events.first().token@) {
                Some(i) => Some(i),
                None => self.spec_run(events.drop_first()),
            }
        }
    }

    /// Drives the session over a finite event sequence.
    pub fn run(&self, events: &Vec<InteractionEvent>) -> (r: Option<usize>)
        requires
            self.wf(),
        ensures
            r == self.spec_run(events@),
            match r {
                Some(i) => i < self.items@.len(),
                None => true,
            },
    {
        let n = events.len();
        let mut i: usize = 0;
        proof {
            assert(events@.skip(0) =~= events@);
        }
        while i < n
            invariant
                n == events@.len(),
                i <= n,
                self.wf(),
                self.spec_run(events@) == self.spec_run(events@.skip(i as int)),
            decreases n - i,
        {
            proof {
                assert(events@.skip(i as int).first() == events@[i as int]);
                assert(events@.skip(i as int).drop_first() =~= events@.skip(i as int + 1));
            }
            if let Some(idx) = self.handle_event(&events[i]) {
                return Some(idx);
            }
            i = i + 1;
        }
        proof {
            assert(events@.skip(n as int) =~= Seq::<InteractionEvent>::empty());
        }
        None
    }

    /// The canonical price text of one price.
    pub fn format_price(&self, price: (i32, Option<i32>)) -> (r: String)
        ensures
            r@ == spec_price_text(price),
    {
        let mut out = String::from_str(":coin: ");
        let (currency, premium_currency) = price;
        append_i64(&mut out, currency as i64);
        if let Some(pc) = premium_currency {
            out.append("\n:cookie: ");
            append_i64(&mut out, pc as i64);
        }
        out
    }

    /// The rendered catalog: every item at once, a field per item with its
    /// canonical price text, and one control per item labelled by name.
    pub fn view(&self) -> (r: MenuView)
        requires
            self.wf(),
        ensures
            r.title@ == self.name@,
            r.description@ == self.description@
                + " \n\nClick on the buttons below to purchase something. You will **not** receive a confirmation prompt."@,
            r.image is Some,
            r.fields@.len() == self.items@.len(),
            forall|i: int|
                0 <= i < r.fields@.len() ==> (#[trigger] r.fields@[i]).0@
                    == self.items@[i].name@,
            forall|i: int|
                0 <= i < r.fields@.len() ==> (#[trigger] r.fields@[i]).1@ == spec_price_text(
                    self.items@[i].price,
                ),
            r.controls@.len() == self.core.registry.len(),
            forall|i: int|
                0 <= i < r.controls@.len() ==> (#[trigger] r.controls@[i]).token@
                    == self.core.registry.spec_tokens()[i],
            forall|i: int|
                0 <= i < r.controls@.len() ==> (#[trigger] r.controls@[i]).label@
                    == self.items@[i].name@,
    {
        let mut description = self.description.clone();
        description.append(
            " \n\nClick on the buttons below to purchase something. You will **not** receive a confirmation prompt.",
        );
        let n = self.items.len();
        let mut fields: Vec<(String, String)> = Vec::new();
        let mut i: usize = 0;
        while i < n
            invariant
                n == self.items@.len(),
                i <= n,
                fields@.len() == i,
                forall|k: int|
                    0 <= k < i ==> (#[trigger] fields@[k]).0@ == self.items@[k].name@,
                forall|k: int|
                    0 <= k < i ==> (#[trigger] fields@[k]).1@ == spec_price_text(
                        self.items@[k].price,
                    ),
            decreases n - i,
        {
            let price_text = self.format_price(self.items[i].price);
            fields.push((self.items[i].name.clone(), price_text));
            i = i + 1;
        }
        proof {
            self.core.registry.lemma_action_len();
        }
        let m = self.core.registry.count();
        let mut controls: Vec<Control> = Vec::new();
        let mut j: usize = 0;
        while j < m
            invariant
                m == self.core.registry.len(),
                j <= m,
                m <= self.items@.len(),
                controls@.len() == j,
                forall|k: int|
                    0 <= k < j ==> (#[trigger] controls@[k]).token@
                        == self.core.registry.spec_tokens()[k],
                forall|k: int|
                    0 <= k < j ==> (#[trigger] controls@[k]).label@ == self.items@[k].name@,
            decreases m - j,
        {
            controls.push(Control {
                token: self.core.registry.token_at(j).clone(),
                label: self.items[j].name.clone(),
            });
            j = j + 1;
        }
        MenuView {
            title: self.name.clone(),
            description,
            fields,
            image: Some(String::from_str(
                "https://media.discordapp.net/attachments/1135599535847120896/1135864814149828638/a2951652cffcba42fe8b6d010d9e5dd0.gif?width=1440&height=920",
            )),
            controls,
        }
    }
}

} // verus!
