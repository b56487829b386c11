//! The n-ary choice variant: one terminal control per labelled choice,
//! each carrying a small identifier. Any viewer may resolve the prompt;
//! identity scoping is a property of the session core, not hard-coded
//! here.

use vstd::prelude::*;
use crate::session::{
    Control, ControlAction, InteractionEvent, MenuView, Resolution, SessionCore,
};

verus! {

/// A choice prompt: an ordered sequence of (label, identifier) pairs.
pub struct ChoicePrompt {
    pub choices: Vec<(String, u8)>,
    pub core: SessionCore,
}

impl ChoicePrompt {
    /// Once opened, control `i` carries the identifier of choice `i`.
    pub open spec fn wf(&self) -> bool {
        &&& self.core.registry.wf()
        &&& self.core.registry.spec_actions() =~= Seq::new(
            self.core.registry.spec_actions().len(),
            |i: int| ControlAction::Choose(self.choices@[i].1),
        )
        &&& self.core.registry.len() <= self.choices@.len()
    }

    /// A closed prompt over the given choices; labels are copied in order.
    pub fn new(choices: Vec<(&str, u8)>) -> (r: ChoicePrompt)
        ensures
            r.wf(),
            r.choices@.len() == choices@.len(),
            forall|i: int|
                0 <= i < choices@.len() ==> (#[trigger] r.choices@[i]).0@ == choices@[i].0@
                    && r.choices@[i].1 == choices@[i].1,
            r.core.registry.len() == 0,
    {
        let n = choices.len();
        let mut transformed: Vec<(String, u8)> = Vec::new();
        let mut i: usize = 0;
        while i < n
            invariant
                n == choices@.len(),
                i <= n,
                transformed@.len() == i,
                forall|k: int|
                    0 <= k < i ==> (#[trigger] transformed@[k]).0@ == choices@[k].0@
                        && transformed@[k].1 == choices@[k].1,
            decreases n - i,
        {
            let (label, id) = choices[i];
            transformed.push((String::from_str(label), id));
            i = i + 1;
        }
        let actions: Vec<ControlAction> = Vec::new();
        let r = ChoicePrompt { choices: transformed, core: SessionCore::open(&actions, None) };
        proof {
            r.core.registry.lemma_action_len();
        }
        r
    }

    /// Opens the session: one terminal control per choice, unscoped.
    pub fn open(&mut self)
        ensures
            final(self).wf(),
            final(self).choices@ == old(self).choices@,
            final(self).core.registry.len() == old(self).choices@.len(),
            final(self).core.scope is None,
    {
        let n = self.choices.len();
        let mut actions: Vec<ControlAction> = Vec::new();
        let mut i: usize = 0;
        while i < n
            invariant
                n == self.choices@.len(),
                i <= n,
                actions@.len() == i,
                forall|k: int|
                    0 <= k < i ==> #[trigger] actions@[k] == ControlAction::Choose(
                        self.choices@[k].1,
                    ),
            decreases n - i,
        {
            actions.push(ControlAction::Choose(self.choices[i].1));
            i = i + 1;
        }
        self.core = SessionCore::open(&actions, None);
        proof {
            self.core.registry.lemma_action_len();
            assert(self.core.registry.spec_actions() =~= Seq::new(
                self.core.registry.spec_actions().len(),
                |i: int| ControlAction::Choose(self.choices@[i].1),
            ));
        }
    }

    /// What one event decides: nothing, or the chosen identifier.
    pub open spec fn spec_decision(&self, user: u64, token: Seq<char>) -> Option<u8> {
        match self.core.spec_resolution(user, token) {
            Resolution::Apply(ControlAction::Choose(id)) => Some(id),
            _ => None,
        }
    }

    /// Applies one interaction event; the state itself never changes.
    pub fn handle_event(&self, ev: &InteractionEvent) -> (r: Option<u8>)
        ensures
            r == self.spec_decision(ev.user, ev.token@),
    {
        match self.core.resolve(ev) {
            Resolution::Apply(ControlAction::Choose(id)) => Some(id),
            _ => None,
        }
    }

    /// The whole interaction: the identifier of the first activated
    /// control, or nothing when the stream ends by timeout.
    pub open spec fn spec_run(&self, events: Seq<InteractionEvent>) -> Option<u8>
        decreases events.len(),
    {
        if events.len() == 0 {
            None
        } else {
            match self.spec_decision(events.first().user, events.first().token@) {
                Some(id) => Some(id),
                None => self.spec_run(events.drop_first()),
            }
        }
    }

    /// Drives the session over a finite event sequence.
    pub fn run(&self, events: &Vec<InteractionEvent>) -> (r: Option<u8>)
        ensures
            r == self.spec_run(events@),
    {
        let n = events.len();
        let mut i: usize = 0;
        proof {
            assert(events@.skip(0) =~= events@);
        }
        while i < n
            invariant
                n == events@.len(),
                i <= n,
                self.spec_run(events@) == self.spec_run(events@.skip(i as int)),
            decreases n - i,
        {
            proof {
                assert(events@.skip(i as int).first() == events@[i as int]);
                assert(events@.skip(i as int).drop_first() =~= events@.skip(i as int + 1));
            }
            if let Some(id) = self.handle_event(&events[i]) {
                return Some(id);
            }
            i = i + 1;
        }
        proof {
            assert(events@.skip(n as int) =~= Seq::<InteractionEvent>::empty());
        }
        None
    }

    /// The rendered prompt: the given title and description, one control
    /// per choice labelled with the choice's label.
    pub fn view(&self, title: &str, description: &str) -> (r: MenuView)
        requires
            self.wf(),
        ensures
            r.title@ == title@,
            r.description@ == description@,
            r.controls@.len() == self.core.registry.len(),
            forall|i: int|
                0 <= i < r.controls@.len() ==> (#[trigger] r.controls@[i]).token@
                    == self.core.registry.spec_tokens()[i],
            forall|i: int|
                0 <= i < r.controls@.len() ==> (#[trigger] r.controls@[i]).label@
                    == self.choices@[i].0@,
    {
        proof {
            self.core.registry.lemma_action_len();
        }
        let n = self.core.registry.count();
        let mut controls: Vec<Control> = Vec::new();
        let mut i: usize = 0;
        while i < n
            invariant
                n == self.core.registry.len(),
                i <= n,
                self.wf(),
                n <= self.choices@.len(),
                controls@.len() == i,
                forall|k: int|
                    0 <= k < i ==> (#[trigger] controls@[k]).token@
                        == self.core.registry.spec_tokens()[k],
                forall|k: int|
                    0 <= k < i ==> (#[trigger] controls@[k]).label@ == self.choices@[k].0@,
            decreases n - i,
        {
            controls.push(Control {
                token: self.core.registry.token_at(i).clone(),
                label: self.choices[i].0.clone(),
            });
            i = i + 1;
        }
        MenuView {
            title: String::from_str(title),
            description: String::from_str(description),
            fields: Vec::new(),
            image: None,
            controls,
        }
    }
}

} // verus!
