//! The binary confirmation variant: two terminal controls, Confirm and
//! Cancel, scoped to one user. The session never re-renders: every
//! accepted event, and the timeout, ends it.

use vstd::prelude::*;
use crate::session::{
    Control, ControlAction, InteractionEvent, MenuView, Resolution, SessionCore,
};

verus! {

/// How the confirmation prompt treated one incoming event. There is no
/// re-render case: both controls are terminal, so the message is never
/// edited after the prompt is shown.
#[derive(Clone, Copy, PartialEq, Eq, Structural, Debug)]
pub enum ConfirmStep {
    /// Wrong user, or a stale or unknown token: state unchanged.
    Ignored,
    /// A terminal control was activated: true for Confirm, false for Cancel.
    Decided(bool),
}

/// A confirmation prompt scoped to one user.
pub struct ConfirmMenu {
    pub prompt: String,
    pub core: SessionCore,
}

impl ConfirmMenu {
    /// Exactly two controls: Confirm first, Cancel second.
    pub open spec fn wf(&self) -> bool {
        &&& self.core.registry.wf()
        &&& self.core.registry.spec_actions() =~= seq![
            ControlAction::Confirm,
            ControlAction::Cancel,
        ]
        &&& self.core.scope is Some
    }

    /// Opens a confirmation prompt scoped to `user`.
    pub fn open(prompt: &str, user: u64) -> (r: ConfirmMenu)
        ensures
            r.wf(),
            r.prompt@ == prompt@,
            r.core.scope == Some(user),
    {
        let mut actions: Vec<ControlAction> = Vec::new();
        actions.push(ControlAction::Confirm);
        actions.push(ControlAction::Cancel);
        ConfirmMenu {
            prompt: String::from_str(prompt),
            core: SessionCore::open(&actions, Some(user)),
        }
    }

    /// What one event decides: nothing, or the final answer.
    pub open spec fn spec_decision(&self, user: u64, token: Seq<char>) -> Option<bool> {
        match self.core.spec_resolution(user, token) {
            Resolution::Apply(ControlAction::Confirm) => Some(true),
            Resolution::Apply(ControlAction::Cancel) => Some(false),
            _ => None,
        }
    }

    /// Applies one interaction event; the state itself never changes.
    pub fn handle_event(&self, ev: &InteractionEvent) -> (r: ConfirmStep)
        ensures
            r == (match self.spec_decision(ev.user, ev.token@) {
                Some(b) => ConfirmStep::Decided(b),
                None => ConfirmStep::Ignored,
            }),
    {
        match self.core.resolve(ev) {
            Resolution::Apply(ControlAction::Confirm) => ConfirmStep::Decided(true),
            Resolution::Apply(ControlAction::Cancel) => ConfirmStep::Decided(false),
            _ => ConfirmStep::Ignored,
        }
    }

    /// The whole interaction: the first event that decides gives the
    /// answer; a stream that ends without one is the timeout and gives
    /// false.
    pub open spec fn spec_run(&self, events: Seq<InteractionEvent>) -> bool
        decreases events.len(),
    {
        if events.len() == 0 {
            false
        } else {
            match self.spec_decision(events.first().user, events.first().token@) {
                Some(b) => b,
                None => self.spec_run(events.drop_first()),
            }
        }
    }

    /// Drives the session over a finite event sequence. It always returns
    /// once the sequence is exhausted: timeout and Cancel both give false,
    /// Confirm alone gives true.
    pub fn run(&self, events: &Vec<InteractionEvent>) -> (r: bool)
        ensures
            r == self.spec_run(events@),
    {
        let n = events.len();
        let mut i: usize = 0;
        proof {
            assert(events@.skip(0) =~= events@);
        }
        while i < n
            invariant
                n == events@.len(),
                i <= n,
                self.spec_run(events@) == self.spec_run(events@.skip(i as int)),
            decreases n - i,
        {
            proof {
                assert(events@.skip(i as int).first() == events@[i as int]);
                assert(events@.skip(i as int).drop_first() =~= events@.skip(i as int + 1));
            }
            if let ConfirmStep::Decided(b) = self.handle_event(&events[i]) {
                return b;
            }
            i = i + 1;
        }
        proof {
            assert(events@.skip(n as int) =~= Seq::<InteractionEvent>::empty());
        }
        false
    }

    /// The rendered prompt: title, the prompt text, and the two controls.
    pub fn view(&self) -> (r: MenuView)
        requires
            self.wf(),
        ensures
            r.title@ == "Woah! Hold up!"@,
            r.description@ == self.prompt@,
            r.controls@.len() == 2,
            r.controls@[0].token@ == self.core.registry.spec_tokens()[0],
            r.controls@[0].label@ == "Confirm"@,
            r.controls@[1].token@ == self.core.registry.spec_tokens()[1],
            r.controls@[1].label@ == "Cancel"@,
    {
        proof {
            self.core.registry.lemma_action_len();
        }
        let mut controls: Vec<Control> = Vec::new();
        controls.push(Control {
            token: self.core.registry.token_at(0).clone(),
            label: String::from_str("Confirm"),
        });
        controls.push(Control {
            token: self.core.registry.token_at(1).clone(),
            label: String::from_str("Cancel"),
        });
        MenuView {
            title: String::from_str("Woah! Hold up!"),
            description: self.prompt.clone(),
            fields: Vec::new(),
            image: None,
            controls,
        }
    }

    /// Confirm totality: of the three terminal stimuli, the confirm token
    /// decides true, the cancel token decides false, and a stream that
    /// completes without a decision (the timeout) gives false.
    pub proof fn lemma_confirm_totality(&self, user: u64)
        requires
            self.wf(),
            !self.core.blocked(user),
        ensures
            self.spec_decision(user, self.core.registry.spec_tokens()[0]) == Some(true),
            self.spec_decision(user, self.core.registry.spec_tokens()[1]) == Some(false),
            !self.spec_run(Seq::<InteractionEvent>::empty()),
    {
        self.core.registry.lemma_action_len();
        self.core.registry.lemma_lookup_at(0);
        self.core.registry.lemma_lookup_at(1);
    }
}

} // verus!
