//! The menu session core: semantic actions, control tokens, the Control
//! Registry, and the resolution of interaction events against it.
//!
//! A session renders a view whose clickable controls are each tagged by a
//! fresh token. The registry maps tokens back to semantic actions; it is
//! built once when the session opens and is read-only afterwards, so rapid
//! repeated clicks can never race against a rebuilt mapping.

use vstd::prelude::*;
use crate::fmt::spec_udecimal;
use crate::random::{is_token_char, random_component_id};

verus! {

/// A semantic action bound to one clickable control.
#[derive(Clone, Copy, PartialEq, Eq, Structural, Debug)]
pub enum ControlAction {
    /// Rotate the paginator cursor one step backward (non-terminal).
    RotateLeft,
    /// Rotate the paginator cursor one step forward (non-terminal).
    RotateRight,
    /// Select the item currently at the paginator head (terminal).
    Select,
    /// Answer a confirmation prompt positively (terminal).
    Confirm,
    /// Answer a confirmation prompt negatively (terminal).
    Cancel,
    /// Pick the choice with the given identifier (terminal).
    Choose(u8),
    /// Buy the catalog item at the given index (terminal).
    Buy(usize),
}

impl ControlAction {
    /// A terminal action ends the session; a non-terminal one re-renders it.
    pub open spec fn is_terminal(self) -> bool {
        !(self is RotateLeft || self is RotateRight)
    }
}

/// One user interaction: the acting user's identity and the token of the
/// control that was activated.
pub struct InteractionEvent {
    pub user: u64,
    pub token: String,
}

/// One clickable control of a rendered view.
pub struct Control {
    pub token: String,
    pub label: String,
}

/// A renderable snapshot of a menu session's current state.
pub struct MenuView {
    pub title: String,
    pub description: String,
    pub fields: Vec<(String, String)>,
    pub image: Option<String>,
    pub controls: Vec<Control>,
}

/// An opaque control token as this library issues them: more than 30
/// characters, all ASCII alphanumeric.
pub open spec fn valid_token(t: Seq<char>) -> bool {
    t.len() > 30 && (forall|j: int| 0 <= j < t.len() ==> is_token_char(#[trigger] t[j]))
}

/// The mapping from control tokens to semantic actions.
pub struct ControlRegistry {
    entries: Vec<(String, ControlAction)>,
}

/// The first action bound to `t` in `entries`, scanning front to back.
spec fn lookup_in(entries: Seq<(String, ControlAction)>, t: Seq<char>) -> Option<ControlAction>
    decreases entries.len(),
{
    if entries.len() == 0 {
        None
    } else if entries.first().0@ == t {
        Some(entries.first().1)
    } else {
        lookup_in(entries.drop_first(), t)
    }
}

proof fn lemma_lookup_in_match(entries: Seq<(String, ControlAction)>, t: Seq<char>, i: int)
    requires
        0 <= i < entries.len(),
        entries[i].0@ == t,
        forall|j: int| 0 <= j < i ==> (#[trigger] entries[j]).0@ != t,
    ensures
        lookup_in(entries, t) == Some(entries[i].1),
    decreases i,
{
    if i == 0 {
        assert(entries.first() == entries[0]);
    } else {
        assert(entries[0].0@ != t);
        assert(entries.first() == entries[0]);
        assert(entries.drop_first()[i - 1] == entries[i]);
        assert forall|j: int| 0 <= j < i - 1 implies (#[trigger] entries.drop_first()[j]).0@ != t by {
            assert(entries.drop_first()[j] == entries[j + 1]);
        };
        lemma_lookup_in_match(entries.drop_first(), t, i - 1);
    }
}

proof fn lemma_lookup_in_none(entries: Seq<(String, ControlAction)>, t: Seq<char>)
    requires
        forall|j: int| 0 <= j < entries.len() ==> (#[trigger] entries[j]).0@ != t,
    ensures
        lookup_in(entries, t) == None::<ControlAction>,
    decreases entries.len(),
{
    if entries.len() > 0 {
        assert(entries.first() == entries[0]);
        assert forall|j: int| 0 <= j < entries.drop_first().len() implies (#[trigger] entries.drop_first()[j]).0@ != t by {
            assert(entries.drop_first()[j] == entries[j + 1]);
        };
        lemma_lookup_in_none(entries.drop_first(), t);
    }
}

proof fn lemma_lookup_in_some_contains(entries: Seq<(String, ControlAction)>, t: Seq<char>)
    requires
        lookup_in(entries, t) is Some,
    ensures
        exists|i: int| 0 <= i < entries.len() && (#[trigger] entries[i]).0@ == t,
    decreases entries.len(),
{
    if entries.first().0@ == t {
        assert(entries[0].0@ == t);
    } else {
        lemma_lookup_in_some_contains(entries.drop_first(), t);
        let i = choose|i: int| 0 <= i < entries.drop_first().len() && (#[trigger] entries.drop_first()[i]).0@ == t;
        assert(entries[i + 1] == entries.drop_first()[i]);
    }
}

proof fn lemma_lookup_in_value(entries: Seq<(String, ControlAction)>, t: Seq<char>)
    requires
        lookup_in(entries, t) is Some,
    ensures
        exists|i: int|
            0 <= i < entries.len() && (#[trigger] entries[i]).0@ == t && lookup_in(entries, t)
                == Some(entries[i].1),
    decreases entries.len(),
{
    if entries.first().0@ == t {
        assert(entries[0].0@ == t && lookup_in(entries, t) == Some(entries[0].1));
    } else {
        lemma_lookup_in_value(entries.drop_first(), t);
        let i = choose|i: int|
            0 <= i < entries.drop_first().len() && (#[trigger] entries.drop_first()[i]).0@ == t
                && lookup_in(entries.drop_first(), t) == Some(entries.drop_first()[i].1);
        assert(entries[i + 1] == entries.drop_first()[i]);
    }
}

impl ControlRegistry {
    /// The token of each control, in insertion order.
    pub closed spec fn spec_tokens(&self) -> Seq<Seq<char>> {
        self.entries@.map(|_i: int, e: (String, ControlAction)| e.0@)
    }

    /// The action of each control, in insertion order.
    pub closed spec fn spec_actions(&self) -> Seq<ControlAction> {
        self.entries@.map(|_i: int, e: (String, ControlAction)| e.1)
    }

    pub open spec fn len(&self) -> nat {
        self.spec_tokens().len()
    }

    pub open spec fn contains_token(&self, t: Seq<char>) -> bool {
        exists|i: int| 0 <= i < self.len() && self.spec_tokens()[i] == t
    }

    /// Token uniqueness: all tokens of one registry are pairwise distinct.
    pub open spec fn wf(&self) -> bool {
        forall|i: int, j: int|
            0 <= i < j < self.len() ==> self.spec_tokens()[i] != self.spec_tokens()[j]
    }

    /// The action the registry resolves `t` to, if any.
    pub closed spec fn spec_lookup(&self, t: Seq<char>) -> Option<ControlAction> {
        lookup_in(self.entries@, t)
    }

    /// In a well-formed registry, the token at index `i` resolves to the
    /// action at index `i`.
    pub proof fn lemma_lookup_at(&self, i: int)
        requires
            self.wf(),
            0 <= i < self.len(),
        ensures
            self.spec_lookup(self.spec_tokens()[i]) == Some(self.spec_actions()[i]),
    {
        assert forall|j: int| 0 <= j < i implies (#[trigger] self.entries@[j]).0@ != self.spec_tokens()[i] by {
            assert(self.spec_tokens()[j] == self.entries@[j].0@);
        };
        lemma_lookup_in_match(self.entries@, self.spec_tokens()[i], i);
    }

    /// A token the registry does not contain resolves to nothing.
    pub proof fn lemma_lookup_absent(&self, t: Seq<char>)
        requires
            !self.contains_token(t),
        ensures
            self.spec_lookup(t) == None::<ControlAction>,
    {
        assert forall|j: int| 0 <= j < self.entries@.len() implies (#[trigger] self.entries@[j]).0@ != t by {
            assert(self.spec_tokens()[j] == self.entries@[j].0@);
        };
        lemma_lookup_in_none(self.entries@, t);
    }

    /// A resolved token resolves to the action of one of its entries.
    pub proof fn lemma_lookup_value(&self, t: Seq<char>)
        requires
            self.spec_lookup(t) is Some,
        ensures
            exists|i: int|
                0 <= i < self.len() && #[trigger] self.spec_tokens()[i] == t
                    && self.spec_lookup(t) == Some(self.spec_actions()[i]),
    {
        lemma_lookup_in_value(self.entries@, t);
        let i = choose|i: int|
            0 <= i < self.entries@.len() && (#[trigger] self.entries@[i]).0@ == t && lookup_in(
                self.entries@,
                t,
            ) == Some(self.entries@[i].1);
        assert(self.spec_tokens()[i] == t && self.spec_actions()[i] == self.entries@[i].1);
    }

    /// A token that resolves is contained in the registry.
    pub proof fn lemma_lookup_contained(&self, t: Seq<char>)
        requires
            self.spec_lookup(t) is Some,
        ensures
            self.contains_token(t),
    {
        lemma_lookup_in_some_contains(self.entries@, t);
        let i = choose|i: int| 0 <= i < self.entries@.len() && (#[trigger] self.entries@[i]).0@ == t;
        assert(self.spec_tokens()[i] == t);
    }

    /// Builds a registry with one fresh token per action.
    ///
    /// Each token is 30 random alphanumeric characters followed by the
    /// control's decimal serial, so the tokens of one session are pairwise
    /// distinct whatever the randomness returned, while remaining
    /// unpredictable across sessions.
    pub fn build(actions: &Vec<ControlAction>) -> (r: ControlRegistry)
        ensures
            r.wf(),
            r.len() == actions@.len(),
            r.spec_actions() =~= actions@,
            forall|i: int| 0 <= i < r.len() ==> valid_token(#[trigger] r.spec_tokens()[i]),
    {
        let n = actions.len();
        let mut entries: Vec<(String, ControlAction)> = Vec::new();
        let mut i: usize = 0;
        while i < n
            invariant
                n == actions@.len(),
                i <= n,
                entries@.len() == i,
                forall|k: int| 0 <= k < i ==> (#[trigger] entries@[k]).1 == actions@[k],
                forall|k: int|
                    0 <= k < i ==> (#[trigger] entries@[k]).0@.len() == 30 + spec_udecimal(
                        k as nat,
                    ).len(),
                forall|k: int|
                    0 <= k < i ==> (#[trigger] entries@[k]).0@.subrange(
                        30,
                        entries@[k].0@.len() as int,
                    ) == spec_udecimal(k as nat),
                forall|k: int| 0 <= k < i ==> valid_token((#[trigger] entries@[k]).0@),
            decreases n - i,
        {
            let mut token = random_component_id();
            let ghost prefix = token@;
            crate::fmt::append_u64(&mut token, i as u64);
            proof {
                assert(i as u64 as nat == i as nat);
                crate::fmt::lemma_udecimal_len_pos(i as nat);
                crate::fmt::lemma_udecimal_chars(i as nat);
                assert(token@.subrange(30, token@.len() as int) =~= spec_udecimal(i as nat));
                assert forall|j: int| 0 <= j < token@.len() implies is_token_char(
                    #[trigger] token@[j],
                ) by {
                    if j < 30 {
                        assert(token@[j] == prefix[j]);
                    } else {
                        assert(token@[j] == spec_udecimal(i as nat)[j - 30]);
                    }
                };
                assert(valid_token(token@));
            }
            entries.push((token, actions[i]));
            i += 1;
        }
        let r = ControlRegistry { entries };
        proof {
            assert forall|a: int, b: int| 0 <= a < b < r.len() implies r.spec_tokens()[a] != r.spec_tokens()[b] by {
                assert(r.spec_tokens()[a] == r.entries@[a].0@);
                assert(r.spec_tokens()[b] == r.entries@[b].0@);
                if r.entries@[a].0@ == r.entries@[b].0@ {
                    assert(spec_udecimal(a as nat).len() == spec_udecimal(b as nat).len());
                    assert(r.entries@[a].0@.subrange(30, r.entries@[a].0@.len() as int)
                        == r.entries@[b].0@.subrange(30, r.entries@[b].0@.len() as int));
                    crate::fmt::lemma_udecimal_injective(a as nat, b as nat);
                }
            };
            assert(r.spec_actions() =~= actions@);
        }
        r
    }

    /// Tokens and actions pair up: there are as many of one as the other.
    pub proof fn lemma_action_len(&self)
        ensures
            self.spec_actions().len() == self.len(),
    {
    }

    /// The number of controls registered.
    pub fn count(&self) -> (r: usize)
        ensures
            r == self.len(),
    {
        self.entries.len()
    }

    /// The token of the control at index `i`.
    pub fn token_at(&self, i: usize) -> (r: &String)
        requires
            i < self.len(),
        ensures
            r@ == self.spec_tokens()[i as int],
    {
        &self.entries[i].0
    }

    /// The action of the control at index `i`.
    pub fn action_at(&self, i: usize) -> (r: ControlAction)
        requires
            i < self.len(),
        ensures
            r == self.spec_actions()[i as int],
    {
        self.entries[i].1
    }

    /// Resolves a token, scanning front to back.
    pub fn lookup(&self, token: &String) -> (r: Option<ControlAction>)
        ensures
            r == self.spec_lookup(token@),
    {
        let n = self.entries.len();
        let mut i: usize = 0;
        proof {
            assert(self.entries@.skip(0) =~= self.entries@);
        }
        while i < n
            invariant
                n == self.entries@.len(),
                i <= n,
                lookup_in(self.entries@, token@) == lookup_in(self.entries@.skip(i as int), token@),
                forall|j: int| 0 <= j < i ==> (#[trigger] self.entries@[j]).0@ != token@,
            decreases n - i,
        {
            let e = &self.entries[i];
            if e.0 == *token {
                proof {
                    lemma_lookup_in_match(self.entries@, token@, i as int);
                }
                return Some(e.1);
            }
            proof {
                assert(self.entries@.skip(i as int).first() == self.entries@[i as int]);
                assert(self.entries@.skip(i as int).drop_first() =~= self.entries@.skip(i as int + 1));
            }
            i += 1;
        }
        proof {
            lemma_lookup_in_none(self.entries@, token@);
        }
        None
    }
}

/// How a session treats one incoming event.
#[derive(Clone, Copy, PartialEq, Eq, Structural, Debug)]
pub enum Resolution {
    /// The event is dropped: wrong user, or a stale or unknown token.
    Ignored,
    /// The event activates the control bound to this action.
    Apply(ControlAction),
}

/// The state every menu variant shares: its registry and, when the session
/// is identity-scoped, the one user allowed to act.
pub struct SessionCore {
    pub registry: ControlRegistry,
    pub scope: Option<u64>,
}

impl SessionCore {
    /// An event from this user is dropped without looking at its token.
    pub open spec fn blocked(&self, user: u64) -> bool {
        match self.scope {
            Some(u) => user != u,
            None => false,
        }
    }

    pub open spec fn spec_resolution(&self, user: u64, token: Seq<char>) -> Resolution {
        if self.blocked(user) {
            Resolution::Ignored
        } else {
            match self.registry.spec_lookup(token) {
                Some(a) => Resolution::Apply(a),
                None => Resolution::Ignored,
            }
        }
    }

    /// Opens a session: builds the registry and fixes the scope.
    pub fn open(actions: &Vec<ControlAction>, scope: Option<u64>) -> (r: SessionCore)
        ensures
            r.registry.wf(),
            r.registry.len() == actions@.len(),
            r.registry.spec_actions() =~= actions@,
            forall|i: int|
                0 <= i < r.registry.len() ==> valid_token(#[trigger] r.registry.spec_tokens()[i]),
            r.scope == scope,
    {
        SessionCore { registry: ControlRegistry::build(actions), scope }
    }

    /// Decides what one event means for this session: dropped, or an action
    /// to apply.
    pub fn resolve(&self, ev: &InteractionEvent) -> (r: Resolution)
        ensures
            r == self.spec_resolution(ev.user, ev.token@),
    {
        if let Some(u) = self.scope {
            if ev.user != u {
                return Resolution::Ignored;
            }
        }
        match self.registry.lookup(&ev.token) {
            Some(a) => Resolution::Apply(a),
            None => Resolution::Ignored,
        }
    }
}

/// Unauthorized-event immunity: an event from an identity outside the
/// session's scope resolves to nothing, whatever token it carries.
pub proof fn lemma_unauthorized_ignored(core: SessionCore, user: u64, token: Seq<char>)
    requires
        core.blocked(user),
    ensures
        core.spec_resolution(user, token) == Resolution::Ignored,
{
}

} // verus!
