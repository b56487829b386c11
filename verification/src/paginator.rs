//! The paginator variant: a cyclic cursor over a non-empty item sequence,
//! browsed with two non-terminal rotation controls and, optionally, closed
//! with a terminal Select control.

use vstd::prelude::*;
use crate::session::{
    Control, ControlAction, InteractionEvent, Resolution, SessionCore,
};

verus! {

/// The head position after one forward rotation.
pub open spec fn rot_right(h: int, len: int) -> int {
    if h + 1 == len {
        0
    } else {
        h + 1
    }
}

/// The head position after one backward rotation; rotating left from the
/// first item wraps to the last.
pub open spec fn rot_left(h: int, len: int) -> int {
    if h == 0 {
        len - 1
    } else {
        h - 1
    }
}

/// `n` forward rotations.
pub open spec fn rot_right_n(h: int, n: nat, len: int) -> int
    decreases n,
{
    if n == 0 {
        h
    } else {
        rot_right(rot_right_n(h, (n - 1) as nat, len), len)
    }
}

/// `n` backward rotations.
pub open spec fn rot_left_n(h: int, n: nat, len: int) -> int
    decreases n,
{
    if n == 0 {
        h
    } else {
        rot_left(rot_left_n(h, (n - 1) as nat, len), len)
    }
}

/// Rotation keeps the head inside the sequence.
pub proof fn lemma_rot_right_n_in_range(h: int, n: nat, len: int)
    requires
        0 < len,
        0 <= h < len,
    ensures
        0 <= rot_right_n(h, n, len) < len,
    decreases n,
{
    if n > 0 {
        lemma_rot_right_n_in_range(h, (n - 1) as nat, len);
    }
}

/// Rotation keeps the head inside the sequence.
pub proof fn lemma_rot_left_n_in_range(h: int, n: nat, len: int)
    requires
        0 < len,
        0 <= h < len,
    ensures
        0 <= rot_left_n(h, n, len) < len,
    decreases n,
{
    if n > 0 {
        lemma_rot_left_n_in_range(h, (n - 1) as nat, len);
    }
}

proof fn lemma_rot_left_n_shift(h: int, n: nat, len: int)
    requires
        n > 0,
    ensures
        rot_left_n(h, n, len) == rot_left_n(rot_left(h, len), (n - 1) as nat, len),
    decreases n,
{
    if n > 1 {
        lemma_rot_left_n_shift(h, (n - 1) as nat, len);
        assert(rot_left_n(h, n, len) == rot_left(rot_left_n(h, (n - 1) as nat, len), len));
        assert(rot_left_n(rot_left(h, len), (n - 1) as nat, len) == rot_left(
            rot_left_n(rot_left(h, len), (n - 2) as nat, len),
            len,
        ));
    } else {
        assert(rot_left_n(h, 1, len) == rot_left(rot_left_n(h, 0, len), len));
    }
}

proof fn lemma_rot_right_n_shift(h: int, n: nat, len: int)
    requires
        n > 0,
    ensures
        rot_right_n(h, n, len) == rot_right_n(rot_right(h, len), (n - 1) as nat, len),
    decreases n,
{
    if n > 1 {
        lemma_rot_right_n_shift(h, (n - 1) as nat, len);
        assert(rot_right_n(h, n, len) == rot_right(rot_right_n(h, (n - 1) as nat, len), len));
        assert(rot_right_n(rot_right(h, len), (n - 1) as nat, len) == rot_right(
            rot_right_n(rot_right(h, len), (n - 2) as nat, len),
            len,
        ));
    } else {
        assert(rot_right_n(h, 1, len) == rot_right(rot_right_n(h, 0, len), len));
    }
}

/// Rotation is a group action: rotating one way and then the other an
/// equal number of times returns the cursor to its original head, for any
/// non-empty sequence and any number of net-zero rotations.
pub proof fn lemma_rotation_cancels(h: int, n: nat, len: int)
    requires
        0 < len,
        0 <= h < len,
    ensures
        rot_left_n(rot_right_n(h, n, len), n, len) == h,
        rot_right_n(rot_left_n(h, n, len), n, len) == h,
    decreases n,
{
    if n > 0 {
        let m = (n - 1) as nat;
        lemma_rot_right_n_in_range(h, m, len);
        lemma_rot_left_n_in_range(h, m, len);
        // Move the outermost inverse application to the inside, cancel the
        // innermost pair, then use the induction hypothesis.
        lemma_rot_left_n_shift(rot_right_n(h, n, len), n, len);
        assert(rot_left(rot_right(rot_right_n(h, m, len), len), len) == rot_right_n(h, m, len));
        lemma_rotation_cancels(h, m, len);
        lemma_rot_right_n_shift(rot_left_n(h, n, len), n, len);
        assert(rot_right(rot_left(rot_left_n(h, m, len), len), len) == rot_left_n(h, m, len));
    }
}

/// How the paginator treated one incoming event.
#[derive(Clone, Copy, PartialEq, Eq, Structural, Debug)]
pub enum PaginatorStep {
    /// Wrong user, or a stale or unknown token: state unchanged.
    Ignored,
    /// A rotation moved the head; the view must be re-rendered.
    Redrawn,
    /// Select was activated on the item at this index: the session is over.
    Selected(usize),
}

/// A cyclic paginator over an ordered, non-empty item sequence.
pub struct EmbedPaginator<T> {
    pub items: Vec<T>,
    pub head: usize,
    pub core: SessionCore,
}

impl<T> EmbedPaginator<T> {
    pub open spec fn spec_items(&self) -> Seq<T> {
        self.items@
    }

    pub open spec fn spec_head(&self) -> int {
        self.head as int
    }

    pub open spec fn spec_core(&self) -> SessionCore {
        self.core
    }

    /// Only the paginator's own three actions may be registered.
    pub open spec fn paginator_action(a: ControlAction) -> bool {
        a is RotateLeft || a is RotateRight || a is Select
    }

    pub open spec fn wf(&self) -> bool {
        &&& self.spec_core().registry.wf()
        &&& if self.spec_items().len() == 0 {
            self.spec_head() == 0
        } else {
            self.spec_head() < self.spec_items().len()
        }
        &&& (self.spec_core().registry.len() > 0 ==> self.spec_items().len() > 0)
        &&& forall|i: int|
            0 <= i < self.spec_core().registry.spec_actions().len()
                ==> Self::paginator_action(#[trigger] self.spec_core().registry.spec_actions()[i])
    }

    /// A closed paginator over the given items, head at the first item.
    pub fn new(items: Vec<T>) -> (r: Self)
        ensures
            r.spec_items() == items@,
            r.spec_head() == 0,
            r.spec_core().registry.len() == 0,
            r.wf(),
    {
        let actions: Vec<ControlAction> = Vec::new();
        EmbedPaginator { items, head: 0, core: SessionCore::open(&actions, None) }
    }

    /// Opens the session for one scoped user: registers the two rotation
    /// controls and, when selection is offered, the Select control.
    ///
    /// The item sequence must be non-empty; an empty one is a caller bug.
    pub fn open(&mut self, user: u64, with_select: bool)
        requires
            old(self).wf(),
            old(self).spec_items().len() > 0,
        ensures
            final(self).wf(),
            final(self).spec_items() == old(self).spec_items(),
            final(self).spec_head() == old(self).spec_head(),
            final(self).spec_core().scope == Some(user),
            final(self).spec_core().registry.spec_actions() =~= (if with_select {
                seq![ControlAction::RotateLeft, ControlAction::RotateRight, ControlAction::Select]
            } else {
                seq![ControlAction::RotateLeft, ControlAction::RotateRight]
            }),
    {
        let mut actions: Vec<ControlAction> = Vec::new();
        actions.push(ControlAction::RotateLeft);
        actions.push(ControlAction::RotateRight);
        if with_select {
            actions.push(ControlAction::Select);
        }
        self.core = SessionCore::open(&actions, Some(user));
    }

    /// The current head position.
    pub fn head(&self) -> (r: usize)
        ensures
            r == self.spec_head(),
    {
        self.head
    }

    /// The item currently at the head.
    pub fn head_item(&self) -> (r: &T)
        requires
            self.wf(),
            self.spec_items().len() > 0,
        ensures
            r == self.spec_items()[self.spec_head()],
    {
        &self.items[self.head]
    }

    /// The item at an arbitrary position.
    pub fn item_at(&self, i: usize) -> (r: &T)
        requires
            i < self.spec_items().len(),
        ensures
            r == self.spec_items()[i as int],
    {
        &self.items[i]
    }

    /// The state and step that one event leads to.
    pub open spec fn spec_step(self, user: u64, token: Seq<char>) -> (Self, PaginatorStep) {
        match self.spec_core().spec_resolution(user, token) {
            Resolution::Ignored => (self, PaginatorStep::Ignored),
            Resolution::Apply(a) => match a {
                ControlAction::RotateRight => (
                    Self {
                        head: rot_right(self.spec_head(), self.spec_items().len() as int) as usize,
                        ..self
                    },
                    PaginatorStep::Redrawn,
                ),
                ControlAction::RotateLeft => (
                    Self {
                        head: rot_left(self.spec_head(), self.spec_items().len() as int) as usize,
                        ..self
                    },
                    PaginatorStep::Redrawn,
                ),
                ControlAction::Select => (self, PaginatorStep::Selected(self.head)),
                _ => (self, PaginatorStep::Ignored),
            },
        }
    }

    /// Applies one interaction event: drops it, rotates the cursor, or
    /// selects the current head.
    pub fn handle_event(&mut self, ev: &InteractionEvent) -> (r: PaginatorStep)
        requires
            old(self).wf(),
        ensures
            final(self).wf(),
            ((*final(self)), r) == old(self).spec_step(ev.user, ev.token@),
            final(self).spec_items() == old(self).spec_items(),
            final(self).spec_core() == old(self).spec_core(),
    {
        match self.core.resolve(ev) {
            Resolution::Ignored => PaginatorStep::Ignored,
            Resolution::Apply(a) => {
                proof {
                    assert(self.core.registry.spec_lookup(ev.token@) == Some(a));
                    self.core.registry.lemma_lookup_contained(ev.token@);
                    assert(self.core.registry.len() > 0);
                    assert(self.items@.len() > 0);
                }
                let len = self.items.len();
                match a {
                    ControlAction::RotateRight => {
                        if self.head + 1 == len {
                            self.head = 0;
                        } else {
                            self.head = self.head + 1;
                        }
                        PaginatorStep::Redrawn
                    },
                    ControlAction::RotateLeft => {
                        if self.head == 0 {
                            self.head = len - 1;
                        } else {
                            self.head = self.head - 1;
                        }
                        PaginatorStep::Redrawn
                    },
                    ControlAction::Select => PaginatorStep::Selected(self.head),
                    _ => PaginatorStep::Ignored,
                }
            },
        }
    }

    /// The whole interaction: consumes events in arrival order until Select
    /// ends the session, or the stream ends by timeout with no selection.
    pub open spec fn spec_run(self, events: Seq<InteractionEvent>) -> (Self, Option<usize>)
        decreases events.len(),
    {
        if events.len() == 0 {
            (self, None)
        } else {
            let ev = events.first();
            let (s2, st) = self.spec_step(ev.user, ev.token@);
            match st {
                PaginatorStep::Selected(i) => (s2, Some(i)),
                _ => s2.spec_run(events.drop_first()),
            }
        }
    }

    /// Drives the session over a finite event sequence; the sequence ending
    /// without a selection is the timeout.
    pub fn run(&mut self, events: &Vec<InteractionEvent>) -> (r: Option<usize>)
        requires
            old(self).wf(),
        ensures
            final(self).wf(),
            ((*final(self)), r) == old(self).spec_run(events@),
    {
        let n = events.len();
        let mut i: usize = 0;
        proof {
            assert(events@.skip(0) =~= events@);
        }
        while i < n
            invariant
                n == events@.len(),
                i <= n,
                self.wf(),
                old(self).spec_run(events@) == self.spec_run(events@.skip(i as int)),
            decreases n - i,
        {
            let ghost pre = *self;
            let ev = &events[i];
            proof {
                assert(events@.skip(i as int).first() == events@[i as int]);
                assert(events@.skip(i as int).drop_first() =~= events@.skip(i as int + 1));
            }
            let st = self.handle_event(ev);
            if let PaginatorStep::Selected(idx) = st {
                return Some(idx);
            }
            i = i + 1;
        }
        proof {
            assert(events@.skip(n as int) =~= Seq::<InteractionEvent>::empty());
        }
        None
    }

    /// The controls of the rendered view, in registry order, labelled as
    /// the paginator shows them.
    pub fn controls(&self) -> (r: Vec<Control>)
        requires
            self.wf(),
        ensures
            r@.len() == self.spec_core().registry.len(),
            forall|i: int|
                0 <= i < r@.len() ==> (#[trigger] r@[i]).token@
                    == self.spec_core().registry.spec_tokens()[i],
            forall|i: int|
                0 <= i < r@.len() ==> (#[trigger] r@[i]).label@
                    == paginator_label(self.spec_core().registry.spec_actions()[i]),
    {
        let n = self.core.registry.count();
        let mut r: Vec<Control> = Vec::new();
        let mut i: usize = 0;
        while i < n
            invariant
                n == self.core.registry.len(),
                i <= n,
                self.wf(),
                r@.len() == i,
                forall|k: int|
                    0 <= k < i ==> (#[trigger] r@[k]).token@
                        == self.core.registry.spec_tokens()[k],
                forall|k: int|
                    0 <= k < i ==> (#[trigger] r@[k]).label@
                        == paginator_label(self.core.registry.spec_actions()[k]),
            decreases n - i,
        {
            let token = self.core.registry.token_at(i).clone();
            let label = match self.core.registry.action_at(i) {
                ControlAction::RotateLeft => String::from_str("<-"),
                ControlAction::RotateRight => String::from_str("->"),
                _ => String::from_str("Select"),
            };
            r.push(Control { token, label });
            i = i + 1;
        }
        r
    }

    /// Registry closure: a non-terminal transition leaves the registry
    /// untouched, so every control of the newly rendered view still
    /// resolves in the existing registry.
    pub proof fn lemma_registry_closure(self, user: u64, token: Seq<char>)
        requires
            self.wf(),
            !(self.spec_step(user, token).1 is Selected),
        ensures
            self.spec_step(user, token).0.spec_core() == self.spec_core(),
            forall|i: int|
                0 <= i < self.spec_step(user, token).0.spec_core().registry.len()
                    ==> self.spec_core().registry.spec_lookup(
                    #[trigger] self.spec_step(user, token).0.spec_core().registry.spec_tokens()[i],
                ) is Some,
    {
        let s2 = self.spec_step(user, token).0;
        assert forall|i: int| 0 <= i < s2.spec_core().registry.len() implies self.spec_core()
            .registry.spec_lookup(#[trigger] s2.spec_core().registry.spec_tokens()[i]) is Some by {
            self.spec_core().registry.lemma_lookup_at(i);
        };
    }
}

/// The label the paginator gives the control bound to an action.
pub open spec fn paginator_label(a: ControlAction) -> Seq<char> {
    match a {
        ControlAction::RotateLeft => "<-"@,
        ControlAction::RotateRight => "->"@,
        _ => "Select"@,
    }
}

} // verus!
