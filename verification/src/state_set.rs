//! The xdg-toplevel states that the compositor puts on a window's pending state.
//!
//! A `StateSet` never holds a state twice: setting a state that is present changes
//! nothing, setting an absent one appends it, and unsetting removes it.
use vstd::prelude::*;

verus! {

/// A state of an xdg toplevel, as the xdg-shell protocol lists them.
#[derive(Clone, Copy, Debug, PartialEq, Eq, Structural)]
pub enum WindowState {
    Maximized,
    Fullscreen,
    Resizing,
    Activated,
    TiledLeft,
    TiledRight,
    TiledTop,
    TiledBottom,
    Suspended,
    ConstrainedLeft,
    ConstrainedRight,
    ConstrainedTop,
    ConstrainedBottom,
}

impl WindowState {
    /// The state's value on the wire.
    pub open spec fn code(self) -> u32 {
        match self {
            WindowState::Maximized => 1,
            WindowState::Fullscreen => 2,
            WindowState::Resizing => 3,
            WindowState::Activated => 4,
            WindowState::TiledLeft => 5,
            WindowState::TiledRight => 6,
            WindowState::TiledTop => 7,
            WindowState::TiledBottom => 8,
            WindowState::Suspended => 9,
            WindowState::ConstrainedLeft => 10,
            WindowState::ConstrainedRight => 11,
            WindowState::ConstrainedTop => 12,
            WindowState::ConstrainedBottom => 13,
        }
    }

    /// The state's value on the wire.
    pub fn wire_code(self) -> (r: u32)
        ensures
            r == self.code(),
            self == WindowState::Maximized ==> r == 1,
            self == WindowState::Fullscreen ==> r == 2,
            self == WindowState::Resizing ==> r == 3,
            self == WindowState::Activated ==> r == 4,
            self == WindowState::TiledLeft ==> r == 5,
            self == WindowState::TiledRight ==> r == 6,
            self == WindowState::TiledTop ==> r == 7,
            self == WindowState::TiledBottom ==> r == 8,
            self == WindowState::Suspended ==> r == 9,
            self == WindowState::ConstrainedLeft ==> r == 10,
            self == WindowState::ConstrainedRight ==> r == 11,
            self == WindowState::ConstrainedTop ==> r == 12,
            self == WindowState::ConstrainedBottom ==> r == 13,
    {
        match self {
            WindowState::Maximized => 1,
            WindowState::Fullscreen => 2,
            WindowState::Resizing => 3,
            WindowState::Activated => 4,
            WindowState::TiledLeft => 5,
            WindowState::TiledRight => 6,
            WindowState::TiledTop => 7,
            WindowState::TiledBottom => 8,
            WindowState::Suspended => 9,
            WindowState::ConstrainedLeft => 10,
            WindowState::ConstrainedRight => 11,
            WindowState::ConstrainedTop => 12,
            WindowState::ConstrainedBottom => 13,
        }
    }

    /// The state whose wire value is `code`, if there is one.
    pub fn from_wire_code(code: u32) -> (r: Option<WindowState>)
        ensures
            match r {
                Some(s) => s.code() == code,
                None => !(1 <= code <= 13),
            },
            code == 1 ==> r == Some(WindowState::Maximized),
            code == 2 ==> r == Some(WindowState::Fullscreen),
            code == 3 ==> r == Some(WindowState::Resizing),
            code == 4 ==> r == Some(WindowState::Activated),
            code == 5 ==> r == Some(WindowState::TiledLeft),
            code == 6 ==> r == Some(WindowState::TiledRight),
            code == 7 ==> r == Some(WindowState::TiledTop),
            code == 8 ==> r == Some(WindowState::TiledBottom),
            code == 9 ==> r == Some(WindowState::Suspended),
            code == 10 ==> r == Some(WindowState::ConstrainedLeft),
            code == 11 ==> r == Some(WindowState::ConstrainedRight),
            code == 12 ==> r == Some(WindowState::ConstrainedTop),
            code == 13 ==> r == Some(WindowState::ConstrainedBottom),
            !(1 <= code <= 13) ==> r is None,
    {
        match code {
            1 => Some(WindowState::Maximized),
            2 => Some(WindowState::Fullscreen),
            3 => Some(WindowState::Resizing),
            4 => Some(WindowState::Activated),
            5 => Some(WindowState::TiledLeft),
            6 => Some(WindowState::TiledRight),
            7 => Some(WindowState::TiledTop),
            8 => Some(WindowState::TiledBottom),
            9 => Some(WindowState::Suspended),
            10 => Some(WindowState::ConstrainedLeft),
            11 => Some(WindowState::ConstrainedRight),
            12 => Some(WindowState::ConstrainedTop),
            13 => Some(WindowState::ConstrainedBottom),
            _ => None,
        }
    }
}

/// Law: each state has the wire value that the xdg-shell protocol gives it, and no
/// two states share one, so a value read back names the state that was sent.
pub proof fn lemma_wire_values(a: WindowState, b: WindowState)
    ensures
        WindowState::Maximized.code() == 1,
        WindowState::Fullscreen.code() == 2,
        WindowState::Resizing.code() == 3,
        WindowState::Activated.code() == 4,
        WindowState::TiledLeft.code() == 5,
        WindowState::TiledRight.code() == 6,
        WindowState::TiledTop.code() == 7,
        WindowState::TiledBottom.code() == 8,
        WindowState::Suspended.code() == 9,
        WindowState::ConstrainedLeft.code() == 10,
        WindowState::ConstrainedRight.code() == 11,
        WindowState::ConstrainedTop.code() == 12,
        WindowState::ConstrainedBottom.code() == 13,
        1 <= a.code() <= 13,
        a.code() == b.code() ==> a == b,
{
}

/// `states` with `s` added at the end, unless it is already there.
pub open spec fn with_state(states: Seq<WindowState>, s: WindowState) -> Seq<WindowState> {
    if states.contains(s) {
        states
    } else {
        states.push(s)
    }
}

/// `states` with every occurrence of `s` taken out, the others kept in order.
pub open spec fn without_state(states: Seq<WindowState>, s: WindowState) -> Seq<WindowState> {
    states.filter(other_than(s))
}

/// The test that keeps every state but `s`.
pub open spec fn other_than(s: WindowState) -> spec_fn(WindowState) -> bool {
    |x: WindowState| x != s
}

/// An element survives filtering exactly when it was there and passes the test.
pub proof fn lemma_filter_contains_iff<A>(s: Seq<A>, pred: spec_fn(A) -> bool, x: A)
    ensures
        s.filter(pred).contains(x) <==> (s.contains(x) && pred(x)),
    decreases s.len(),
{
    reveal(Seq::filter);
    if s.len() > 0 {
        let init = s.drop_last();
        lemma_filter_contains_iff(init, pred, x);
        let f = init.filter(pred);
        if init.contains(x) {
            let k = choose|k: int| 0 <= k < init.len() && init[k] == x;
            assert(s[k] == x);
        }
        if s.contains(x) && !init.contains(x) {
            let k = choose|k: int| 0 <= k < s.len() && s[k] == x;
            if k < s.len() - 1 {
                assert(init[k] == x);
            }
        }
        if pred(s.last()) {
            assert(s.filter(pred) == f.push(s.last()));
            if f.push(s.last()).contains(x) {
                let k = choose|k: int| 0 <= k < f.len() + 1 && f.push(s.last())[k] == x;
                if k < f.len() {
                    assert(f[k] == x);
                }
            }
            if f.contains(x) {
                let k = choose|k: int| 0 <= k < f.len() && f[k] == x;
                assert(f.push(s.last())[k] == x);
            }
            assert(f.push(s.last())[f.len() as int] == s.last());
        }
    }
}

/// Filtering keeps a sequence free of duplicates.
pub proof fn lemma_filter_keeps_distinct<A>(s: Seq<A>, pred: spec_fn(A) -> bool)
    requires
        s.no_duplicates(),
    ensures
        s.filter(pred).no_duplicates(),
    decreases s.len(),
{
    reveal(Seq::filter);
    if s.len() > 0 {
        let init = s.drop_last();
        assert(init.no_duplicates());
        lemma_filter_keeps_distinct(init, pred);
        if pred(s.last()) {
            lemma_filter_contains_iff(init, pred, s.last());
            assert(!init.contains(s.last())) by {
                if init.contains(s.last()) {
                    let k = choose|k: int| 0 <= k < init.len() && init[k] == s.last();
                    assert(s[k] == s[s.len() - 1]);
                }
            }
        }
    }
}

/// Filtering keeps a sequence whose elements all pass the test as it is.
pub proof fn lemma_filter_all<A>(s: Seq<A>, pred: spec_fn(A) -> bool)
    requires
        forall|i: int| 0 <= i < s.len() ==> pred(#[trigger] s[i]),
    ensures
        s.filter(pred) == s,
    decreases s.len(),
{
    reveal(Seq::filter);
    if s.len() > 0 {
        let init = s.drop_last();
        assert forall|i: int| 0 <= i < init.len() implies pred(#[trigger] init[i]) by {
            assert(init[i] == s[i]);
        }
        lemma_filter_all(init, pred);
        assert(s.filter(pred) =~= s);
    }
}

/// Two filters in a row keep what passes both tests.
pub proof fn lemma_filter_filter<A>(s: Seq<A>, p: spec_fn(A) -> bool, q: spec_fn(A) -> bool)
    ensures
        s.filter(p).filter(q) == s.filter(|x: A| p(x) && q(x)),
    decreases s.len(),
{
    reveal(Seq::filter);
    let pq = |x: A| p(x) && q(x);
    if s.len() > 0 {
        let init = s.drop_last();
        lemma_filter_filter(init, p, q);
        if p(s.last()) {
            init.filter(p).lemma_filter_push(s.last(), q);
        }
    } else {
        assert(s.filter(p).filter(q) =~= s.filter(pq));
    }
}

/// Law: after adding `s`, a sequence holds `s` and everything it held, and nothing else.
pub proof fn lemma_with_state_membership(states: Seq<WindowState>, s: WindowState)
    ensures
        forall|y: WindowState| with_state(states, s).contains(y) <==> (states.contains(y) || y == s),
{
    assert forall|y: WindowState| with_state(states, s).contains(y) <==> (states.contains(y) || y == s) by {
        if !states.contains(s) {
            assert(states.push(s)[states.len() as int] == s);
            if states.contains(y) {
                let k = choose|k: int| 0 <= k < states.len() && states[k] == y;
                assert(states.push(s)[k] == y);
            }
            if states.push(s).contains(y) && y != s {
                let k = choose|k: int| 0 <= k < states.len() + 1 && states.push(s)[k] == y;
                assert(states[k] == y);
            }
        }
    }
}

/// Law: after taking `s` out, a sequence holds no `s` and every other state it held.
pub proof fn lemma_without_state_membership(states: Seq<WindowState>, s: WindowState)
    ensures
        forall|y: WindowState| without_state(states, s).contains(y) <==> (states.contains(y) && y != s),
        !states.contains(s) ==> without_state(states, s) == states,
{
    assert forall|y: WindowState| without_state(states, s).contains(y) <==> (states.contains(y) && y != s) by {
        lemma_filter_contains_iff(states, other_than(s), y);
    }
    if !states.contains(s) {
        assert forall|i: int| 0 <= i < states.len() implies other_than(s)(#[trigger] states[i]) by {
            assert(states.contains(states[i]));
        }
        lemma_filter_all(states, other_than(s));
    }
}

/// Law: in a sequence without duplicates, taking `s` out removes the one place where
/// it stands and keeps the rest in order.
pub proof fn lemma_without_state_removes(states: Seq<WindowState>, s: WindowState)
    requires
        states.no_duplicates(),
    ensures
        states.contains(s) ==> exists|i: int|
            0 <= i < states.len() && states[i] == s && without_state(states, s) == states.remove(i),
{
    if states.contains(s) {
        let i = choose|i: int| 0 <= i < states.len() && states[i] == s;
        let p = other_than(s);
        let a = states.take(i);
        let b = states.skip(i + 1);
        assert(states == a + seq![s] + b);
        Seq::filter_distributes_over_add(a + seq![s], b, p);
        Seq::filter_distributes_over_add(a, seq![s], p);
        assert forall|k: int| 0 <= k < a.len() implies p(#[trigger] a[k]) by {
            assert(a[k] == states[k]);
        }
        assert forall|k: int| 0 <= k < b.len() implies p(#[trigger] b[k]) by {
            assert(b[k] == states[i + 1 + k]);
        }
        lemma_filter_all(a, p);
        lemma_filter_all(b, p);
        reveal(Seq::filter);
        let e = Seq::<WindowState>::empty();
        e.lemma_filter_push(s, p);
        assert(seq![s] =~= e.push(s));
        assert(e.filter(p) =~= e);
        assert(!p(s));
        assert(seq![s].filter(p) =~= e);
        assert(states.remove(i) =~= a + b);
        assert(without_state(states, s) == states.remove(i));
    }
}

/// A set of toplevel states that remembers the order in which they were added.
pub struct StateSet {
    states: Vec<WindowState>,
}

impl View for StateSet {
    type V = Seq<WindowState>;

    closed spec fn view(&self) -> Seq<WindowState> {
        self.states@
    }
}

impl StateSet {
    #[verifier::type_invariant]
    spec fn no_state_twice(self) -> bool {
        self.states@.no_duplicates()
    }

    /// An empty set.
    pub fn new() -> (r: StateSet)
        ensures
            r@ == Seq::<WindowState>::empty(),
    {
        StateSet { states: Vec::new() }
    }

    /// Whether the set holds `s`.
    pub fn contains(&self, s: WindowState) -> (r: bool)
        ensures
            r == self@.contains(s),
            self@.no_duplicates(),
    {
        proof {
            use_type_invariant(self);
        }
        let n = self.states.len();
        let mut i: usize = 0;
        while i < n
            invariant
                n == self.states@.len(),
                self.states@.no_duplicates(),
                i <= n,
                forall|j: int| 0 <= j < i ==> self.states@[j] != s,
            decreases n - i,
        {
            if self.states[i] == s {
                return true;
            }
            i = i + 1;
        }
        false
    }

    /// Adds `s` at the end unless the set holds it already; returns whether it was added.
    pub fn set(&mut self, s: WindowState) -> (added: bool)
        ensures
            added == !old(self)@.contains(s),
            final(self)@ == with_state(old(self)@, s),
            final(self)@.no_duplicates(),
            forall|y: WindowState| final(self)@.contains(y) <==> (old(self)@.contains(y) || y == s),
            old(self)@.contains(s) ==> final(self)@ == old(self)@,
            !old(self)@.contains(s) ==> final(self)@ == old(self)@.push(s),
    {
        proof {
            lemma_with_state_membership(self@, s);
        }
        if self.contains(s) {
            false
        } else {
            let mut states: Vec<WindowState> = Vec::new();
            std::mem::swap(&mut states, &mut self.states);
            states.push(s);
            self.states = states;
            true
        }
    }

    /// Takes `s` out of the set; returns whether it was there.
    pub fn unset(&mut self, s: WindowState) -> (removed: bool)
        ensures
            removed == old(self)@.contains(s),
            final(self)@ == without_state(old(self)@, s),
            final(self)@.no_duplicates(),
            forall|y: WindowState| final(self)@.contains(y) <==> (old(self)@.contains(y) && y != s),
            !removed ==> final(self)@ == old(self)@,
            removed ==> exists|i: int|
                0 <= i < old(self)@.len() && old(self)@[i] == s && final(self)@ == old(self)@.remove(i),
    {
        proof {
            use_type_invariant(&*self);
        }
        let ghost pred = other_than(s);
        let present = self.contains(s);
        let n = self.states.len();
        let mut kept: Vec<WindowState> = Vec::new();
        let mut i: usize = 0;
        while i < n
            invariant
                n == self.states@.len(),
                i <= n,
                pred == other_than(s),
                kept@ == self.states@.take(i as int).filter(pred),
            decreases n - i,
        {
            let x = self.states[i];
            proof {
                assert(self.states@.take(i + 1) == self.states@.take(i as int).push(x));
                self.states@.take(i as int).lemma_filter_push(x, pred);
            }
            if x != s {
                kept.push(x);
            }
            i = i + 1;
        }
        proof {
            assert(self.states@.take(n as int) == self.states@);
            lemma_filter_keeps_distinct(self.states@, pred);
            assert(kept@ == without_state(self.states@, s));
            lemma_without_state_membership(self.states@, s);
            lemma_without_state_removes(self.states@, s);
        }
        self.states = kept;
        present
    }

    /// The states in the order in which they were added.
    pub fn to_vec(&self) -> (r: Vec<WindowState>)
        ensures
            r@ == self@,
    {
        self.states.clone()
    }
}

} // verus!
