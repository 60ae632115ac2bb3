//! Candidate tunnel endpoints and the round-robin cursor over them.

use vstd::arithmetic::div_mod::{
    lemma_add_mod_noop, lemma_mod_bound, lemma_mod_equivalence, lemma_mod_multiples_vanish,
    lemma_small_mod,
};
use vstd::prelude::*;

verus! {

/// An address/port pair identifying a tunnel remote.
#[derive(Debug, PartialEq, Eq)]
pub struct Endpoint {
    pub address: String,
    pub port: u16,
}

impl View for Endpoint {
    type V = (Seq<char>, u16);

    open spec fn view(&self) -> (Seq<char>, u16) {
        (self.address@, self.port)
    }
}

impl Clone for Endpoint {
    fn clone(&self) -> (copy: Endpoint)
        ensures
            copy@ == self@,
    {
        Endpoint { address: self.address.clone(), port: self.port }
    }
}

impl Endpoint {
    /// An endpoint at `address`, port `port`.
    pub fn new(address: &str, port: u16) -> (endpoint: Endpoint)
        ensures
            endpoint@ == (address@, port),
    {
        Endpoint { address: address.to_owned(), port }
    }
}

/// The mathematical content of a [`RemoteSelector`]: the configured
/// endpoints in order, and the position of the one that is handed out next.
pub struct SelectorView {
    pub remotes: Seq<(Seq<char>, u16)>,
    pub cursor: nat,
}

impl SelectorView {
    /// The list is not empty and the cursor points into it.
    pub open spec fn wf(self) -> bool {
        0 <= self.cursor < self.remotes.len()
    }

    /// The endpoint that the next pick hands out.
    pub open spec fn current(self) -> (Seq<char>, u16) {
        self.remotes[self.cursor as int]
    }

    /// The selector after one pick: same list, cursor one further, wrapping
    /// at the end of the list.
    pub open spec fn advance(self) -> SelectorView {
        SelectorView {
            remotes: self.remotes,
            cursor: (self.cursor + 1) % self.remotes.len(),
        }
    }

    /// The selector after `n` picks.
    pub open spec fn advance_by(self, n: nat) -> SelectorView
        decreases n,
    {
        if n == 0 {
            self
        } else {
            self.advance().advance_by((n - 1) as nat)
        }
    }

    /// The position in the list of the endpoint handed out by pick number
    /// `k` from now, counting from zero.
    pub open spec fn position_of_pick(self, k: nat) -> nat {
        (self.cursor + k) % self.remotes.len()
    }
}

/// A cyclic, endless sequence over a fixed, non-empty list of endpoints.
pub struct RemoteSelector {
    remotes: Vec<Endpoint>,
    cursor: usize,
}

impl View for RemoteSelector {
    type V = SelectorView;

    closed spec fn view(&self) -> SelectorView {
        SelectorView {
            remotes: Seq::new(self.remotes@.len(), |i: int| self.remotes@[i]@),
            cursor: self.cursor as nat,
        }
    }
}

/// The views of a list of endpoints, in order.
pub open spec fn endpoint_views(remotes: Seq<Endpoint>) -> Seq<(Seq<char>, u16)> {
    Seq::new(remotes.len(), |i: int| remotes[i]@)
}

impl RemoteSelector {
    #[verifier::type_invariant]
    spec fn inv(self) -> bool {
        self.cursor < self.remotes@.len()
    }

    /// A selector over `remotes` that starts at the first of them. There is
    /// no selector over an empty list.
    pub fn new(remotes: Vec<Endpoint>) -> (selector: Option<RemoteSelector>)
        ensures
            selector is None <==> remotes@.len() == 0,
            selector matches Some(s) ==> s@.wf() && s@.cursor == 0 && s@.remotes == endpoint_views(
                remotes@,
            ),
    {
        if remotes.len() == 0 {
            None
        } else {
            Some(RemoteSelector { remotes, cursor: 0 })
        }
    }

    /// The number of configured endpoints.
    pub fn len(&self) -> (n: usize)
        ensures
            n == self@.remotes.len(),
            n > 0,
    {
        proof {
            use_type_invariant(self);
        }
        self.remotes.len()
    }

    /// The position of the endpoint that the next pick hands out.
    pub fn cursor(&self) -> (cursor: usize)
        ensures
            cursor == self@.cursor,
            cursor < self@.remotes.len(),
    {
        proof {
            use_type_invariant(self);
        }
        self.cursor
    }

    /// The endpoint under the cursor: the one that the next pick hands out.
    pub fn current(&self) -> (endpoint: &Endpoint)
        ensures
            self@.wf(),
            endpoint@ == self@.current(),
    {
        proof {
            use_type_invariant(self);
        }
        &self.remotes[self.cursor]
    }

    /// Moves the cursor one further, back to the start after the last
    /// endpoint.
    pub fn advance(&mut self)
        ensures
            old(self)@.wf(),
            final(self)@ == old(self)@.advance(),
            final(self)@.wf(),
        no_unwind
    {
        proof {
            use_type_invariant(&*self);
        }
        let count: usize = self.remotes.len();
        let following: usize = self.cursor + 1;
        if following == count {
            self.cursor = 0;
        } else {
            self.cursor = following;
        }
        proof {
            let n = count as int;
            let c = old(self).cursor as int;
            assert(self@.remotes =~= old(self)@.remotes);
            assert(c + 1 == n ==> (c + 1) % n == 0) by (nonlinear_arith)
                requires
                    n > 0,
            ;
            assert(c + 1 < n ==> (c + 1) % n == c + 1) by (nonlinear_arith)
                requires
                    c >= 0,
            ;
        }
    }

    /// Hands out the endpoint under the cursor and moves the cursor one
    /// further, back to the start after the last endpoint.
    pub fn next(&mut self) -> (endpoint: Endpoint)
        ensures
            old(self)@.wf(),
            endpoint@ == old(self)@.current(),
            final(self)@ == old(self)@.advance(),
            final(self)@.wf(),
    {
        let endpoint = self.current().clone();
        self.advance();
        endpoint
    }
}

/// After `n` picks the list is unchanged and the cursor stands `n` places
/// further round the cycle; the selector stays well formed.
pub proof fn lemma_advance_by(v: SelectorView, n: nat)
    requires
        v.wf(),
    ensures
        v.advance_by(n).wf(),
        v.advance_by(n).remotes == v.remotes,
        v.advance_by(n).cursor == v.position_of_pick(n),
        v.advance_by(n).current() == v.remotes[v.position_of_pick(n) as int],
    decreases n,
{
    let len = v.remotes.len() as int;
    let c = v.cursor as int;
    if n == 0 {
        lemma_small_mod(v.cursor, v.remotes.len());
    } else {
        let next = v.advance();
        lemma_mod_bound(c + 1, len);
        lemma_advance_by(next, (n - 1) as nat);
        // ((c + 1) % len + (n - 1)) % len == (c + n) % len
        lemma_add_mod_noop(c + 1, n - 1, len);
        lemma_add_mod_noop((c + 1) % len, n - 1, len);
        lemma_mod_bound(c + 1, len);
        lemma_small_mod(((c + 1) % len) as nat, len as nat);
    }
}

/// Round robin: within any run of picks that is no longer than the list, no
/// position of the list is handed out twice.
pub proof fn lemma_picks_in_a_cycle_are_distinct(v: SelectorView, i: nat, j: nat)
    requires
        v.wf(),
        i < j,
        j - i < v.remotes.len(),
    ensures
        v.position_of_pick(i) != v.position_of_pick(j),
{
    let len = v.remotes.len() as int;
    let c = v.cursor as int;
    if (c + i) % len == (c + j) % len {
        lemma_mod_equivalence(c + j, c + i, len);
        assert((c + j) - (c + i) == j - i);
        lemma_small_mod((j - i) as nat, len as nat);
        assert(false);
    }
}

/// Round robin: the picks repeat with the period of the list, so after as
/// many picks as there are endpoints the selector is where it began, and
/// pick `k + len` hands out what pick `k` did.
pub proof fn lemma_picks_repeat_after_a_cycle(v: SelectorView, k: nat)
    requires
        v.wf(),
    ensures
        v.advance_by(v.remotes.len()) == v,
        v.position_of_pick(k + v.remotes.len()) == v.position_of_pick(k),
{
    let len = v.remotes.len() as int;
    let c = v.cursor as int;
    lemma_advance_by(v, v.remotes.len());
    lemma_mod_multiples_vanish(1, c, len);
    lemma_small_mod(v.cursor, v.remotes.len());
    lemma_mod_multiples_vanish(1, c + k, len);
    assert(len * 1 + c == c + len);
    assert(len * 1 + (c + k) == c + (k + len));
}

} // verus!
