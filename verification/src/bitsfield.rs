//! A growable set of small integer indices, used to track which binding
//! slots (texture units, uniform-buffer binding points) one draw call has
//! already claimed.  Created empty for the call and discarded at its end.

use vstd::prelude::*;

verus! {

/// The set of slot indices claimed so far during one draw call.
pub struct Bitsfield {
    /// Claim flags by slot index; indices beyond the end are unclaimed.
    pub used: Vec<bool>,
}

impl Bitsfield {
    /// Whether slot `i` is claimed.  Slots beyond the recorded length are
    /// unclaimed.
    pub open spec fn used_spec(self, i: int) -> bool {
        Self::used_at(self.used@, i)
    }

    /// The number of claimed slots.
    pub open spec fn count_spec(self) -> int {
        Self::count_true(self.used@)
    }

    /// How many entries of a prefix are set.
    pub open spec fn count_true(s: Seq<bool>) -> int
        decreases s.len(),
    {
        if s.len() == 0 {
            0
        } else {
            Self::count_true(s.drop_last()) + if s.last() {
                1int
            } else {
                0int
            }
        }
    }

    /// Whether a claim vector marks slot `i`; slots beyond its end are
    /// unclaimed.
    pub open spec fn used_at(s: Seq<bool>, i: int) -> bool {
        0 <= i < s.len() && s[i]
    }

    /// The claim vector after slot `i` is claimed: set in place, or padded
    /// with unclaimed slots up to `i` first.
    pub open spec fn set_used_seq(s: Seq<bool>, i: int) -> Seq<bool> {
        if i < s.len() {
            s.update(i, true)
        } else {
            (s + Seq::new((i - s.len()) as nat, |k: int| false)).push(true)
        }
    }

    /// The first slot from `i` on that a claim vector leaves unclaimed.
    pub open spec fn first_unused_at(s: Seq<bool>, i: int) -> int
        decreases s.len() - i,
    {
        if i < 0 {
            0
        } else if i >= s.len() {
            i
        } else if !s[i] {
            i
        } else {
            Self::first_unused_at(s, i + 1)
        }
    }

    /// A slot that is unclaimed while every earlier one is claimed is the
    /// first unclaimed slot.
    pub proof fn lemma_first_unused_char(s: Seq<bool>, r: int, i: int)
        requires
            0 <= i <= r,
            !Self::used_at(s, r),
            forall|j: int| 0 <= j < r ==> Self::used_at(s, j),
        ensures
            Self::first_unused_at(s, i) == r,
        decreases r - i,
    {
        if i < r {
            assert(Self::used_at(s, i));
            assert(Self::first_unused_at(s, i) == Self::first_unused_at(s, i + 1));
            Self::lemma_first_unused_char(s, r, i + 1);
        } else {
            if r >= s.len() {
                assert(Self::first_unused_at(s, r) == r);
            } else {
                assert(!s[r]);
                assert(Self::first_unused_at(s, r) == r);
            }
        }
    }

    /// An empty set: no slot is claimed.
    pub fn new() -> (r: Bitsfield)
        ensures
            forall|i: int| !r.used_spec(i),
            r.count_spec() == 0,
            r.used@.len() == 0,
    {
        Bitsfield { used: Vec::new() }
    }

    /// Whether slot `i` is claimed.
    pub fn is_used(&self, i: usize) -> (r: bool)
        ensures
            r == self.used_spec(i as int),
    {
        i < self.used.len() && self.used[i]
    }

    /// The first unclaimed slot.  Claimed slots are finitely many, so there
    /// always is one: every slot at or beyond the recorded length is free.
    pub fn get_unused(&self) -> (r: usize)
        requires
            self.used@.len() < usize::MAX,
        ensures
            r as int == Self::first_unused_at(self.used@, 0),
            !self.used_spec(r as int),
            forall|j: int| 0 <= j < r ==> self.used_spec(j),
            r <= self.count_spec(),
    {
        let mut i: usize = 0;
        while i < self.used.len() && self.used[i]
            invariant
                i <= self.used@.len(),
                forall|j: int| 0 <= j < i ==> self.used_spec(j),
            decreases self.used@.len() - i,
        {
            i += 1;
        }
        proof {
            assert forall|j: int| 0 <= j < i implies self.used@[j] by {
                assert(self.used_spec(j));
            }
            Self::lemma_count_prefix(self.used@, i as int);
            Self::lemma_first_unused_char(self.used@, i as int, 0);
        }
        i
    }

    /// A prefix of claimed slots bounds the claimed count from below.
    proof fn lemma_count_prefix(s: Seq<bool>, n: int)
        requires
            0 <= n <= s.len(),
            forall|j: int| 0 <= j < n ==> s[j],
        ensures
            n <= Self::count_true(s),
        decreases s.len(),
    {
        if s.len() > 0 {
            if n == s.len() {
                Self::lemma_count_prefix(s.drop_last(), n - 1);
            } else {
                Self::lemma_count_prefix(s.drop_last(), n);
            }
        }
    }

    /// Claiming one slot raises the claimed count by at most one and leaves
    /// every other slot as it was.
    pub fn set_used(&mut self, i: usize)
        requires
            i < usize::MAX,
            old(self).used@.len() < usize::MAX,
        ensures
            final(self).used_spec(i as int),
            forall|j: int| j != i ==> final(self).used_spec(j) == old(self).used_spec(j),
            final(self).count_spec() <= old(self).count_spec() + 1,
            old(self).count_spec() <= final(self).count_spec(),
            final(self).used@.len() == (if i < old(self).used@.len() {
                old(self).used@.len() as int
            } else {
                i + 1
            }),
            final(self).used@ == Self::set_used_seq(old(self).used@, i as int),
    {
        let ghost prior = self.used@;
        if i < self.used.len() {
            self.used.set(i, true);
            proof {
                Self::lemma_count_set_true(prior, i as int);
                assert(self.used@ == Self::set_used_seq(prior, i as int));
            }
        } else {
            proof {
                assert(self.used@ =~= prior + Seq::new(0, |k: int| false));
            }
            while self.used.len() < i
                invariant
                    prior.len() <= self.used@.len() <= i,
                    i < usize::MAX,
                    self.used@ == prior + Seq::new(
                        (self.used@.len() - prior.len()) as nat,
                        |k: int| false,
                    ),
                decreases i - self.used@.len(),
            {
                self.used.push(false);
                proof {
                    assert(self.used@ =~= prior + Seq::new(
                        (self.used@.len() - prior.len()) as nat,
                        |k: int| false,
                    ));
                }
            }
            let ghost padded = self.used@;
            self.used.push(true);
            proof {
                Self::lemma_count_padding(prior, padded.len() - prior.len());
                assert(self.used@.drop_last() =~= padded);
                assert(Self::count_true(self.used@) == Self::count_true(padded) + 1);
                assert(self.used@ =~= Self::set_used_seq(prior, i as int));
                assert forall|j: int| j != i implies self.used_spec(j) == old(
                    self,
                ).used_spec(j) by {
                    if 0 <= j < prior.len() {
                        assert(self.used@[j] == prior[j]);
                    } else if prior.len() <= j < i {
                        assert(self.used@[j] == false);
                    }
                }
            }
        }
    }

    /// Padding with unclaimed slots does not change the claimed count.
    proof fn lemma_count_padding(s: Seq<bool>, n: int)
        requires
            n >= 0,
        ensures
            Self::count_true(s + Seq::new(n as nat, |k: int| false)) == Self::count_true(s),
        decreases n,
    {
        if n == 0 {
            assert(s + Seq::new(0, |k: int| false) =~= s);
        } else {
            let padded = s + Seq::new(n as nat, |k: int| false);
            assert(padded.drop_last() =~= s + Seq::new((n - 1) as nat, |k: int| false));
            assert(!padded.last());
            Self::lemma_count_padding(s, n - 1);
        }
    }

    /// Claiming a slot in range changes the claimed count by zero or one.
    proof fn lemma_count_set_true(s: Seq<bool>, i: int)
        requires
            0 <= i < s.len(),
        ensures
            Self::count_true(s.update(i, true)) <= Self::count_true(s) + 1,
            Self::count_true(s) <= Self::count_true(s.update(i, true)),
        decreases s.len(),
    {
        let t = s.update(i, true);
        if i == s.len() - 1 {
            assert(t.drop_last() =~= s.drop_last());
        } else {
            assert(t.drop_last() =~= s.drop_last().update(i, true));
            assert(t.last() == s.last());
            Self::lemma_count_set_true(s.drop_last(), i);
        }
    }

    /// The claimed count never exceeds the recorded length.
    pub proof fn lemma_count_at_most_len(s: Seq<bool>)
        ensures
            Self::count_true(s) <= s.len(),
        decreases s.len(),
    {
        if s.len() > 0 {
            Self::lemma_count_at_most_len(s.drop_last());
        }
    }
}

} // verus!
