//! The fence registry: at most one live synchronization token per resource.
//!
//! A resource that an issued device command will read gets a fence installed
//! after the command; CPU code that later touches the resource first waits
//! the fence out.  Installing a new fence for a resource replaces and hands
//! back the previous one, which the caller must destroy: a fence must never
//! be dropped silently while the device may still be reading.

use vstd::prelude::*;

verus! {

/// The live fences, keyed by the resource (buffer) they guard.
pub struct FenceRegistry {
    /// One entry per resource with a live fence: the resource's name and the
    /// fence token.  No resource appears twice.
    pub entries: Vec<(u32, u64)>,
}

/// The fence a sequence of registry entries holds for a resource: the first
/// entry with that key, if any.
pub open spec fn seq_fence_of(s: Seq<(u32, u64)>, buffer: u32) -> Option<u64>
    decreases s.len(),
{
    if s.len() == 0 {
        None
    } else if s[0].0 == buffer {
        Some(s[0].1)
    } else {
        seq_fence_of(s.drop_first(), buffer)
    }
}

impl FenceRegistry {
    /// The live fence guarding a resource, if any.
    pub open spec fn fence_of(self, buffer: u32) -> Option<u64> {
        seq_fence_of(self.entries@, buffer)
    }

    /// The registry as a map from each fenced resource to its live fence.
    pub open spec fn view_map(self) -> Map<u32, u64> {
        Map::new(|b: u32| self.fence_of(b) is Some, |b: u32| self.fence_of(b)->0)
    }

    /// Well-formed: no resource has two live fences.
    pub open spec fn wf(self) -> bool {
        forall|j: int, k: int|
            0 <= j < k < self.entries@.len() ==> (#[trigger] self.entries@[j]).0 != (
            #[trigger] self.entries@[k]).0
    }

    /// An empty registry: no resource has a live fence.
    pub fn new() -> (r: FenceRegistry)
        ensures
            r.wf(),
            forall|b: u32| r.fence_of(b) == None::<u64>,
    {
        let r = FenceRegistry { entries: Vec::new() };
        proof {
            assert forall|b: u32| r.fence_of(b) == None::<u64> by {
                assert(r.entries@.len() == 0);
            }
        }
        r
    }

    /// Installs `fence` as the live fence of `buffer` and returns the fence
    /// it replaces, which the caller must destroy.
    pub fn install(&mut self, buffer: u32, fence: u64) -> (prev: Option<u64>)
        requires
            old(self).wf(),
            old(self).entries@.len() < usize::MAX,
        ensures
            final(self).wf(),
            prev == old(self).fence_of(buffer),
            final(self).fence_of(buffer) == Some(fence),
            forall|b: u32| b != buffer ==> final(self).fence_of(b) == old(self).fence_of(b),
            final(self).entries@.len() <= old(self).entries@.len() + 1,
    {
        let ghost prior = self.entries@;
        let n = self.entries.len();
        let mut i: usize = 0;
        while i < n
            invariant
                prior == old(self).entries@,
                old(self).wf(),
                self.entries@ == prior,
                n == self.entries@.len(),
                i <= n,
                forall|j: int| 0 <= j < i ==> (#[trigger] self.entries@[j]).0 != buffer,
            decreases n - i,
        {
            if self.entries[i].0 == buffer {
                let prev = self.entries[i].1;
                self.entries.set(i, (buffer, fence));
                proof {
                    assert(prior[i as int].0 == buffer);
                    lemma_fence_of_update(prior, i as int, buffer, fence);
                    lemma_fence_of_at(prior, i as int);
                    assert(seq_fence_of(prior, buffer) == Some(prior[i as int].1));
                    assert(self.entries@ == prior.update(i as int, (buffer, fence)));
                    assert forall|m: int| 0 <= m < self.entries@.len() implies (
                    #[trigger] self.entries@[m]).0 == prior[m].0 by {}
                }
                return Some(prev);
            }
            i += 1;
        }
        self.entries.push((buffer, fence));
        proof {
            lemma_fence_of_push(prior, buffer, fence);
            lemma_fence_of_missing(prior, buffer);
        }
        None
    }
}

/// In a sequence whose keys before position `j` differ from `s[j].0`, the
/// first match for `s[j].0` is position `j` itself.
proof fn lemma_fence_of_at(s: Seq<(u32, u64)>, j: int)
    requires
        0 <= j < s.len(),
        forall|k: int| 0 <= k < j ==> (#[trigger] s[k]).0 != s[j].0,
    ensures
        seq_fence_of(s, s[j].0) == Some(s[j].1),
    decreases s.len(),
{
    if j > 0 {
        assert(s.drop_first()[j - 1] == s[j]);
        lemma_fence_of_at(s.drop_first(), j - 1);
    }
}

/// A key that appears nowhere has no fence.
proof fn lemma_fence_of_missing(s: Seq<(u32, u64)>, buffer: u32)
    requires
        forall|k: int| 0 <= k < s.len() ==> (#[trigger] s[k]).0 != buffer,
    ensures
        seq_fence_of(s, buffer) == None::<u64>,
    decreases s.len(),
{
    if s.len() > 0 {
        lemma_fence_of_missing(s.drop_first(), buffer);
    }
}

/// Replacing the value at a position whose key is untouched elsewhere leaves
/// every other key's fence unchanged.
proof fn lemma_fence_of_update(s: Seq<(u32, u64)>, j: int, buffer: u32, fence: u64)
    requires
        0 <= j < s.len(),
        s[j].0 == buffer,
        forall|k: int| 0 <= k < j ==> (#[trigger] s[k]).0 != buffer,
    ensures
        seq_fence_of(s.update(j, (buffer, fence)), buffer) == Some(fence),
        forall|b: u32|
            b != buffer ==> seq_fence_of(s.update(j, (buffer, fence)), b) == seq_fence_of(s, b),
    decreases s.len(),
{
    let t = s.update(j, (buffer, fence));
    if j == 0 {
        assert(t[0] == (buffer, fence));
        assert forall|b: u32| b != buffer implies seq_fence_of(t, b) == seq_fence_of(s, b) by {
            assert(t.drop_first() =~= s.drop_first());
        }
    } else {
        assert(t.drop_first() =~= s.drop_first().update(j - 1, (buffer, fence)));
        assert(s.drop_first()[j - 1] == s[j]);
        assert forall|k: int| 0 <= k < j - 1 implies (#[trigger] s.drop_first()[k]).0
            != buffer by {
            assert(s.drop_first()[k] == s[k + 1]);
        }
        lemma_fence_of_update(s.drop_first(), j - 1, buffer, fence);
        assert(t[0] == s[0]);
        assert forall|b: u32| b != buffer implies seq_fence_of(t, b) == seq_fence_of(s, b) by {
            if t[0].0 == b {
                assert(seq_fence_of(t, b) == Some(t[0].1));
                assert(seq_fence_of(s, b) == Some(s[0].1));
            } else {
                assert(seq_fence_of(t, b) == seq_fence_of(t.drop_first(), b));
                assert(seq_fence_of(s, b) == seq_fence_of(s.drop_first(), b));
                assert(seq_fence_of(t.drop_first(), b) == seq_fence_of(s.drop_first(), b));
            }
        }
        assert(s[0].0 != buffer);
        assert(seq_fence_of(t, buffer) == seq_fence_of(t.drop_first(), buffer));
    }
}

/// Appending an entry only affects the key it carries, and only if that key
/// had no fence yet.
proof fn lemma_fence_of_push(s: Seq<(u32, u64)>, buffer: u32, fence: u64)
    requires
        forall|k: int| 0 <= k < s.len() ==> (#[trigger] s[k]).0 != buffer,
    ensures
        seq_fence_of(s.push((buffer, fence)), buffer) == Some(fence),
        forall|b: u32| b != buffer ==> seq_fence_of(s.push((buffer, fence)), b) == seq_fence_of(
            s,
            b,
        ),
    decreases s.len(),
{
    let t = s.push((buffer, fence));
    if s.len() == 0 {
        assert(t[0] == (buffer, fence));
        assert forall|b: u32| b != buffer implies seq_fence_of(t, b) == seq_fence_of(s, b) by {
            assert(t.drop_first() =~= s);
            assert(seq_fence_of(s, b) == None::<u64>) by {
                lemma_fence_of_missing(s, b);
            }
        }
    } else {
        assert(t.drop_first() =~= s.drop_first().push((buffer, fence)));
        assert forall|k: int| 0 <= k < s.drop_first().len() implies (
        #[trigger] s.drop_first()[k]).0 != buffer by {
            assert(s.drop_first()[k] == s[k + 1]);
        }
        lemma_fence_of_push(s.drop_first(), buffer, fence);
        assert(t[0] == s[0]);
        assert forall|b: u32| b != buffer implies seq_fence_of(t, b) == seq_fence_of(s, b) by {
            if t[0].0 == b {
                assert(seq_fence_of(t, b) == Some(t[0].1));
                assert(seq_fence_of(s, b) == Some(s[0].1));
            } else {
                assert(seq_fence_of(t, b) == seq_fence_of(t.drop_first(), b));
                assert(seq_fence_of(s, b) == seq_fence_of(s.drop_first(), b));
                assert(seq_fence_of(t.drop_first(), b) == seq_fence_of(s.drop_first(), b));
            }
        }
        assert(s[0].0 != buffer);
        assert(seq_fence_of(t, buffer) == seq_fence_of(t.drop_first(), buffer));
    }
}

} // verus!
