//! Ownership of native handles.
//!
//! Every wrapper of a native resource owns one handle, and the native side
//! must see exactly one release for it. Views and retained clones may share
//! a handle; the registry counts the owners of each live handle and tells
//! the caller when the native release is due: when the last owner lets go.
//! A release of a handle that is not live (a second release through a
//! copied handle value) is refused and counted, never passed on.
use vstd::hash_map::HashMapWithView;
use vstd::prelude::*;

verus! {

/// What the registry decides when an owner lets go of a handle.
#[derive(Debug, Clone, Copy, PartialEq, Eq, Hash, Structural)]
pub enum Release {
    /// The last owner let go: the native release is due now.
    Free,
    /// Other owners remain: no native call.
    Keep,
    /// The handle is not live: releasing it again would free it twice, so
    /// no native call is made.
    Rejected,
}

/// Owner counts after one more owner lets go of `h`.
pub open spec fn spec_after_release(m: Map<u64, u32>, h: u64) -> Map<u64, u32> {
    if !m.contains_key(h) {
        m
    } else if m[h] <= 1 {
        m.remove(h)
    } else {
        m.insert(h, (m[h] - 1) as u32)
    }
}

/// The decision on one more owner letting go of `h`.
pub open spec fn spec_release_outcome(m: Map<u64, u32>, h: u64) -> Release {
    if !m.contains_key(h) {
        Release::Rejected
    } else if m[h] <= 1 {
        Release::Free
    } else {
        Release::Keep
    }
}

/// The decisions on `n` owners letting go of `h` one after another.
pub open spec fn spec_release_run(m: Map<u64, u32>, h: u64, n: nat) -> Seq<Release>
    decreases n,
{
    if n == 0 {
        Seq::empty()
    } else {
        seq![spec_release_outcome(m, h)] + spec_release_run(
            spec_after_release(m, h),
            h,
            (n - 1) as nat,
        )
    }
}

/// Every live handle has at least one owner.
pub open spec fn spec_owned(m: Map<u64, u32>) -> bool {
    forall|h: u64| m.contains_key(h) ==> #[trigger] m[h] >= 1
}

/// Counts the owners of each live native handle.
pub struct HandleRegistry {
    owners: HashMapWithView<u64, u32>,
    rejected: u64,
}

impl View for HandleRegistry {
    type V = Map<u64, u32>;

    /// The owner count of each live handle.
    closed spec fn view(&self) -> Map<u64, u32> {
        self.owners@
    }
}

impl HandleRegistry {
    /// Every live handle has at least one owner.
    pub open spec fn wf(&self) -> bool {
        spec_owned(self@)
    }

    /// How many releases were refused so far (saturating).
    pub closed spec fn spec_rejected(&self) -> u64 {
        self.rejected
    }

    /// Creates a registry with no live handle.
    pub fn new() -> (r: HandleRegistry)
        ensures
            r.wf(),
            r@ == Map::<u64, u32>::empty(),
            r.spec_rejected() == 0,
    {
        broadcast use vstd::std_specs::hash::group_hash_axioms;

        HandleRegistry { owners: HashMapWithView::new(), rejected: 0 }
    }

    /// Adopts a handle that a native call has just returned, with one owner.
    /// A handle that is already live is refused: two wrappers would then
    /// each own it alone.
    pub fn adopt(&mut self, h: u64) -> (r: bool)
        requires
            old(self).wf(),
        ensures
            final(self).wf(),
            r == !old(self)@.contains_key(h),
            final(self)@ == (if r {
                old(self)@.insert(h, 1)
            } else {
                old(self)@
            }),
            final(self).spec_rejected() == old(self).spec_rejected(),
    {
        if self.owners.contains_key(&h) {
            false
        } else {
            self.owners.insert(h, 1);
            true
        }
    }

    /// Adds an owner to a live handle (a view or a retained clone that
    /// shares it). Refused where the handle is not live or its count is at
    /// its maximum.
    pub fn retain(&mut self, h: u64) -> (r: bool)
        requires
            old(self).wf(),
        ensures
            final(self).wf(),
            r == (old(self)@.contains_key(h) && old(self)@[h] < u32::MAX),
            final(self)@ == (if r {
                old(self)@.insert(h, (old(self)@[h] + 1) as u32)
            } else {
                old(self)@
            }),
            final(self).spec_rejected() == old(self).spec_rejected(),
    {
        match self.owners.get(&h) {
            Some(c) => {
                let c = *c;
                if c < u32::MAX {
                    self.owners.insert(h, c + 1);
                    true
                } else {
                    false
                }
            },
            None => false,
        }
    }

    /// One owner lets go of `h`. Says whether the native release is due
    /// (`Free`), other owners remain (`Keep`), or the handle is not live
    /// (`Rejected`, counted).
    pub fn release(&mut self, h: u64) -> (r: Release)
        requires
            old(self).wf(),
        ensures
            final(self).wf(),
            r == spec_release_outcome(old(self)@, h),
            final(self)@ == spec_after_release(old(self)@, h),
            final(self).spec_rejected() == (if r == Release::Rejected && old(self).spec_rejected()
                < u64::MAX {
                (old(self).spec_rejected() + 1) as u64
            } else {
                old(self).spec_rejected()
            }),
    {
        match self.owners.get(&h) {
            None => {
                if self.rejected < u64::MAX {
                    self.rejected = self.rejected + 1;
                }
                Release::Rejected
            },
            Some(c) => {
                let c = *c;
                if c <= 1 {
                    self.owners.remove(&h);
                    Release::Free
                } else {
                    self.owners.insert(h, c - 1);
                    Release::Keep
                }
            },
        }
    }

    /// Whether `h` is live.
    pub fn is_live(&self, h: u64) -> (r: bool)
        ensures
            r == self@.contains_key(h),
    {
        self.owners.contains_key(&h)
    }

    /// The number of owners of `h`; zero where it is not live.
    pub fn owners(&self, h: u64) -> (r: u32)
        ensures
            r == (if self@.contains_key(h) {
                self@[h]
            } else {
                0
            }),
    {
        match self.owners.get(&h) {
            Some(c) => *c,
            None => 0,
        }
    }

    /// The number of live handles.
    pub fn live_count(&self) -> (r: usize)
        ensures
            r == self@.len(),
    {
        self.owners.len()
    }

    /// How many releases were refused so far (saturating).
    pub fn rejected_count(&self) -> (r: u64)
        ensures
            r == self.spec_rejected(),
    {
        self.rejected
    }
}

/// A handle with `c` owners sees exactly one native release however many
/// owners let go: the first `c - 1` releases keep it, the `c`-th frees it,
/// and every later one is refused.
pub proof fn lemma_free_exactly_once(m: Map<u64, u32>, h: u64, n: nat)
    requires
        spec_owned(m),
        m.contains_key(h),
    ensures
        spec_release_run(m, h, n).len() == n,
        forall|i: int|
            0 <= i < n ==> #[trigger] spec_release_run(m, h, n)[i] == (if i < m[h] - 1 {
                Release::Keep
            } else if i == m[h] - 1 {
                Release::Free
            } else {
                Release::Rejected
            }),
    decreases n,
{
    if n > 0 {
        let m1 = spec_after_release(m, h);
        let run = spec_release_run(m, h, n);
        if m[h] <= 1 {
            lemma_rejected_forever(m1, h, (n - 1) as nat);
        } else {
            assert(spec_owned(m1));
            lemma_free_exactly_once(m1, h, (n - 1) as nat);
        }
        assert forall|i: int| 0 <= i < n implies #[trigger] run[i] == (if i < m[h] - 1 {
            Release::Keep
        } else if i == m[h] - 1 {
            Release::Free
        } else {
            Release::Rejected
        }) by {
            if i > 0 {
                assert(run[i] == spec_release_run(m1, h, (n - 1) as nat)[i - 1]);
            }
        }
    }
}

/// Once a handle is not live, every release of it is refused and changes
/// nothing.
pub proof fn lemma_rejected_forever(m: Map<u64, u32>, h: u64, n: nat)
    requires
        !m.contains_key(h),
    ensures
        spec_release_run(m, h, n).len() == n,
        forall|i: int| 0 <= i < n ==> #[trigger] spec_release_run(m, h, n)[i] == Release::Rejected,
    decreases n,
{
    if n > 0 {
        lemma_rejected_forever(m, h, (n - 1) as nat);
        let run = spec_release_run(m, h, n);
        assert forall|i: int| 0 <= i < n implies #[trigger] run[i] == Release::Rejected by {
            if i > 0 {
                assert(run[i] == spec_release_run(m, h, (n - 1) as nat)[i - 1]);
            }
        }
    }
}

/// Two owners that each release one handle that was adopted once, without a
/// retain between (a copied handle value): the first release frees it and
/// the second is refused, so the native side sees one release.
pub proof fn lemma_double_release_refused(m: Map<u64, u32>, h: u64)
    requires
        spec_owned(m),
        !m.contains_key(h),
    ensures
        spec_release_outcome(m.insert(h, 1), h) == Release::Free,
        spec_release_outcome(spec_after_release(m.insert(h, 1), h), h) == Release::Rejected,
        spec_after_release(spec_after_release(m.insert(h, 1), h), h) == spec_after_release(
            m.insert(h, 1),
            h,
        ),
{
    assert(spec_after_release(m.insert(h, 1), h) =~= m);
}

} // verus!
