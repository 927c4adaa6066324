use vstd::prelude::*;

verus! {

/// Counts the workers that are busy, from the busy and idle markers that
/// they send; the pool is drained when none is busy and all queues are
/// empty.
pub struct JoinState {
    pub active: usize,
}

/// What the count becomes after `markers`, `true` for busy and `false` for
/// idle, starting from `active`; a marker that would take it out of range is
/// refused and changes nothing.
pub open spec fn count_after(active: nat, markers: Seq<bool>) -> nat
    decreases markers.len(),
{
    if markers.len() == 0 {
        active
    } else {
        count_after(count_step(active, markers[0]), markers.drop_first())
    }
}

/// What the count becomes after one marker.
pub open spec fn count_step(active: nat, busy: bool) -> nat {
    if busy {
        if active < usize::MAX {
            active + 1
        } else {
            active
        }
    } else if active > 0 {
        (active - 1) as nat
    } else {
        active
    }
}

/// The busy markers less the idle markers.
pub open spec fn balance(markers: Seq<bool>) -> int
    decreases markers.len(),
{
    if markers.len() == 0 {
        0
    } else {
        (if markers[0] {
            1int
        } else {
            -1int
        }) + balance(markers.drop_first())
    }
}

/// Each worker sends idle only after its busy: no prefix has more idle than
/// busy markers, and fewer than `usize::MAX` workers are busy at once.
pub open spec fn well_nested(active: nat, markers: Seq<bool>) -> bool {
    forall|k: int|
        0 <= k <= markers.len() ==> 0 <= active + balance(#[trigger] markers.subrange(0, k)) < usize::MAX
}

impl JoinState {
    pub fn new() -> (r: JoinState)
        ensures
            r.active == 0,
    {
        JoinState { active: 0 }
    }

    /// Takes one marker: busy counts a worker in, idle counts one out. A
    /// marker that would take the count out of range is refused (`false`).
    pub fn record(&mut self, busy: bool) -> (r: bool)
        ensures
            final(self).active == count_step(old(self).active as nat, busy),
            r == (if busy {
                old(self).active < usize::MAX
            } else {
                old(self).active > 0
            }),
    {
        if busy {
            if self.active < usize::MAX {
                self.active = self.active + 1;
                true
            } else {
                false
            }
        } else if self.active > 0 {
            self.active = self.active - 1;
            true
        } else {
            false
        }
    }

    /// Whether the pool has drained: no worker busy, and the input, output
    /// and marker queues all empty.
    pub fn drained(&self, input_empty: bool, output_empty: bool, markers_empty: bool) -> (r: bool)
        ensures
            r == (self.active == 0 && input_empty && output_empty && markers_empty),
    {
        self.active == 0 && input_empty && output_empty && markers_empty
    }
}

proof fn lemma_balance_step(markers: Seq<bool>, k: int)
    requires
        0 <= k < markers.len(),
    ensures
        balance(markers.subrange(0, k + 1)) == balance(markers.subrange(0, k)) + (if markers[k] {
            1int
        } else {
            -1int
        }),
    decreases k,
{
    let s1 = markers.subrange(0, k + 1);
    if k > 0 {
        lemma_balance_step(markers.drop_first(), k - 1);
        assert(s1.drop_first() =~= markers.drop_first().subrange(0, k));
        assert(markers.subrange(0, k).drop_first() =~= markers.drop_first().subrange(0, k - 1));
    } else {
        assert(s1.drop_first() =~= Seq::<bool>::empty());
        assert(markers.subrange(0, 0) =~= Seq::<bool>::empty());
    }
}

/// While each worker sends idle only after its busy, no marker is refused
/// and the count is the start plus the busy markers less the idle ones. So
/// once every busy marker has its idle marker the count is back where it
/// started, and with the queues empty the join ends.
pub proof fn lemma_markers_return_to_start(active: nat, markers: Seq<bool>)
    requires
        well_nested(active, markers),
    ensures
        count_after(active, markers) == active + balance(markers),
    decreases markers.len(),
{
    if markers.len() > 0 {
        let next: nat = (active + (if markers[0] {
            1int
        } else {
            -1int
        })) as nat;
        assert(markers.subrange(0, 0) =~= Seq::<bool>::empty());
        lemma_balance_step(markers, 0);
        assert(0 <= active + balance(markers.subrange(0, 1)) < usize::MAX);
        let rest = markers.drop_first();
        assert forall|k: int| 0 <= k <= rest.len() implies 0 <= next + balance(
            #[trigger] rest.subrange(0, k),
        ) < usize::MAX by {
            assert(0 <= active + balance(markers.subrange(0, k + 1)) < usize::MAX);
            assert(markers.subrange(0, k + 1).drop_first() =~= rest.subrange(0, k));
            assert(markers.subrange(0, k + 1)[0] == markers[0]);
        }
        lemma_markers_return_to_start(next, rest);
    }
}

} // verus!
