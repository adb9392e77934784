//! Waker registry and run-loop decisions of the cooperative executor.
//!
//! A suspended operation registers interest by pairing a host wait handle
//! with a wake signal.  The run loop drives one root future: whenever the
//! future is not ready, the registry must be non-empty (a future that
//! suspends without registering interest would deadlock, which is a fatal
//! contract breach, not a recoverable error).  The loop then takes every
//! entry out of the registry, asks the host which wait handles are ready,
//! fires the wake signals of the ready entries, and puts the rest back
//! unchanged.
//!
//! The registry is passed explicitly to every operation that registers
//! interest; the loop that blocks on the host and polls the future lives
//! outside this crate and consumes the decisions made here.

use vstd::prelude::*;

verus! {

/// The registry of suspended operations: wait handles (opaque host tokens)
/// paired with the wake signals to fire when they become ready, in
/// registration order.
pub struct Registry<W> {
    entries: Vec<(u64, W)>,
}

impl<W> View for Registry<W> {
    type V = Seq<(u64, W)>;

    closed spec fn view(&self) -> Seq<(u64, W)> {
        self.entries@
    }
}

impl<W> Registry<W> {
    /// An empty registry.
    pub fn new() -> (r: Registry<W>)
        ensures
            r@ == Seq::<(u64, W)>::empty(),
    {
        Registry { entries: Vec::new() }
    }

    /// How many registrations are pending.
    pub fn len(&self) -> (n: usize)
        ensures
            n == self@.len(),
    {
        self.entries.len()
    }
}

/// Append one registration: the wait handle to watch and the wake signal to
/// fire once it is ready.
pub fn push_waker<W>(registry: &mut Registry<W>, handle: u64, signal: W)
    ensures
        final(registry)@ == old(registry)@.push((handle, signal)),
{
    registry.entries.push((handle, signal));
}

/// Take every entry out of the registry, leaving it empty.  The run loop
/// does this atomically before asking the host about readiness, so entries
/// registered while the answer is processed are kept apart.
pub fn take_entries<W>(registry: &mut Registry<W>) -> (entries: Vec<(u64, W)>)
    ensures
        entries@ == old(registry)@,
        final(registry)@ == Seq::<(u64, W)>::empty(),
{
    let mut taken: Vec<(u64, W)> = Vec::new();
    core::mem::swap(&mut registry.entries, &mut taken);
    taken
}

/// The wait handles of the entries, in order: what the host's batched
/// readiness check is called with.
pub fn handles_of<W>(entries: &Vec<(u64, W)>) -> (handles: Vec<u64>)
    ensures
        handles@.len() == entries@.len(),
        forall|i: int| 0 <= i < entries@.len() ==> handles@[i] == entries@[i].0,
{
    let mut handles: Vec<u64> = Vec::new();
    let mut k: usize = 0;
    while k < entries.len()
        invariant
            k <= entries@.len(),
            handles@.len() == k,
            forall|i: int| 0 <= i < k ==> handles@[i] == entries@[i].0,
        decreases entries@.len() - k,
    {
        handles.push(entries[k].0);
        k = k + 1;
    }
    handles
}

/// Turn the host's answer — the positions of the ready handles — into one
/// flag per entry.
pub fn mark_ready(len: usize, ready_positions: &Vec<usize>) -> (flags: Vec<bool>)
    requires
        forall|i: int| 0 <= i < ready_positions@.len() ==> ready_positions@[i] < len,
    ensures
        flags@.len() == len,
        forall|j: int|
            0 <= j < len ==> (flags@[j] <==> ready_positions@.contains(j as usize)),
{
    let mut flags: Vec<bool> = Vec::new();
    let mut k: usize = 0;
    while k < len
        invariant
            k <= len,
            flags@.len() == k,
            forall|j: int| 0 <= j < k ==> !flags@[j],
        decreases len - k,
    {
        flags.push(false);
        k = k + 1;
    }
    let mut m: usize = 0;
    while m < ready_positions.len()
        invariant
            m <= ready_positions@.len(),
            flags@.len() == len,
            forall|i: int| 0 <= i < ready_positions@.len() ==> ready_positions@[i] < len,
            forall|j: int|
                0 <= j < len ==> (flags@[j] <==> ready_positions@.take(m as int).contains(
                    j as usize,
                )),
        decreases ready_positions@.len() - m,
    {
        let ghost flags0 = flags@;
        let p = ready_positions[m];
        flags.set(p, true);
        proof {
            assert forall|j: int| 0 <= j < len implies (flags@[j]
                <==> ready_positions@.take(m + 1).contains(j as usize)) by {
                assert(ready_positions@.take(m + 1) =~= ready_positions@.take(m as int).push(
                    ready_positions@[m as int],
                ));
                if j == p {
                    assert(ready_positions@.take(m + 1)[m as int] == p as usize);
                } else {
                    assert(flags@[j] == flags0[j]);
                    if ready_positions@.take(m + 1).contains(j as usize) {
                        let w = choose|w: int|
                            0 <= w < m + 1 && (#[trigger] ready_positions@.take(m + 1)[w]) == j
                                as usize;
                        assert(ready_positions@.take(m as int)[w] == j as usize);
                    }
                }
            }
        }
        m = m + 1;
    }
    proof {
        assert(ready_positions@.take(ready_positions@.len() as int) =~= ready_positions@);
    }
    flags
}

/// The wake signals to fire: those of the entries whose flag is set, in
/// registration order.
pub open spec fn woken_of<W>(entries: Seq<(u64, W)>, ready: Seq<bool>) -> Seq<W>
    decreases entries.len(),
{
    if entries.len() == 0 {
        Seq::empty()
    } else {
        woken_of(entries.drop_last(), ready.drop_last()) + (if ready[entries.len() - 1] {
            seq![entries.last().1]
        } else {
            Seq::empty()
        })
    }
}

/// The entries to put back: those whose flag is clear, unchanged and in
/// registration order.
pub open spec fn kept_of<W>(entries: Seq<(u64, W)>, ready: Seq<bool>) -> Seq<(u64, W)>
    decreases entries.len(),
{
    if entries.len() == 0 {
        Seq::empty()
    } else {
        kept_of(entries.drop_last(), ready.drop_last()) + (if ready[entries.len() - 1] {
            Seq::empty()
        } else {
            seq![entries.last()]
        })
    }
}

/// Split the drained entries by readiness: the wake signals of the ready
/// ones, to fire now, and the not-ready ones, to put back unchanged.
pub fn partition_ready<W>(entries: Vec<(u64, W)>, ready: &Vec<bool>) -> (r: (Vec<W>, Vec<
    (u64, W),
>))
    requires
        ready@.len() == entries@.len(),
    ensures
        r.0@ == woken_of(entries@, ready@),
        r.1@ == kept_of(entries@, ready@),
{
    let ghost orig = entries@;
    let total: usize = ready.len();
    let mut rem = entries;
    let mut woken: Vec<W> = Vec::new();
    let mut kept: Vec<(u64, W)> = Vec::new();
    let mut k: usize = 0;
    while rem.len() > 0
        invariant
            orig.len() == ready@.len(),
            total == ready@.len(),
            k + rem@.len() == orig.len(),
            rem@ == orig.skip(k as int),
            woken@ == woken_of(orig.take(k as int), ready@.take(k as int)),
            kept@ == kept_of(orig.take(k as int), ready@.take(k as int)),
        decreases rem.len(),
    {
        let ghost rem0 = rem@;
        let entry = rem.remove(0);
        proof {
            assert(rem@ =~= orig.skip(k + 1));
            assert(orig.take(k + 1).drop_last() =~= orig.take(k as int));
            assert(ready@.take(k + 1).drop_last() =~= ready@.take(k as int));
            assert(orig.take(k + 1).last() == orig[k as int]);
        }
        if ready[k] {
            woken.push(entry.1);
            proof {
                assert(woken@ =~= woken_of(orig.take(k + 1), ready@.take(k + 1)));
                assert(kept@ =~= kept_of(orig.take(k + 1), ready@.take(k + 1)));
            }
        } else {
            kept.push(entry);
            proof {
                assert(woken@ =~= woken_of(orig.take(k + 1), ready@.take(k + 1)));
                assert(kept@ =~= kept_of(orig.take(k + 1), ready@.take(k + 1)));
            }
        }
        k = k + 1;
    }
    proof {
        assert(orig.take(orig.len() as int) =~= orig);
        assert(ready@.take(orig.len() as int) =~= ready@);
    }
    (woken, kept)
}

/// What the run loop does after polling the root future once.
#[derive(Clone, Copy, PartialEq, Eq, Structural, Debug)]
pub enum RunStep {
    /// The future resolved: return its value.
    Finish,
    /// The future suspended without a single registration: no wakeup can
    /// ever arrive, so the run loop aborts the process.
    Fault,
    /// The future suspended with registrations pending: drain the registry
    /// and block on the host's batched readiness check.
    Wait,
}

/// Decide the run loop's next move from one poll of the root future.
///
/// The loop aborts exactly when the future reports "not ready" while the
/// registry is empty: such a future could never be woken again, so this is
/// a programming-contract violation, never a transient condition.
pub fn run_decision<W>(completed: bool, registry: &Registry<W>) -> (r: RunStep)
    ensures
        r == RunStep::Finish <==> completed,
        r == RunStep::Fault <==> (!completed && registry@.len() == 0),
        r == RunStep::Wait <==> (!completed && registry@.len() > 0),
{
    if completed {
        RunStep::Finish
    } else if registry.len() == 0 {
        RunStep::Fault
    } else {
        RunStep::Wait
    }
}

/// One full round of the run loop after a "not ready" poll: drain the
/// registry, split the entries by the host's readiness answer, put the
/// not-ready ones back unchanged, and hand out the wake signals to fire.
pub fn run_round<W>(registry: &mut Registry<W>, ready: &Vec<bool>) -> (fired: Vec<W>)
    requires
        ready@.len() == old(registry)@.len(),
        old(registry)@.len() > 0,
    ensures
        fired@ == woken_of(old(registry)@, ready@),
        final(registry)@ == kept_of(old(registry)@, ready@),
{
    let entries = take_entries(registry);
    let r = partition_ready(entries, ready);
    let mut kept = r.1;
    core::mem::swap(&mut registry.entries, &mut kept);
    r.0
}

/// Splitting by readiness loses no entry: every drained entry is either
/// woken or kept, so the counts add up.
pub proof fn lemma_round_counts<W>(entries: Seq<(u64, W)>, ready: Seq<bool>)
    requires
        ready.len() == entries.len(),
    ensures
        woken_of(entries, ready).len() + kept_of(entries, ready).len() == entries.len(),
    decreases entries.len(),
{
    if entries.len() > 0 {
        lemma_round_counts(entries.drop_last(), ready.drop_last());
    }
}

/// When every entry is ready, all wake signals fire in registration order
/// and nothing is put back.
pub proof fn lemma_round_all_ready<W>(entries: Seq<(u64, W)>, ready: Seq<bool>)
    requires
        ready.len() == entries.len(),
        forall|i: int| 0 <= i < ready.len() ==> ready[i],
    ensures
        woken_of(entries, ready) == entries.map_values(|e: (u64, W)| e.1),
        kept_of(entries, ready) == Seq::<(u64, W)>::empty(),
    decreases entries.len(),
{
    if entries.len() == 0 {
        assert(woken_of(entries, ready) =~= entries.map_values(|e: (u64, W)| e.1));
    } else {
        lemma_round_all_ready(entries.drop_last(), ready.drop_last());
        assert(entries.drop_last().map_values(|e: (u64, W)| e.1).push(entries.last().1)
            =~= entries.map_values(|e: (u64, W)| e.1));
        assert(woken_of(entries, ready) =~= woken_of(entries.drop_last(), ready.drop_last()).push(
            entries.last().1,
        ));
    }
}

/// When no entry is ready, nothing fires and every entry is put back
/// unchanged, in registration order.
pub proof fn lemma_round_none_ready<W>(entries: Seq<(u64, W)>, ready: Seq<bool>)
    requires
        ready.len() == entries.len(),
        forall|i: int| 0 <= i < ready.len() ==> !ready[i],
    ensures
        woken_of(entries, ready) == Seq::<W>::empty(),
        kept_of(entries, ready) == entries,
    decreases entries.len(),
{
    if entries.len() == 0 {
        assert(kept_of(entries, ready) =~= entries);
    } else {
        lemma_round_none_ready(entries.drop_last(), ready.drop_last());
        assert(kept_of(entries, ready) =~= entries.drop_last().push(entries.last()));
        assert(entries.drop_last().push(entries.last()) =~= entries);
        assert(woken_of(entries, ready) =~= Seq::<W>::empty());
    }
}

} // verus!
