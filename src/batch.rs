use vstd::prelude::*;

verus! {

/// Outcomes of a batch of independent requests, kept in input order whatever
/// order they complete in: each outcome is stored at its request's index.
pub struct Batch<R, E> {
    slots: Vec<Option<Result<R, E>>>,
    recorded: Ghost<Seq<(int, Result<R, E>)>>,
}

impl<R, E> View for Batch<R, E> {
    type V = Seq<Option<Result<R, E>>>;

    closed spec fn view(&self) -> Seq<Option<Result<R, E>>> {
        self.slots@
    }
}

impl<R, E> Batch<R, E> {
    /// The `(index, outcome)` pairs recorded so far, in the order recorded.
    pub closed spec fn events(&self) -> Seq<(int, Result<R, E>)> {
        self.recorded@
    }

    /// The slots are what recording the events into an empty batch gives.
    pub closed spec fn wf(&self) -> bool {
        self.slots@ == apply_records(empty_slots::<R, E>(self.slots@.len()), self.recorded@)
    }
}

/// Every request of the batch has its outcome.
pub open spec fn all_recorded<R, E>(slots: Seq<Option<Result<R, E>>>) -> bool {
    forall|i: int| 0 <= i < slots.len() ==> (#[trigger] slots[i]) is Some
}

impl<R, E> Batch<R, E> {
    /// A batch of `n` requests, none of which has completed.
    pub fn new(n: usize) -> (r: Batch<R, E>)
        ensures
            r@.len() == n,
            forall|i: int| 0 <= i < n ==> (#[trigger] r@[i]) is None,
            r.wf(),
            r.events() == Seq::<(int, Result<R, E>)>::empty(),
    {
        let mut slots: Vec<Option<Result<R, E>>> = Vec::new();
        let mut i: usize = 0;
        while i < n
            invariant
                i <= n,
                slots@.len() == i,
                forall|j: int| 0 <= j < i ==> (#[trigger] slots@[j]) is None,
            decreases n - i,
        {
            slots.push(None);
            i = i + 1;
        }
        let r = Batch { slots, recorded: Ghost(Seq::empty()) };
        assert(r.slots@ =~= empty_slots::<R, E>(n as nat));
        r
    }

    pub fn len(&self) -> (r: usize)
        ensures
            r == self@.len(),
    {
        self.slots.len()
    }

    /// Stores the outcome of the request at `index`; the other slots are kept.
    pub fn record(&mut self, index: usize, outcome: Result<R, E>)
        requires
            index < old(self)@.len(),
            old(self).wf(),
        ensures
            final(self)@ == old(self)@.update(index as int, Some(outcome)),
            final(self).wf(),
            final(self).events() == old(self).events().push((index as int, outcome)),
    {
        let slot = Some(outcome);
        let _ = self.slots.remove(index);
        self.slots.insert(index, slot);
        let ghost ev = old(self).recorded@.push((index as int, outcome));
        self.recorded = Ghost(ev);
        assert(ev.drop_last() =~= old(self).recorded@);
        assert(self@ =~= old(self)@.update(index as int, Some(outcome)));
    }

    /// Whether every request has its outcome.
    pub fn is_complete(&self) -> (r: bool)
        ensures
            r == all_recorded(self@),
    {
        let mut i: usize = 0;
        while i < self.slots.len()
            invariant
                i <= self.slots@.len(),
                forall|j: int| 0 <= j < i ==> (#[trigger] self.slots@[j]) is Some,
            decreases self.slots.len() - i,
        {
            if self.slots[i].is_none() {
                return false;
            }
            i = i + 1;
        }
        true
    }

    /// The outcomes in input order: element `i` is the outcome recorded for
    /// request `i`.
    pub fn finish(self) -> (r: Vec<Result<R, E>>)
        requires
            all_recorded(self@),
        ensures
            r@.len() == self@.len(),
            forall|i: int| 0 <= i < r@.len() ==> self@[i] == Some(#[trigger] r@[i]),
            self.wf() ==> r@.map_values(|o: Result<R, E>| Some(o)) == apply_records(
                empty_slots::<R, E>(self@.len()),
                self.events(),
            ),
    {
        let ghost all = self.slots@;
        let mut rest = self.slots;
        let mut out: Vec<Result<R, E>> = Vec::new();
        while rest.len() > 0
            invariant
                out@.len() + rest@.len() == all.len(),
                rest@ == all.subrange(out@.len() as int, all.len() as int),
                all_recorded(all),
                forall|j: int| 0 <= j < out@.len() ==> all[j] == Some(#[trigger] out@[j]),
            decreases rest@.len(),
        {
            let slot = rest.remove(0);
            assert(all[out@.len() as int] == slot);
            assert(all[out@.len() as int] is Some);
            let outcome = slot.unwrap();
            out.push(outcome);
            assert(rest@ =~= all.subrange(out@.len() as int, all.len() as int));
        }
        assert(out@.map_values(|o: Result<R, E>| Some(o)) =~= all);
        out
    }
}

/// The slots after recording each `(index, outcome)` pair in turn.
pub open spec fn apply_records<R, E>(
    slots: Seq<Option<Result<R, E>>>,
    events: Seq<(int, Result<R, E>)>,
) -> Seq<Option<Result<R, E>>>
    decreases events.len(),
{
    if events.len() == 0 {
        slots
    } else {
        apply_records(slots, events.drop_last()).update(
            events.last().0,
            Some(events.last().1),
        )
    }
}

/// The slots of a batch of `n` requests before any has completed.
pub open spec fn empty_slots<R, E>(n: nat) -> Seq<Option<Result<R, E>>> {
    Seq::new(n, |i: int| None)
}

/// `order` lists each of the indices `0..n` exactly once.
pub open spec fn is_completion_order(order: Seq<int>, n: nat) -> bool {
    &&& order.len() == n
    &&& forall|k: int| 0 <= k < n ==> 0 <= #[trigger] order[k] < n
    &&& forall|k: int, l: int| 0 <= k < l < n ==> order[k] != order[l]
}

/// Outcome events delivered in the given completion order.
pub open spec fn completion_events<R, E>(order: Seq<int>, outcomes: Seq<Result<R, E>>) -> Seq<
    (int, Result<R, E>),
> {
    order.map_values(|i: int| (i, outcomes[i]))
}

proof fn lemma_prefix_applied<R, E>(order: Seq<int>, outcomes: Seq<Result<R, E>>, k: int)
    requires
        is_completion_order(order, outcomes.len()),
        0 <= k <= order.len(),
    ensures
        apply_records(
            empty_slots::<R, E>(outcomes.len()),
            completion_events(order.take(k), outcomes),
        ).len() == outcomes.len(),
        forall|j: int|
            0 <= j < outcomes.len() ==> (#[trigger] apply_records(
                empty_slots::<R, E>(outcomes.len()),
                completion_events(order.take(k), outcomes),
            )[j] == if order.take(k).contains(j) {
                Some(outcomes[j])
            } else {
                None
            }),
    decreases k,
{
    let n = outcomes.len();
    let ev = completion_events(order.take(k), outcomes);
    if k == 0 {
        assert(ev =~= Seq::<(int, Result<R, E>)>::empty());
        assert forall|j: int| 0 <= j < n implies !order.take(0).contains(j) by {}
    } else {
        lemma_prefix_applied(order, outcomes, k - 1);
        assert(ev.drop_last() =~= completion_events(order.take(k - 1), outcomes));
        assert(ev.last() == (order[k - 1], outcomes[order[k - 1]]));
        assert forall|j: int| 0 <= j < n implies (#[trigger] apply_records(
            empty_slots::<R, E>(n),
            ev,
        )[j] == if order.take(k).contains(j) {
            Some(outcomes[j])
        } else {
            None
        }) by {
            if j == order[k - 1] {
                assert(order.take(k)[k - 1] == j);
            } else {
                let now = order.take(k);
                let before = order.take(k - 1);
                if now.contains(j) {
                    let m = choose|m: int| 0 <= m < k && #[trigger] now[m] == j;
                    assert(before[m] == j);
                }
                if before.contains(j) {
                    let m = choose|m: int| 0 <= m < k - 1 && #[trigger] before[m] == j;
                    assert(now[m] == j);
                }
            }
        }
    }
}

/// Whatever order the requests of a batch of `n` complete in, once each has
/// been recorded at its index, slot `i` holds the outcome of request `i`.
pub proof fn lemma_completion_order_irrelevant<R, E>(
    order: Seq<int>,
    outcomes: Seq<Result<R, E>>,
)
    requires
        is_completion_order(order, outcomes.len()),
    ensures
        apply_records(empty_slots::<R, E>(outcomes.len()), completion_events(order, outcomes))
            == outcomes.map_values(|o: Result<R, E>| Some(o)),
{
    let n = outcomes.len();
    lemma_prefix_applied(order, outcomes, n as int);
    assert(order.take(n as int) =~= order);
    let done = apply_records(empty_slots::<R, E>(n), completion_events(order, outcomes));
    assert forall|j: int| 0 <= j < n implies order.contains(j) by {
        lemma_every_index_listed(order, n, j);
    }
    assert(done =~= outcomes.map_values(|o: Result<R, E>| Some(o)));
}

proof fn lemma_every_index_listed(order: Seq<int>, n: nat, j: int)
    requires
        is_completion_order(order, n),
        0 <= j < n,
    ensures
        order.contains(j),
{
    let listed = order.to_set();
    assert forall|x: int| #[trigger] listed.contains(x) implies 0 <= x < n by {
        let k = choose|k: int| 0 <= k < order.len() && order[k] == x;
    }
    order.unique_seq_to_set();
    let all = Set::new(|x: int| 0 <= x < n);
    assert(listed.subset_of(all));
    vstd::set_lib::lemma_int_range(0, n as int);
    assert(all =~= vstd::set_lib::set_int_range(0, n as int));
    if !listed.contains(j) {
        assert(listed.subset_of(all.remove(j)));
        vstd::set_lib::lemma_len_subset(listed, all.remove(j));
    }
    assert(listed.contains(j));
}

/// A batch of `n` requests whose outcomes were recorded each at its own index,
/// in any order of completion, has every outcome, and slot `i` holds the
/// outcome of request `i`; so [`Batch::finish`] returns `n` outcomes in input
/// order.
pub proof fn lemma_batch_in_input_order<R, E>(
    b: Batch<R, E>,
    order: Seq<int>,
    outcomes: Seq<Result<R, E>>,
)
    requires
        b.wf(),
        b@.len() == outcomes.len(),
        is_completion_order(order, outcomes.len()),
        b.events() == completion_events(order, outcomes),
    ensures
        all_recorded(b@),
        forall|i: int| 0 <= i < outcomes.len() ==> (#[trigger] b@[i]) == Some(outcomes[i]),
{
    lemma_completion_order_irrelevant(order, outcomes);
    assert forall|i: int| 0 <= i < b@.len() implies (#[trigger] b@[i]) is Some by {
        assert(b@[i] == outcomes.map_values(|o: Result<R, E>| Some(o))[i]);
    }
    assert forall|i: int| 0 <= i < outcomes.len() implies (#[trigger] b@[i]) == Some(
        outcomes[i],
    ) by {
        assert(b@[i] == outcomes.map_values(|o: Result<R, E>| Some(o))[i]);
    }
}

/// Each failed outcome becomes `None` and each success `Some` of its value,
/// at the same index.
pub fn collapse_to_options<T, E>(results: Vec<Result<T, E>>) -> (r: Vec<Option<T>>)
    ensures
        r@.len() == results@.len(),
        forall|i: int|
            0 <= i < r@.len() ==> (#[trigger] r@[i] is None <==> results@[i] is Err),
        forall|i: int|
            0 <= i < r@.len() && results@[i] is Ok ==> #[trigger] r@[i] == Some(
                results@[i]->Ok_0,
            ),
{
    let ghost all = results@;
    let mut rest = results;
    let mut out: Vec<Option<T>> = Vec::new();
    while rest.len() > 0
        invariant
            out@.len() + rest@.len() == all.len(),
            rest@ == all.subrange(out@.len() as int, all.len() as int),
            forall|j: int| 0 <= j < out@.len() ==> (#[trigger] out@[j] is None <==> all[j] is Err),
            forall|j: int|
                0 <= j < out@.len() && all[j] is Ok ==> #[trigger] out@[j] == Some(all[j]->Ok_0),
        decreases rest@.len(),
    {
        let outcome = rest.remove(0);
        assert(all[out@.len() as int] == outcome);
        match outcome {
            Ok(v) => out.push(Some(v)),
            Err(_) => out.push(None),
        }
        assert(rest@ =~= all.subrange(out@.len() as int, all.len() as int));
    }
    out
}

} // verus!
