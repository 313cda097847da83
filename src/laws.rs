//! Laws of the completion cell that relate several of its operations: what a
//! bridge yields, what repeated progress attempts do, and the independence of
//! separate cells.
use vstd::prelude::*;
use crate::cell::{CellState, Outcome, Phase, fresh, poll_step, complete_step};

verus! {

/// The state after one progress attempt with each notifier of `ns`, in turn.
pub open spec fn poll_all<T, N>(s: CellState<T, N>, ns: Seq<N>) -> CellState<T, N>
    decreases ns.len(),
{
    if ns.len() == 0 {
        s
    } else {
        poll_step(poll_all(s, ns.drop_last()), ns.last()).0
    }
}

/// The states of `cells` after cell `order[0]`, then `order[1]`, and so on, was
/// completed, cell `k` with `vals[k]`.
pub open spec fn complete_in_order<T, N>(
    cells: Seq<CellState<T, N>>,
    vals: Seq<T>,
    order: Seq<int>,
) -> Seq<CellState<T, N>>
    decreases order.len(),
{
    if order.len() == 0 {
        cells
    } else {
        let prev = complete_in_order(cells, vals, order.drop_last());
        let k = order.last();
        prev.update(k, complete_step(prev[k], vals[k]).0)
    }
}

/// Polling a pending cell any number of times finds no value each time, keeps
/// the cell pending, and leaves the most recent notifier registered.
pub proof fn lemma_polls_while_pending<T, N>(s: CellState<T, N>, ns: Seq<N>)
    requires
        s.phase is Pending,
    ensures
        poll_all(s, ns).phase is Pending,
        poll_all(s, ns).notifier == (if ns.len() == 0 {
            s.notifier
        } else {
            Some(ns.last())
        }),
        forall|i: int|
            0 <= i < ns.len() ==> (#[trigger] poll_step(poll_all(s, ns.take(i)), ns[i])).1
                is NotReady,
    decreases ns.len(),
{
    if ns.len() > 0 {
        lemma_polls_while_pending(s, ns.drop_last());
        assert forall|i: int| 0 <= i < ns.len() implies (#[trigger] poll_step(
            poll_all(s, ns.take(i)),
            ns[i],
        )).1 is NotReady by {
            lemma_polls_while_pending(s, ns.take(i));
        }
    }
}

/// Progress attempts made before the value is ready, however many (each wake
/// of the notifier, real or spurious, leads to one), never yield a value, and
/// do not lose the value written afterwards: the next attempt yields exactly it.
pub proof fn lemma_spurious_attempts_harmless<T, N>(s: CellState<T, N>, early: Seq<N>, v: T, n: N)
    requires
        s.phase is Pending,
    ensures
        forall|i: int|
            0 <= i < early.len() ==> (#[trigger] poll_step(poll_all(s, early.take(i)), early[i])).1
                is NotReady,
        poll_step(complete_step(poll_all(s, early), v).0, n).1 == Outcome::<T>::Done(v),
{
    lemma_polls_while_pending(s, early);
}

/// A bridge started fresh and driven to completion yields exactly the value its
/// closure produced, whatever attempts came before the worker finished; the
/// worker wakes the most recent of those attempts' notifiers.
pub proof fn lemma_bridge_yields_value<T, N>(early: Seq<N>, v: T, n: N)
    ensures
        complete_step(poll_all(fresh::<T, N>(), early), v).1 == (if early.len() == 0 {
            None
        } else {
            Some(early.last())
        }),
        poll_step(complete_step(poll_all(fresh::<T, N>(), early), v).0, n).1 == Outcome::<T>::Done(
            v,
        ),
{
    lemma_polls_while_pending(fresh::<T, N>(), early);
}

proof fn lemma_completions_so_far<T, N>(
    cells: Seq<CellState<T, N>>,
    vals: Seq<T>,
    order: Seq<int>,
)
    requires
        vals.len() == cells.len(),
        forall|j: int| 0 <= j < cells.len() ==> (#[trigger] cells[j]).phase is Pending,
        forall|i: int| 0 <= i < order.len() ==> 0 <= #[trigger] order[i] < cells.len(),
        forall|i: int, j: int| 0 <= i < j < order.len() ==> order[i] != order[j],
    ensures
        complete_in_order(cells, vals, order).len() == cells.len(),
        forall|j: int|
            0 <= j < cells.len() ==> (#[trigger] complete_in_order(cells, vals, order)[j]) == (
            if order.contains(j) {
                CellState { phase: Phase::Ready(vals[j]), notifier: None }
            } else {
                cells[j]
            }),
    decreases order.len(),
{
    if order.len() > 0 {
        let rest = order.drop_last();
        lemma_completions_so_far(cells, vals, rest);
        assert forall|j: int| 0 <= j < cells.len() implies (#[trigger] complete_in_order(
            cells,
            vals,
            order,
        )[j]) == (if order.contains(j) {
            CellState { phase: Phase::Ready(vals[j]), notifier: None }
        } else {
            cells[j]
        }) by {
            if j == order.last() {
                assert(order.contains(j)) by {
                    assert(order[order.len() - 1] == j);
                }
            } else {
                assert(order.contains(j) == rest.contains(j)) by {
                    if order.contains(j) {
                        let i = choose|i: int| 0 <= i < order.len() && order[i] == j;
                        assert(rest[i] == j);
                    }
                    if rest.contains(j) {
                        let i = choose|i: int| 0 <= i < rest.len() && rest[i] == j;
                        assert(order[i] == j);
                    }
                }
            }
        }
    }
}

/// Cells started together and completed in any order, each with its own value,
/// each yield their own value when awaited one after another: completing one
/// cell never touches another, and every completion finds its cell pending.
pub proof fn lemma_no_cross_talk<T, N>(vals: Seq<T>, order: Seq<int>, n: N)
    requires
        order.len() == vals.len(),
        forall|i: int| 0 <= i < order.len() ==> 0 <= #[trigger] order[i] < vals.len(),
        forall|i: int, j: int| 0 <= i < j < order.len() ==> order[i] != order[j],
        forall|j: int| 0 <= j < vals.len() ==> #[trigger] order.contains(j),
    ensures
        ({
            let cells = Seq::new(vals.len(), |i: int| fresh::<T, N>());
            let done = complete_in_order(cells, vals, order);
            &&& done.len() == vals.len()
            &&& forall|i: int|
                0 <= i < order.len() ==> (#[trigger] complete_in_order(
                    cells,
                    vals,
                    order.take(i),
                )[order[i]]).phase is Pending
            &&& forall|j: int|
                0 <= j < vals.len() ==> (#[trigger] poll_step(done[j], n)).1 == Outcome::<T>::Done(
                    vals[j],
                )
        }),
{
    let cells = Seq::new(vals.len(), |i: int| fresh::<T, N>());
    lemma_completions_so_far(cells, vals, order);
    assert forall|i: int| 0 <= i < order.len() implies (#[trigger] complete_in_order(
        cells,
        vals,
        order.take(i),
    )[order[i]]).phase is Pending by {
        let prefix = order.take(i);
        lemma_completions_so_far(cells, vals, prefix);
        if prefix.contains(order[i]) {
            let k = choose|k: int| 0 <= k < prefix.len() && prefix[k] == order[i];
            assert(order[k] == order[i]);
        }
    }
    let done = complete_in_order(cells, vals, order);
    assert forall|j: int| 0 <= j < vals.len() implies (#[trigger] poll_step(done[j], n)).1
        == Outcome::<T>::Done(vals[j]) by {
        assert(order.contains(j));
    }
}

} // verus!
