use vstd::prelude::*;

verus! {

/// One push into a bounded FIFO with the drop-newest overflow policy: the
/// element is appended at the tail if there is room, otherwise the contents
/// are left untouched and the push is reported as failed.
pub open spec fn bounded_push<T>(s: Seq<T>, cap: int, e: T) -> (Seq<T>, bool) {
    if s.len() < cap {
        (s.push(e), true)
    } else {
        (s, false)
    }
}

/// All of `es` pushed in order into a bounded FIFO holding `s`.
pub open spec fn bounded_push_all<T>(s: Seq<T>, cap: int, es: Seq<T>) -> Seq<T>
    decreases es.len(),
{
    if es.len() == 0 {
        s
    } else {
        bounded_push_all(bounded_push(s, cap, es[0]).0, cap, es.drop_first())
    }
}

/// One pop from a FIFO: the oldest element leaves from the head; an empty
/// queue stays empty and yields nothing.
pub open spec fn fifo_pop<T>(s: Seq<T>) -> (Seq<T>, Option<T>) {
    if s.len() == 0 {
        (s, None)
    } else {
        (s.drop_first(), Some(s[0]))
    }
}

/// The contents after popping `n` times.
pub open spec fn fifo_pop_n<T>(s: Seq<T>, n: nat) -> Seq<T>
    decreases n,
{
    if n == 0 {
        s
    } else {
        fifo_pop_n(fifo_pop(s).0, (n - 1) as nat)
    }
}

/// Popping `n` times from a FIFO leaves exactly the elements after the first
/// `n` (all of them, once `n` reaches the length).
pub proof fn lemma_pop_n_skip<T>(s: Seq<T>, n: nat)
    requires
        n <= s.len(),
    ensures
        fifo_pop_n(s, n) == s.skip(n as int),
    decreases n,
{
    if n == 0 {
        assert(s.skip(0) =~= s);
    } else {
        lemma_pop_n_skip(s.drop_first(), (n - 1) as nat);
        assert(s.drop_first().skip(n - 1) =~= s.skip(n as int));
    }
}

/// Pushing a whole sequence into a FIFO with enough room appends it at the
/// tail, in order, with every push succeeding.
pub proof fn lemma_push_all_appends<T>(s: Seq<T>, cap: int, es: Seq<T>)
    requires
        s.len() + es.len() <= cap,
    ensures
        bounded_push_all(s, cap, es) == s + es,
    decreases es.len(),
{
    if es.len() == 0 {
        assert(s + es =~= s);
    } else {
        lemma_push_all_appends(s.push(es[0]), cap, es.drop_first());
        assert(s.push(es[0]) + es.drop_first() =~= s + es);
    }
}

/// FIFO queue order: pushing `e1, e2, ..., en` into an empty bounded queue
/// with room for all of them succeeds for each, and popping `n` times yields
/// `e1, e2, ..., en` in exactly that order.
pub proof fn lemma_fifo_order<T>(es: Seq<T>, cap: int)
    requires
        es.len() <= cap,
    ensures
        bounded_push_all(Seq::<T>::empty(), cap, es) == es,
        forall|k: int|
            0 <= k < es.len() ==> #[trigger] fifo_pop(fifo_pop_n(es, k as nat)).1 == Some(es[k]),
{
    lemma_push_all_appends(Seq::<T>::empty(), cap, es);
    assert(Seq::<T>::empty() + es =~= es);
    assert forall|k: int| 0 <= k < es.len() implies #[trigger] fifo_pop(
        fifo_pop_n(es, k as nat),
    ).1 == Some(es[k]) by {
        lemma_pop_n_skip(es, k as nat);
        assert(es.skip(k)[0] == es[k]);
    }
}

/// Overflow drop policy: a push into a queue already at capacity leaves the
/// contents unchanged and is reported as failed, and the queue goes on
/// serving its existing entries in order.
pub proof fn lemma_overflow_drop<T>(s: Seq<T>, cap: int, e: T)
    requires
        s.len() == cap,
    ensures
        bounded_push(s, cap, e) == (s, false),
        forall|k: int|
            0 <= k < s.len() ==> #[trigger] fifo_pop(fifo_pop_n(s, k as nat)).1 == Some(s[k]),
{
    assert forall|k: int| 0 <= k < s.len() implies #[trigger] fifo_pop(
        fifo_pop_n(s, k as nat),
    ).1 == Some(s[k]) by {
        lemma_pop_n_skip(s, k as nat);
        assert(s.skip(k)[0] == s[k]);
    }
}

/// Empty-queue (and empty-ledger) idempotence: popping an empty FIFO any
/// number of times leaves it empty and never yields an element. This holds of
/// any FIFO contents, the event queue's and the pending-request ledger's
/// alike.
pub proof fn lemma_empty_pop_idempotent<T>(n: nat)
    ensures
        fifo_pop_n(Seq::<T>::empty(), n) == Seq::<T>::empty(),
        fifo_pop(Seq::<T>::empty()).1 == None::<T>,
    decreases n,
{
    if n > 0 {
        lemma_empty_pop_idempotent::<T>((n - 1) as nat);
    }
}

} // verus!
