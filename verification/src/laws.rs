//! What holds of every scheduled invocation, proved over the model.
//!
//! `Waiter::step` and `Waiter::wake` move an executable waiter exactly as
//! `WaiterModel::next` and `WaiterModel::action` say, so everything below
//! holds of any host that reports a start and a wake to its waiter and
//! reads the flag that its handle sets.

use crate::model::{on_side, ActionModel, InvocationModel, PairModel, Phase, Side, Transition};
use vstd::prelude::*;

verus! {

/// A sequence that lacks `t` does not begin with it, and its tail lacks it
/// too.
proof fn lemma_tail_lacks(ts: Seq<Transition>, t: Transition)
    requires
        ts.len() > 0,
        !ts.contains(t),
    ensures
        ts[0] != t,
        !ts.drop_first().contains(t),
{
    let rest = ts.drop_first();
    if rest.contains(t) {
        let i: int = choose|i: int| 0 <= i < rest.len() && rest[i] == t;
        assert(ts[i + 1] == t);
    }
}

/// Running `a` and then `b` is running `a + b`, and the dispatches add up.
pub proof fn lemma_run_concat(s: InvocationModel, a: Seq<Transition>, b: Seq<Transition>)
    ensures
        s.run(a + b) == s.run(a).run(b),
        s.dispatches(a + b) == s.dispatches(a) + s.run(a).dispatches(b),
    decreases a.len(),
{
    if a.len() == 0 {
        assert(a + b =~= b);
    } else {
        assert((a + b)[0] == a[0]);
        assert((a + b).drop_first() =~= a.drop_first() + b);
        lemma_run_concat(s.next(a[0]), a.drop_first(), b);
    }
}

/// Running the single transition `t` is taking one step.
proof fn lemma_run_one(s: InvocationModel, t: Transition)
    ensures
        s.run(seq![t]) == s.next(t),
        s.dispatches(seq![t]) == if s.action(t) == ActionModel::Dispatch {
            1nat
        } else {
            0nat
        },
{
    reveal_with_fuel(InvocationModel::run, 2);
    reveal_with_fuel(InvocationModel::dispatches, 2);
    assert(seq![t].drop_first() =~= Seq::<Transition>::empty());
}

/// The flag is one-way: it is set after `ts` exactly if it was set before
/// or `ts` holds a `Cancel`. Nothing unsets it.
pub proof fn law_flag_is_one_way(s: InvocationModel, ts: Seq<Transition>)
    ensures
        s.run(ts).cancelled <==> s.cancelled || ts.contains(Transition::Cancel),
    decreases ts.len(),
{
    if ts.len() > 0 {
        law_flag_is_one_way(s.next(ts[0]), ts.drop_first());
        if !ts.contains(Transition::Cancel) {
            lemma_tail_lacks(ts, Transition::Cancel);
        } else if ts[0] != Transition::Cancel {
            let i: int = choose|i: int| 0 <= i < ts.len() && ts[i] == Transition::Cancel;
            assert(ts.drop_first()[i - 1] == Transition::Cancel);
        }
    }
}

/// The callback fires at most once, whatever happens and in whatever
/// order. Once the waiter is done it stays as it is and nothing more is
/// dispatched.
pub proof fn law_fires_at_most_once(s: InvocationModel, ts: Seq<Transition>)
    ensures
        s.dispatches(ts) <= 1,
        s.waiter.done() ==> s.dispatches(ts) == 0 && s.run(ts).waiter == s.waiter,
    decreases ts.len(),
{
    if ts.len() > 0 {
        law_fires_at_most_once(s.next(ts[0]), ts.drop_first());
    }
}

/// From any state that has not fired, the callback has been dispatched
/// once if the waiter ends up `Fired`, and never otherwise.
proof fn lemma_dispatched_exactly_when_fired(s: InvocationModel, ts: Seq<Transition>)
    requires
        s.waiter.phase != Phase::Fired,
    ensures
        s.dispatches(ts) == if s.run(ts).waiter.phase == Phase::Fired {
            1nat
        } else {
            0nat
        },
    decreases ts.len(),
{
    if ts.len() > 0 {
        let then = s.next(ts[0]);
        if then.waiter.phase == Phase::Fired {
            law_fires_at_most_once(then, ts.drop_first());
        } else {
            lemma_dispatched_exactly_when_fired(then, ts.drop_first());
        }
    }
}

/// The phase tells the count: after any transitions at all, a scheduled
/// invocation has dispatched its callback once if its waiter is `Fired`,
/// and never otherwise.
pub proof fn law_dispatched_exactly_when_fired(wait: nat, ts: Seq<Transition>)
    ensures
        ({
            let s = InvocationModel::scheduled(wait);
            s.dispatches(ts) == if s.run(ts).waiter.phase == Phase::Fired {
                1nat
            } else {
                0nat
            }
        }),
{
    lemma_dispatched_exactly_when_fired(InvocationModel::scheduled(wait), ts);
}

/// With the flag unset and no `Cancel` to come, a waiter that is not
/// suppressed never will be.
proof fn lemma_never_suppressed_without_cancel(s: InvocationModel, ts: Seq<Transition>)
    requires
        !s.cancelled,
        s.waiter.phase != Phase::Suppressed,
        !ts.contains(Transition::Cancel),
    ensures
        s.run(ts).waiter.phase != Phase::Suppressed,
    decreases ts.len(),
{
    if ts.len() > 0 {
        lemma_tail_lacks(ts, Transition::Cancel);
        lemma_never_suppressed_without_cancel(s.next(ts[0]), ts.drop_first());
    }
}

/// An invocation that is never cancelled is never suppressed: whenever its
/// waiter is done, the callback has been dispatched, exactly once.
pub proof fn law_never_cancelled_ends_fired(wait: nat, ts: Seq<Transition>)
    requires
        !ts.contains(Transition::Cancel),
    ensures
        ({
            let s = InvocationModel::scheduled(wait);
            &&& s.run(ts).waiter.phase != Phase::Suppressed
            &&& s.run(ts).waiter.done() ==> s.dispatches(ts) == 1
        }),
{
    let s = InvocationModel::scheduled(wait);
    lemma_never_suppressed_without_cancel(s, ts);
    lemma_dispatched_exactly_when_fired(s, ts);
}

/// An invocation whose flag is still unset when its waiter wakes fires
/// exactly once, and not before the deadline: the waiter first asks to
/// sleep for what is left of `wait` after `elapsed`, so that the time
/// already passed and the sleep together cover the whole delay, and on
/// waking it asks for the dispatch. What happens afterwards, a late
/// cancellation included, does not change the count.
pub proof fn law_uncancelled_fires_exactly_once(wait: nat, elapsed: nat, rest: Seq<Transition>)
    ensures
        ({
            let s = InvocationModel::scheduled(wait);
            let start = Transition::Start { elapsed };
            let ts = seq![start, Transition::Wake] + rest;
            let remaining = s.waiter.remaining(elapsed);
            &&& s.action(start) == ActionModel::Sleep { remaining }
            &&& elapsed + remaining >= wait
            &&& elapsed <= wait ==> elapsed + remaining == wait
            &&& s.next(start).action(Transition::Wake) == ActionModel::Dispatch
            &&& s.dispatches(ts) == 1
            &&& s.run(ts).waiter.phase == Phase::Fired
        }),
{
    let s = InvocationModel::scheduled(wait);
    let start = Transition::Start { elapsed };
    let head = seq![start, Transition::Wake];
    assert(head =~= seq![start] + seq![Transition::Wake]);
    lemma_run_one(s, start);
    lemma_run_one(s.next(start), Transition::Wake);
    lemma_run_concat(s, seq![start], seq![Transition::Wake]);
    lemma_run_concat(s, head, rest);
    law_fires_at_most_once(s.run(head), rest);
}

/// Before its first `Wake` a scheduled invocation is not done.
pub proof fn lemma_not_done_before_wake(wait: nat, ts: Seq<Transition>)
    requires
        !ts.contains(Transition::Wake),
    ensures
        !InvocationModel::scheduled(wait).run(ts).waiter.done(),
{
    lemma_stays_undone_without_wake(InvocationModel::scheduled(wait), ts);
}

/// Without a `Wake`, a waiter that is not done stays so.
proof fn lemma_stays_undone_without_wake(s: InvocationModel, ts: Seq<Transition>)
    requires
        !s.waiter.done(),
        !ts.contains(Transition::Wake),
    ensures
        !s.run(ts).waiter.done(),
    decreases ts.len(),
{
    if ts.len() > 0 {
        lemma_tail_lacks(ts, Transition::Wake);
        lemma_stays_undone_without_wake(s.next(ts[0]), ts.drop_first());
    }
}

/// Once the flag is set, an invocation that has not fired never will.
proof fn lemma_no_dispatch_once_cancelled(s: InvocationModel, ts: Seq<Transition>)
    requires
        s.cancelled,
        s.waiter.phase != Phase::Fired,
    ensures
        s.dispatches(ts) == 0,
        s.run(ts).waiter.phase != Phase::Fired,
    decreases ts.len(),
{
    if ts.len() > 0 {
        lemma_no_dispatch_once_cancelled(s.next(ts[0]), ts.drop_first());
    }
}

/// A cancellation that comes while the waiter is not yet done, that is,
/// before it has read the flag after its sleep, suppresses the callback
/// for good: it is dispatched neither before the cancellation nor at any
/// time after it.
pub proof fn law_cancel_before_the_check_suppresses(
    wait: nat,
    before: Seq<Transition>,
    after: Seq<Transition>,
)
    requires
        !InvocationModel::scheduled(wait).run(before).waiter.done(),
    ensures
        ({
            let s = InvocationModel::scheduled(wait);
            let ts = before + seq![Transition::Cancel] + after;
            &&& s.dispatches(ts) == 0
            &&& s.run(ts).waiter.phase != Phase::Fired
        }),
{
    let s = InvocationModel::scheduled(wait);
    let cancel = seq![Transition::Cancel];
    let mid = s.run(before);
    lemma_dispatched_exactly_when_fired(s, before);
    lemma_run_one(mid, Transition::Cancel);
    lemma_run_concat(s, before, cancel);
    lemma_run_concat(s, before + cancel, after);
    lemma_no_dispatch_once_cancelled(mid.next(Transition::Cancel), after);
}

/// Cancelling is idempotent: on an invocation whose flag is already set a
/// further `Cancel` changes nothing and asks nothing of the host, so a
/// second cancellation, at whatever later moment, leaves every outcome as
/// the first alone would.
pub proof fn law_cancel_is_idempotent(
    s: InvocationModel,
    before: Seq<Transition>,
    between: Seq<Transition>,
    after: Seq<Transition>,
)
    ensures
        s.next(Transition::Cancel).next(Transition::Cancel) == s.next(Transition::Cancel),
        s.action(Transition::Cancel) == ActionModel::Ignore,
        ({
            let cancel = seq![Transition::Cancel];
            let once = before + cancel + between + after;
            let twice = before + cancel + between + cancel + after;
            &&& s.run(twice) == s.run(once)
            &&& s.dispatches(twice) == s.dispatches(once)
        }),
{
    let cancel = seq![Transition::Cancel];
    let prefix = before + cancel + between;
    let mid = s.run(prefix);
    assert(prefix.contains(Transition::Cancel)) by {
        assert(prefix[before.len() as int] == Transition::Cancel);
    }
    law_flag_is_one_way(s, prefix);
    lemma_run_one(mid, Transition::Cancel);
    assert(mid.next(Transition::Cancel) == mid);
    lemma_run_concat(s, prefix, cancel);
    lemma_run_concat(s, prefix + cancel, after);
    lemma_run_concat(s, prefix, after);
}

/// Cancelling after the callback has fired is a no-op: the invocation
/// stays fired and the number of dispatches stays what it was.
pub proof fn law_cancel_after_firing_changes_nothing(
    s: InvocationModel,
    ts: Seq<Transition>,
    rest: Seq<Transition>,
)
    requires
        s.run(ts).waiter.phase == Phase::Fired,
    ensures
        ({
            let later = ts + seq![Transition::Cancel] + rest;
            &&& s.run(later).waiter == s.run(ts).waiter
            &&& s.dispatches(later) == s.dispatches(ts)
        }),
{
    let cancel = seq![Transition::Cancel];
    lemma_run_concat(s, ts, cancel + rest);
    assert(ts + (cancel + rest) =~= ts + cancel + rest);
    law_fires_at_most_once(s.run(ts), cancel + rest);
}

/// A deadline that has already passed when the waiter starts asks for no
/// sleep at all, and the callback is still due.
pub proof fn law_expired_deadline_asks_for_no_sleep(wait: nat, elapsed: nat)
    requires
        wait <= elapsed,
    ensures
        ({
            let s = InvocationModel::scheduled(wait);
            let start = Transition::Start { elapsed };
            &&& s.action(start) == ActionModel::Sleep { remaining: 0 }
            &&& s.next(start).action(Transition::Wake) == ActionModel::Dispatch
        }),
{
}

/// A delay of zero fires as soon as the waiter runs: however late it
/// starts, it asks for a sleep of no length and then for the dispatch.
pub proof fn law_zero_delay_fires_at_once(elapsed: nat)
    ensures
        ({
            let s = InvocationModel::scheduled(0);
            let start = Transition::Start { elapsed };
            &&& s.action(start) == ActionModel::Sleep { remaining: 0 }
            &&& s.next(start).action(Transition::Wake) == ActionModel::Dispatch
        }),
{
}

/// Two invocations do not influence one another: however their
/// transitions interleave, each ends in the state, and with the number of
/// dispatches, that its own transitions alone lead to.
pub proof fn law_invocations_are_independent(
    pair: PairModel,
    side: Side,
    ts: Seq<(Side, Transition)>,
)
    ensures
        pair.run(ts).get(side) == pair.get(side).run(on_side(side, ts)),
        pair.dispatches(side, ts) == pair.get(side).dispatches(on_side(side, ts)),
    decreases ts.len(),
{
    if ts.len() > 0 {
        let rest = ts.drop_first();
        law_invocations_are_independent(pair.next(ts[0].0, ts[0].1), side, rest);
        if ts[0].0 == side {
            let own = seq![ts[0].1] + on_side(side, rest);
            assert(own[0] == ts[0].1);
            assert(own.drop_first() =~= on_side(side, rest));
        }
    }
}

/// Cancelling one of two invocations does not touch the other: if the
/// second is started and woken with its own flag unset, it fires exactly
/// once, whatever happens to the first and however the two interleave.
pub proof fn law_cancelling_one_spares_the_other(
    first_wait: nat,
    second_wait: nat,
    elapsed: nat,
    rest: Seq<Transition>,
    ts: Seq<(Side, Transition)>,
)
    requires
        on_side(Side::Second, ts) == seq![Transition::Start { elapsed }, Transition::Wake] + rest,
    ensures
        ({
            let pair = PairModel {
                first: InvocationModel::scheduled(first_wait),
                second: InvocationModel::scheduled(second_wait),
            };
            &&& pair.dispatches(Side::Second, ts) == 1
            &&& pair.dispatches(Side::First, ts) <= 1
        }),
{
    let pair = PairModel {
        first: InvocationModel::scheduled(first_wait),
        second: InvocationModel::scheduled(second_wait),
    };
    law_invocations_are_independent(pair, Side::First, ts);
    law_invocations_are_independent(pair, Side::Second, ts);
    law_uncancelled_fires_exactly_once(second_wait, elapsed, rest);
    law_fires_at_most_once(pair.first, on_side(Side::First, ts));
}

} // verus!
