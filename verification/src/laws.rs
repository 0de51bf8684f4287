//! What holds of every queue and every state, proved from the contracts.

use vstd::prelude::*;

use crate::blocking::{stepped, Next, Progress};
use crate::channel::QueueEvent;
use crate::dispatch::{agree, called_back, delivered, dispatched, drained, rest, Dispatch};
use crate::error::DispatchError;
use crate::queue::QueueHandle;

verus! {

/// A run of handled events can be cut anywhere: where handling `first` and
/// then `then` leads from `pre` to `post`, handling `first` leads from `pre`
/// to some state from which handling `then` leads to `post`.
pub proof fn delivered_split<State: Dispatch>(
    pre: State,
    first: Seq<QueueEvent>,
    then: Seq<QueueEvent>,
    qhandle: QueueHandle<State>,
    post: State,
) -> (mid: State)
    requires
        delivered(pre, first + then, qhandle, post),
    ensures
        delivered(pre, first, qhandle, mid),
        delivered(mid, then, qhandle, post),
    decreases then.len(),
{
    let all = first + then;
    if then.len() == 0 {
        assert(all =~= first);
        post
    } else {
        assert(all.drop_last() =~= first + then.drop_last());
        assert(all.last() == then.last());
        let last = choose|last: State|
            delivered(pre, all.drop_last(), qhandle, last) && #[trigger] called_back(
                last,
                all.last(),
                qhandle,
                post,
                Ok(()),
            );
        let mid = delivered_split(pre, first, then.drop_last(), qhandle, last);
        assert(called_back(last, then.last(), qhandle, post, Ok(())));
        mid
    }
}

/// Events leave a queue in the order in which they came, and none is passed
/// over: a drain that ends with a count, and whose limit is not below the
/// number of events that the queue was known to hold, has handled every one
/// of those, in their order, before any that came later.
pub proof fn drain_keeps_order<State: Dispatch>(
    before: Seq<QueueEvent>,
    pre: State,
    qhandle: QueueHandle<State>,
    limit: usize,
    n: usize,
    after: Seq<QueueEvent>,
    post: State,
)
    requires
        drained(before, pre, qhandle, limit, Ok(n), after, post),
        limit >= before.len(),
    ensures
        before.len() <= n <= limit,
        exists|mid: State, later: Seq<QueueEvent>|
            delivered(pre, before, qhandle, mid) && #[trigger] delivered(mid, later, qhandle, post)
                && before.len() + later.len() == n,
{
    let taken = choose|taken: Seq<QueueEvent>|
        (#[trigger] delivered(pre, taken, qhandle, post)) && taken.len() == n && agree(
            before,
            taken,
        ) && rest(before, n as int).is_prefix_of(after) && (n < limit ==> after.len() == 0);
    if n < limit {
        assert(rest(before, n as int).len() == 0);
    }
    let later = taken.skip(before.len() as int);
    assert(taken =~= before + later);
    let mid = delivered_split(pre, before, later, qhandle, post);
    assert(delivered(mid, later, qhandle, post));
}

/// A dispatch of what is pending handles every event that the queue was
/// known to hold, in their order, before any that came later.
pub proof fn dispatch_keeps_order<State: Dispatch>(
    before: Seq<QueueEvent>,
    pre: State,
    qhandle: QueueHandle<State>,
    n: usize,
    after: Seq<QueueEvent>,
    post: State,
)
    requires
        dispatched(before, pre, qhandle, Ok(n), after, post),
    ensures
        before.len() <= n,
        exists|mid: State, later: Seq<QueueEvent>|
            delivered(pre, before, qhandle, mid) && #[trigger] delivered(mid, later, qhandle, post)
                && before.len() + later.len() == n,
{
    let limit = choose|limit: usize|
        limit >= before.len() && #[trigger] drained(
            before,
            pre,
            qhandle,
            limit,
            Ok(n),
            after,
            post,
        );
    drain_keeps_order(before, pre, qhandle, limit, n, after, post);
}

/// An event that is refused stops the drain where it stands, and leaves the
/// state as the events before it left it. With `k` the number of events
/// taken, the refused one among them: every event that the queue was known to
/// hold behind the first `k` is still there, in order, at the front of the
/// queue; and where the refused event was one of those, it is the `k`-th, and
/// the state is what handling those before it, in order, made of it.
pub proof fn refusal_keeps_the_rest<State: Dispatch>(
    before: Seq<QueueEvent>,
    pre: State,
    qhandle: QueueHandle<State>,
    limit: usize,
    e: DispatchError,
    after: Seq<QueueEvent>,
    post: State,
) -> (k: int)
    requires
        drained(before, pre, qhandle, limit, Err(e), after, post),
    ensures
        1 <= k <= limit,
        rest(before, k).is_prefix_of(after),
        k <= before.len() ==> delivered(pre, before.take(k - 1), qhandle, post) && State::parses(
            before[k - 1].interface@,
            before[k - 1].msg,
            Err(e),
        ),
{
    let taken = choose|taken: Seq<QueueEvent>|
        (#[trigger] delivered(pre, taken.drop_last(), qhandle, post)) && 0 < taken.len() <= limit
            && agree(before, taken) && called_back(post, taken.last(), qhandle, post, Err(e))
            && rest(before, taken.len() as int).is_prefix_of(after);
    let k = taken.len() as int;
    if k <= before.len() {
        assert(taken.drop_last() =~= before.take(k - 1));
        assert(taken.last() == before[k - 1]);
    }
    k
}

/// A roundtrip ends as soon as its barrier is answered: a step that finds the
/// barrier answered, after the request was sent or after a step that asked to
/// be called again, is finished with the count as it stands, and touches
/// neither queue nor state.
pub proof fn answered_roundtrip_finishes<State: Dispatch>(
    before: Seq<QueueEvent>,
    pre: State,
    qhandle: QueueHandle<State>,
    total: usize,
    progress: Progress,
    next: Next,
    after: Seq<QueueEvent>,
    post: State,
    total_after: usize,
)
    requires
        progress == Progress::Sent(true) || progress == Progress::Repeated,
        stepped(before, pre, qhandle, total, progress, true, next, after, post, total_after),
    ensures
        next == Next::Finished(Ok(total)),
        after == before,
        post == pre,
        total_after == total,
{
}

/// A roundtrip whose barrier is not answered does not end with a count: a
/// step that finds the barrier unanswered asks for a read or to be called
/// again, or fails.
pub proof fn unanswered_roundtrip_goes_on<State: Dispatch>(
    before: Seq<QueueEvent>,
    pre: State,
    qhandle: QueueHandle<State>,
    total: usize,
    progress: Progress,
    next: Next,
    after: Seq<QueueEvent>,
    post: State,
    total_after: usize,
)
    requires
        stepped(before, pre, qhandle, total, progress, false, next, after, post, total_after),
    ensures
        match next {
            Next::Finished(r) => r is Err,
            _ => true,
        },
{
}

} // verus!
