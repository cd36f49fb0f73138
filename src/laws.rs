use vstd::prelude::*;

use crate::phase::TouchType;
use crate::recognizer::{
    Pinch, RecognizerState, Step, Transition, ends_unknown, next_report, pair_of, updated,
};
use crate::touches::has_id;

verus! {

/// While a one-touch gesture is under way, a second touch coming down ends it
/// and begins a pinch on the two touches within the same update; the
/// three-touch gesture stays quiet.
pub proof fn second_touch_hands_over<P>(
    s: RecognizerState<P>,
    id: u64,
    pos: P,
    t: Seq<(u64, P)>,
)
    requires
        s.wf(),
        s.one is Some,
        !has_id(s.touches, id),
        updated(s.touches, TouchType::Start, id, pos, t),
    ensures
        t.len() == 2,
        next_report(s, t) == (Step::<P> {
            one: Transition::End,
            two: Pinch::Start(pair_of(t).0, pair_of(t).1),
            three: Transition::Quiet,
        }),
{
    let j = choose|j: int| 0 <= j <= s.touches.len() && t == s.touches.insert(j, (id, pos));
    assert(t.len() == 2);
}

/// An update that ends a touch which is not down leaves the touches as they
/// were and falls under `ends_unknown`: `process` then keeps its state and
/// reports nothing, whatever gesture is under way.
pub proof fn ending_unknown_touch_changes_nothing<P>(
    s: RecognizerState<P>,
    id: u64,
    pos: P,
    t: Seq<(u64, P)>,
)
    requires
        s.wf(),
        !has_id(s.touches, id),
        updated(s.touches, TouchType::End, id, pos, t),
    ensures
        ends_unknown(s, TouchType::End, id),
        t == s.touches,
{
}

/// Each gesture follows the number of touches down before (`s`) and after
/// (`t`) an update: it begins when the count becomes its own, goes on while
/// the count stays its own, ends when the count leaves it, and says nothing
/// otherwise.
pub proof fn reports_follow_counts<P>(s: RecognizerState<P>, t: Seq<(u64, P)>)
    requires
        s.wf(),
    ensures
        next_report(s, t).one is Start <==> s.touches.len() != 1 && t.len() == 1,
        next_report(s, t).one is Move <==> s.touches.len() == 1 && t.len() == 1,
        next_report(s, t).one is End <==> s.touches.len() == 1 && t.len() != 1,
        next_report(s, t).one is Quiet <==> s.touches.len() != 1 && t.len() != 1,
        next_report(s, t).two is Start <==> s.touches.len() != 2 && t.len() == 2,
        next_report(s, t).two is Change <==> s.touches.len() == 2 && t.len() == 2,
        next_report(s, t).two is End <==> s.touches.len() == 2 && t.len() != 2,
        next_report(s, t).two is Quiet <==> s.touches.len() != 2 && t.len() != 2,
        next_report(s, t).three is Start <==> s.touches.len() != 3 && t.len() == 3,
        next_report(s, t).three is Move <==> s.touches.len() == 3 && t.len() == 3,
        next_report(s, t).three is End <==> s.touches.len() == 3 && t.len() != 3,
        next_report(s, t).three is Quiet <==> s.touches.len() != 3 && t.len() != 3,
{
}

} // verus!
