use vstd::prelude::*;

use crate::phase::TouchType;
use crate::touches::{TouchSet, has_id, lifted, placed, sorted_by_id};

verus! {

/// What a one- or three-touch gesture reports on one update.
#[derive(Debug, PartialEq)]
pub enum Transition<T> {
    /// Nothing to report.
    Quiet,
    /// The gesture begins with these touches.
    Start(T),
    /// The gesture goes on: the touches were at `from` and are now at `to`.
    Move { from: T, to: T },
    /// The gesture is over.
    End,
}

/// What the two-touch gesture (pinch and pan) reports on one update.
#[derive(Debug, PartialEq)]
pub enum Pinch<P> {
    /// Nothing to report.
    Quiet,
    /// The pinch begins with these two touches, which give its baseline.
    Start(P, P),
    /// The pinch goes on: it began at `base`, was last at `from` and is now at `to`.
    Change { base: (P, P), from: (P, P), to: (P, P) },
    /// The pinch is over.
    End,
}

/// The reports of one update, one per gesture, in the order in which they are
/// delivered: one touch, two touches, three touches.
#[derive(Debug, PartialEq)]
pub struct Step<P> {
    pub one: Transition<P>,
    pub two: Pinch<P>,
    pub three: Transition<(P, P, P)>,
}

/// The state of a recognizer: the touches that are down, in increasing order
/// of identifier, and for each gesture that is under way the touches it was
/// last reported at (for the pinch, also those it began at).
pub struct RecognizerState<P> {
    pub touches: Seq<(u64, P)>,
    pub one: Option<P>,
    pub two: Option<((P, P), (P, P))>,
    pub three: Option<(P, P, P)>,
}

/// The representative of a lone touch.
pub open spec fn first_of<P>(t: Seq<(u64, P)>) -> P {
    t[0].1
}

/// The representatives of two touches: the lowest identifiers first.
pub open spec fn pair_of<P>(t: Seq<(u64, P)>) -> (P, P) {
    (t[0].1, t[1].1)
}

/// The representatives of three touches: the lowest identifiers first.
pub open spec fn triple_of<P>(t: Seq<(u64, P)>) -> (P, P, P) {
    (t[0].1, t[1].1, t[2].1)
}

/// The one-touch gesture on the touches `t`: its new state and its report.
pub open spec fn one_step<P>(t: Seq<(u64, P)>, last: Option<P>) -> (Option<P>, Transition<P>) {
    if t.len() == 1 {
        match last {
            Some(from) => (Some(first_of(t)), Transition::Move { from, to: first_of(t) }),
            None => (Some(first_of(t)), Transition::Start(first_of(t))),
        }
    } else {
        match last {
            Some(_) => (None, Transition::End),
            None => (None, Transition::Quiet),
        }
    }
}

/// The two-touch gesture on the touches `t`: its new state and its report.
pub open spec fn two_step<P>(t: Seq<(u64, P)>, last: Option<((P, P), (P, P))>) -> (
    Option<((P, P), (P, P))>,
    Pinch<P>,
) {
    if t.len() == 2 {
        match last {
            Some((base, from)) => (
                Some((base, pair_of(t))),
                Pinch::Change { base, from, to: pair_of(t) },
            ),
            None => (Some((pair_of(t), pair_of(t))), Pinch::Start(t[0].1, t[1].1)),
        }
    } else {
        match last {
            Some(_) => (None, Pinch::End),
            None => (None, Pinch::Quiet),
        }
    }
}

/// The three-touch gesture on the touches `t`: its new state and its report.
pub open spec fn three_step<P>(t: Seq<(u64, P)>, last: Option<(P, P, P)>) -> (
    Option<(P, P, P)>,
    Transition<(P, P, P)>,
) {
    if t.len() == 3 {
        match last {
            Some(from) => (Some(triple_of(t)), Transition::Move { from, to: triple_of(t) }),
            None => (Some(triple_of(t)), Transition::Start(triple_of(t))),
        }
    } else {
        match last {
            Some(_) => (None, Transition::End),
            None => (None, Transition::Quiet),
        }
    }
}

/// The touches after one raw update: `new` is what `old` becomes.
pub open spec fn updated<P>(old: Seq<(u64, P)>, phase: TouchType, id: u64, pos: P, new: Seq<(u64, P)>) -> bool {
    match phase {
        TouchType::Start | TouchType::Move => placed(old, id, pos, new),
        TouchType::End => sorted_by_id(new) && lifted(old, id, new),
    }
}

/// The state that follows `s` once the touches are `t`.
pub open spec fn next_state<P>(s: RecognizerState<P>, t: Seq<(u64, P)>) -> RecognizerState<P> {
    RecognizerState {
        touches: t,
        one: one_step(t, s.one).0,
        two: two_step(t, s.two).0,
        three: three_step(t, s.three).0,
    }
}

/// The reports that the gestures of `s` give once the touches are `t`.
pub open spec fn next_report<P>(s: RecognizerState<P>, t: Seq<(u64, P)>) -> Step<P> {
    Step { one: one_step(t, s.one).1, two: two_step(t, s.two).1, three: three_step(t, s.three).1 }
}

/// The update ends a touch that is not down: it is ignored and reports nothing.
pub open spec fn ends_unknown<P>(s: RecognizerState<P>, phase: TouchType, id: u64) -> bool {
    phase == TouchType::End && !has_id(s.touches, id)
}

/// The report in which no gesture says anything.
pub open spec fn quiet<P>() -> Step<P> {
    Step { one: Transition::Quiet, two: Pinch::Quiet, three: Transition::Quiet }
}

impl<P> RecognizerState<P> {
    /// A gesture is under way exactly while its number of touches is down, and
    /// it was last reported at the touches that are down.
    pub open spec fn wf(self) -> bool {
        &&& sorted_by_id(self.touches)
        &&& self.one is Some <==> self.touches.len() == 1
        &&& self.two is Some <==> self.touches.len() == 2
        &&& self.three is Some <==> self.touches.len() == 3
        &&& self.one is Some ==> self.one->0 == first_of(self.touches)
        &&& self.two is Some ==> (self.two->0).1 == pair_of(self.touches)
        &&& self.three is Some ==> self.three->0 == triple_of(self.touches)
    }
}

/// Tracks the touches that are down and turns raw touch updates into gesture
/// reports.
pub struct GestureRecognizer<P> {
    touches: TouchSet<P>,
    one: Option<P>,
    two: Option<((P, P), (P, P))>,
    three: Option<(P, P, P)>,
}

impl<P> View for GestureRecognizer<P> {
    type V = RecognizerState<P>;

    closed spec fn view(&self) -> RecognizerState<P> {
        RecognizerState {
            touches: self.touches@,
            one: self.one,
            two: self.two,
            three: self.three,
        }
    }
}

impl<P: Copy> GestureRecognizer<P> {
    /// A recognizer with no touch down and no gesture under way.
    pub fn new() -> (r: Self)
        ensures
            r@.wf(),
            r@.touches == Seq::<(u64, P)>::empty(),
            r@.one is None,
            r@.two is None,
            r@.three is None,
    {
        GestureRecognizer { touches: TouchSet::new(), one: None, two: None, three: None }
    }

    fn process_one_touch(&mut self) -> (r: Transition<P>)
        ensures
            final(self).touches == old(self).touches,
            final(self).two == old(self).two,
            final(self).three == old(self).three,
            (final(self).one, r) == one_step(old(self).touches@, old(self).one),
    {
        if self.touches.len() == 1 {
            let to = self.touches.position(0);
            match self.one {
                Some(from) => {
                    self.one = Some(to);
                    Transition::Move { from, to }
                },
                None => {
                    self.one = Some(to);
                    Transition::Start(to)
                },
            }
        } else if self.one.is_some() {
            self.one = None;
            Transition::End
        } else {
            Transition::Quiet
        }
    }

    fn process_two_touches(&mut self) -> (r: Pinch<P>)
        ensures
            final(self).touches == old(self).touches,
            final(self).one == old(self).one,
            final(self).three == old(self).three,
            (final(self).two, r) == two_step(old(self).touches@, old(self).two),
    {
        if self.touches.len() == 2 {
            let to = (self.touches.position(0), self.touches.position(1));
            match self.two {
                Some((base, from)) => {
                    self.two = Some((base, to));
                    Pinch::Change { base, from, to }
                },
                None => {
                    self.two = Some((to, to));
                    Pinch::Start(to.0, to.1)
                },
            }
        } else if self.two.is_some() {
            self.two = None;
            Pinch::End
        } else {
            Pinch::Quiet
        }
    }

    fn process_three_touches(&mut self) -> (r: Transition<(P, P, P)>)
        ensures
            final(self).touches == old(self).touches,
            final(self).one == old(self).one,
            final(self).two == old(self).two,
            (final(self).three, r) == three_step(old(self).touches@, old(self).three),
    {
        if self.touches.len() == 3 {
            let to = (self.touches.position(0), self.touches.position(1), self.touches.position(2));
            match self.three {
                Some(from) => {
                    self.three = Some(to);
                    Transition::Move { from, to }
                },
                None => {
                    self.three = Some(to);
                    Transition::Start(to)
                },
            }
        } else if self.three.is_some() {
            self.three = None;
            Transition::End
        } else {
            Transition::Quiet
        }
    }

    /// Takes in one raw touch update: the touch `id` is down at `pos`
    /// (`Start`, `Move`) or is up (`End`). Then each gesture, in turn, looks at
    /// the touches that are down and says what it reports.
    pub fn process(&mut self, phase: TouchType, id: u64, pos: P) -> (r: Step<P>)
        requires
            old(self)@.wf(),
        ensures
            final(self)@.wf(),
            updated(old(self)@.touches, phase, id, pos, final(self)@.touches),
            ends_unknown(old(self)@, phase, id) ==> final(self)@ == old(self)@ && r == quiet::<P>(),
            !ends_unknown(old(self)@, phase, id) ==> final(self)@ == next_state(
                old(self)@,
                final(self)@.touches,
            ) && r == next_report(old(self)@, final(self)@.touches),
    {
        match phase {
            TouchType::Start | TouchType::Move => self.touches.put(id, pos),
            TouchType::End => {
                if !self.touches.lift(id) {
                    return Step { one: Transition::Quiet, two: Pinch::Quiet, three: Transition::Quiet };
                }
            },
        }
        let one = self.process_one_touch();
        let two = self.process_two_touches();
        let three = self.process_three_touches();
        Step { one, two, three }
    }
}

impl<P: Copy> Default for GestureRecognizer<P> {
    fn default() -> (r: Self)
        ensures
            r@.wf(),
            r@.touches == Seq::<(u64, P)>::empty(),
            r@.one is None,
            r@.two is None,
            r@.three is None,
    {
        GestureRecognizer::new()
    }
}

} // verus!
