use vstd::prelude::*;

verus! {

/// The phase of one raw touch update.
#[derive(Clone, Copy, Debug, Hash, PartialEq, Eq, Structural, PartialOrd, Ord)]
pub enum TouchType {
    Start,
    Move,
    End,
}

#[verifier::external_type_specification]
pub struct ExTouchPhase(miniquad::TouchPhase);

/// The phase that a host phase of miniquad stands for: a cancelled touch is an
/// ended one.
pub open spec fn phase_of_host(p: miniquad::TouchPhase) -> TouchType {
    match p {
        miniquad::TouchPhase::Started => TouchType::Start,
        miniquad::TouchPhase::Moved => TouchType::Move,
        miniquad::TouchPhase::Ended => TouchType::End,
        miniquad::TouchPhase::Cancelled => TouchType::End,
    }
}

impl From<miniquad::TouchPhase> for TouchType {
    fn from(val: miniquad::TouchPhase) -> (r: TouchType)
        ensures
            r == phase_of_host(val),
    {
        match val {
            miniquad::TouchPhase::Started => TouchType::Start,
            miniquad::TouchPhase::Moved => TouchType::Move,
            miniquad::TouchPhase::Ended => TouchType::End,
            miniquad::TouchPhase::Cancelled => TouchType::End,
        }
    }
}

impl vstd::std_specs::convert::FromSpecImpl<miniquad::TouchPhase> for TouchType {
    open spec fn obeys_from_spec() -> bool {
        true
    }

    open spec fn from_spec(v: miniquad::TouchPhase) -> TouchType {
        phase_of_host(v)
    }
}

/// A cancelled host touch is taken in exactly as an ended one, so the
/// recognizer behaves the same on either.
pub proof fn cancel_is_end()
    ensures
        phase_of_host(miniquad::TouchPhase::Cancelled) == phase_of_host(
            miniquad::TouchPhase::Ended,
        ),
        phase_of_host(miniquad::TouchPhase::Cancelled) == TouchType::End,
{
}

} // verus!
