use gesture_recognizer::{GestureRecognizer, Pinch, Step, TouchSet, TouchType, Transition};

type Pt = (f32, f32);

fn quiet() -> Step<Pt> {
    Step { one: Transition::Quiet, two: Pinch::Quiet, three: Transition::Quiet }
}

fn centroid2(p: (Pt, Pt)) -> Pt {
    ((p.0 .0 + p.1 .0) / 2.0, (p.0 .1 + p.1 .1) / 2.0)
}

fn span(p: (Pt, Pt)) -> f32 {
    let dx = p.0 .0 - p.1 .0;
    let dy = p.0 .1 - p.1 .1;
    (dx * dx + dy * dy).sqrt()
}

fn centroid3(p: (Pt, Pt, Pt)) -> Pt {
    ((p.0 .0 + p.1 .0 + p.2 .0) / 3.0, (p.0 .1 + p.1 .1 + p.2 .1) / 3.0)
}

fn offset(from: Pt, to: Pt) -> Pt {
    (to.0 - from.0, to.1 - from.1)
}

#[test]
fn single_touch_round_trip() {
    let mut g: GestureRecognizer<Pt> = GestureRecognizer::new();
    let s = g.process(TouchType::Start, 1, (0.0, 0.0));
    assert_eq!(s, Step { one: Transition::Start((0.0, 0.0)), ..quiet() });
    let s = g.process(TouchType::Move, 1, (3.0, 4.0));
    assert_eq!(s, Step { one: Transition::Move { from: (0.0, 0.0), to: (3.0, 4.0) }, ..quiet() });
    match s.one {
        Transition::Move { from, to } => assert_eq!(offset(from, to), (3.0, 4.0)),
        _ => panic!("expected a move"),
    }
    let s = g.process(TouchType::End, 1, (3.0, 4.0));
    assert_eq!(s, Step { one: Transition::End, ..quiet() });
}

#[test]
fn pinch_scale_factor() {
    let mut g: GestureRecognizer<Pt> = GestureRecognizer::new();
    g.process(TouchType::Start, 1, (0.0, 0.0));
    let s = g.process(TouchType::Start, 2, (10.0, 0.0));
    assert_eq!(s.two, Pinch::Start((0.0, 0.0), (10.0, 0.0)));
    assert_eq!(centroid2(((0.0, 0.0), (10.0, 0.0))), (5.0, 0.0));
    let s = g.process(TouchType::Move, 2, (20.0, 0.0));
    match s.two {
        Pinch::Change { base, from, to } => {
            assert_eq!(span(base), 10.0);
            assert_eq!(span(to) / span(base), 2.0);
            assert_eq!(centroid2(to), (10.0, 0.0));
            assert_eq!(offset(centroid2(from), centroid2(to)), (5.0, 0.0));
        }
        _ => panic!("expected a change"),
    }
    assert_eq!(s.one, Transition::Quiet);
    assert_eq!(s.three, Transition::Quiet);
}

#[test]
fn three_touch_centroid() {
    let mut g: GestureRecognizer<Pt> = GestureRecognizer::new();
    g.process(TouchType::Start, 1, (0.0, 0.0));
    g.process(TouchType::Start, 2, (3.0, 0.0));
    let s = g.process(TouchType::Start, 3, (0.0, 3.0));
    match s.three {
        Transition::Start(t) => assert_eq!(centroid3(t), (1.0, 1.0)),
        _ => panic!("expected a start"),
    }
    assert_eq!(s.two, Pinch::End);
    let s = g.process(TouchType::Move, 3, (3.0, 3.0));
    match s.three {
        Transition::Move { from, to } => {
            assert_eq!(centroid3(from), (1.0, 1.0));
            assert_eq!(to, ((0.0, 0.0), (3.0, 0.0), (3.0, 3.0)));
            assert_eq!(centroid3(to), (2.0, 1.0));
            assert_eq!(offset(centroid3(from), centroid3(to)), (1.0, 0.0));
        }
        _ => panic!("expected a move"),
    }
}

#[test]
fn second_touch_ends_one_and_starts_pinch() {
    let mut g: GestureRecognizer<Pt> = GestureRecognizer::new();
    g.process(TouchType::Start, 7, (1.0, 1.0));
    let s = g.process(TouchType::Start, 3, (5.0, 5.0));
    assert_eq!(
        s,
        Step { one: Transition::End, two: Pinch::Start((5.0, 5.0), (1.0, 1.0)), three: Transition::Quiet }
    );
}

#[test]
fn ending_unknown_touch_is_harmless() {
    let mut g: GestureRecognizer<Pt> = GestureRecognizer::new();
    assert_eq!(g.process(TouchType::End, 9, (0.0, 0.0)), quiet());
    g.process(TouchType::Start, 1, (2.0, 2.0));
    assert_eq!(g.process(TouchType::End, 9, (0.0, 0.0)), quiet());
    let s = g.process(TouchType::Move, 1, (4.0, 2.0));
    assert_eq!(s.one, Transition::Move { from: (2.0, 2.0), to: (4.0, 2.0) });
    g.process(TouchType::Start, 2, (10.0, 0.0));
    assert_eq!(g.process(TouchType::End, 9, (0.0, 0.0)), quiet());
    g.process(TouchType::Start, 3, (0.0, 3.0));
    assert_eq!(g.process(TouchType::End, 9, (0.0, 0.0)), quiet());
    let s = g.process(TouchType::Move, 3, (0.0, 6.0));
    assert_eq!(
        s.three,
        Transition::Move {
            from: ((4.0, 2.0), (10.0, 0.0), (0.0, 3.0)),
            to: ((4.0, 2.0), (10.0, 0.0), (0.0, 6.0)),
        }
    );
}

#[test]
fn cancelled_is_ended() {
    let c = TouchType::from(miniquad::TouchPhase::Cancelled);
    let e = TouchType::from(miniquad::TouchPhase::Ended);
    assert_eq!(c, e);
    assert_eq!(c, TouchType::End);
    let mut a: GestureRecognizer<Pt> = GestureRecognizer::new();
    let mut b: GestureRecognizer<Pt> = GestureRecognizer::new();
    a.process(TouchType::Start, 1, (1.0, 2.0));
    b.process(TouchType::Start, 1, (1.0, 2.0));
    assert_eq!(a.process(c, 1, (0.0, 0.0)), b.process(e, 1, (0.0, 0.0)));
}

#[test]
fn host_phases_map_one_for_one() {
    assert_eq!(TouchType::from(miniquad::TouchPhase::Started), TouchType::Start);
    assert_eq!(TouchType::from(miniquad::TouchPhase::Moved), TouchType::Move);
    assert_eq!(TouchType::from(miniquad::TouchPhase::Ended), TouchType::End);
}

#[test]
fn four_touches_end_three_and_stay_quiet() {
    let mut g: GestureRecognizer<Pt> = GestureRecognizer::new();
    for id in 1..=3u64 {
        g.process(TouchType::Start, id, (id as f32, 0.0));
    }
    let s = g.process(TouchType::Start, 4, (4.0, 0.0));
    assert_eq!(s, Step { three: Transition::End, ..quiet() });
    assert_eq!(g.process(TouchType::Move, 2, (9.0, 9.0)), quiet());
    let s = g.process(TouchType::End, 4, (0.0, 0.0));
    assert_eq!(s.three, Transition::Start(((1.0, 0.0), (9.0, 9.0), (3.0, 0.0))));
}

#[test]
fn move_of_unknown_touch_starts_it() {
    let mut g: GestureRecognizer<Pt> = GestureRecognizer::new();
    let s = g.process(TouchType::Move, 5, (1.0, 1.0));
    assert_eq!(s.one, Transition::Start((1.0, 1.0)));
}

#[test]
fn coinciding_pinch_has_zero_baseline() {
    let mut g: GestureRecognizer<Pt> = GestureRecognizer::default();
    g.process(TouchType::Start, 1, (2.0, 2.0));
    g.process(TouchType::Start, 2, (2.0, 2.0));
    let s = g.process(TouchType::Move, 2, (4.0, 2.0));
    match s.two {
        Pinch::Change { base, .. } => assert_eq!(span(base), 0.0),
        _ => panic!("expected a change"),
    }
}

#[test]
fn touch_set_keeps_identifier_order() {
    let mut t: TouchSet<u8> = TouchSet::new();
    t.put(30, 3);
    t.put(10, 1);
    t.put(20, 2);
    t.put(10, 9);
    assert_eq!(t.len(), 3);
    assert_eq!((t.position(0), t.position(1), t.position(2)), (9, 2, 3));
    t.lift(20);
    t.lift(99);
    assert_eq!(t.len(), 2);
    assert_eq!((t.position(0), t.position(1)), (9, 3));
    t.lift(10);
    t.lift(30);
    assert_eq!(t.len(), 0);
}
