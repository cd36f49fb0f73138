//! A multi-touch gesture recognizer: it tracks the touches that are down and
//! reports one-finger pans, two-finger pinches and three-finger pans.

mod laws;
mod phase;
mod recognizer;
mod touches;

pub use laws::{
    ending_unknown_touch_changes_nothing, reports_follow_counts, second_touch_hands_over,
};
pub use phase::{TouchType, cancel_is_end, phase_of_host};
pub use recognizer::{
    GestureRecognizer, Pinch, RecognizerState, Step, Transition, ends_unknown, first_of, next_report,
    next_state, one_step, pair_of, quiet, three_step, triple_of, two_step, updated,
};
pub use touches::{TouchSet, has_id, lifted, placed, sorted_by_id};
