//! Moving between the questions of a presentation.
//!
//! A presentation is an ordered list of questions, addressed by index. A
//! navigation request names the index the client believes it is at and a
//! direction; the answer is the index every viewer should show next. The
//! answer never leaves the list: stepping past either end stays at that end,
//! and an index the client made up is first brought back into the list.

use vstd::prelude::*;

verus! {

/// Which neighbour of the current question is asked for.
#[derive(Clone, Copy, Debug, PartialEq, Eq, Structural)]
pub enum Direction {
    Forward,
    Backward,
}

/// The index in `0..length` nearest to `current`; `0` for an empty list.
pub open spec fn clamp_index(current: int, length: int) -> int {
    if length <= 0 || current < 0 {
        0
    } else if current >= length {
        length - 1
    } else {
        current
    }
}

/// The index shown after a step from `current` in `direction` through a list
/// of `length` questions.
pub open spec fn next_index(current: int, direction: Direction, length: int) -> int {
    let at = clamp_index(current, length);
    match direction {
        Direction::Forward => if at + 1 < length {
            at + 1
        } else {
            at
        },
        Direction::Backward => if at > 0 {
            at - 1
        } else {
            at
        },
    }
}

/// Computes the index to show after a step from `current` in `direction`.
pub fn navigate(current: usize, direction: Direction, length: usize) -> (new_index: usize)
    ensures
        new_index == next_index(current as int, direction, length as int),
{
    if length == 0 {
        return 0;
    }
    let at: usize = if current >= length {
        length - 1
    } else {
        current
    };
    match direction {
        Direction::Forward => {
            if at < length - 1 {
                at + 1
            } else {
                at
            }
        },
        Direction::Backward => {
            if at > 0 {
                at - 1
            } else {
                at
            }
        },
    }
}

/// A client's request to move through the questions of a presentation.
#[derive(Clone, Copy, Debug, PartialEq, Eq, Structural)]
pub struct NavigateEventRequest {
    pub presentation_id: i32,
    pub question_index: usize,
    pub direction: Direction,
}

/// The index every viewer of the presentation moves to.
#[derive(Clone, Copy, Debug, PartialEq, Eq, Structural)]
pub struct NavigateEventResponse {
    pub new_question_index: usize,
}

impl NavigateEventRequest {
    /// The response to this request when the presentation holds `length`
    /// questions.
    pub open spec fn response(self, length: int) -> NavigateEventResponse {
        NavigateEventResponse {
            new_question_index: next_index(
                self.question_index as int,
                self.direction,
                length,
            ) as usize,
        }
    }

    /// Answers the request against the ordered questions of its presentation.
    /// Only their number matters; what a question record holds is the
    /// caller's business.
    pub fn get_response<Q>(&self, questions: &[Q]) -> (response: NavigateEventResponse)
        ensures
            response == self.response(questions@.len() as int),
            response.new_question_index == next_index(
                self.question_index as int,
                self.direction,
                questions@.len() as int,
            ),
    {
        NavigateEventResponse {
            new_question_index: navigate(self.question_index, self.direction, questions.len()),
        }
    }
}

/// The new index always addresses a question of the list, or is `0` when
/// the list is empty, whatever index the client claimed.
pub proof fn lemma_next_index_in_range(current: int, direction: Direction, length: int)
    requires
        0 <= length,
    ensures
        0 <= next_index(current, direction, length),
        next_index(current, direction, length) < (if length > 1 {
            length
        } else {
            1
        }),
{
}

/// A step moves by at most one question and stops at the ends: forward from
/// an index inside the list gives the next index or, at the last question,
/// the same index; backward gives the previous index or, at the first
/// question, the same index.
pub proof fn lemma_next_index_steps_by_one(current: int, direction: Direction, length: int)
    requires
        0 <= current < length,
    ensures
        direction == Direction::Forward && current + 1 < length ==> next_index(
            current,
            direction,
            length,
        ) == current + 1,
        direction == Direction::Forward && current + 1 == length ==> next_index(
            current,
            direction,
            length,
        ) == current,
        direction == Direction::Backward && current > 0 ==> next_index(current, direction, length)
            == current - 1,
        direction == Direction::Backward && current == 0 ==> next_index(current, direction, length)
            == 0,
{
}

/// An index outside the list is treated as the nearest index inside it.
pub proof fn lemma_next_index_clamps(current: int, direction: Direction, length: int)
    ensures
        next_index(current, direction, length) == next_index(
            clamp_index(current, length),
            direction,
            length,
        ),
{
}

/// Forward at the last question changes nothing, however often it is
/// repeated: the answer is again the last index.
pub proof fn lemma_forward_at_end_is_idempotent(length: int)
    requires
        0 < length,
    ensures
        next_index(length - 1, Direction::Forward, length) == length - 1,
        next_index(next_index(length - 1, Direction::Forward, length), Direction::Forward, length)
            == length - 1,
{
}

/// Backward at the first question changes nothing, however often it is
/// repeated: the answer is again `0`.
pub proof fn lemma_backward_at_start_is_idempotent(length: int)
    requires
        0 <= length,
    ensures
        next_index(0, Direction::Backward, length) == 0,
        next_index(next_index(0, Direction::Backward, length), Direction::Backward, length) == 0,
{
}

/// With no questions every request is answered with index `0`.
pub proof fn lemma_empty_presentation(current: int, direction: Direction)
    ensures
        next_index(current, direction, 0) == 0,
{
}

} // verus!
