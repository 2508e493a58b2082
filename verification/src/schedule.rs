//! The five-box review rule.
//!
//! A card sits in one of five boxes. A successful review moves it one box up,
//! and out of the collection from the last box. A failed review counts an
//! attempt; the second failure in a row moves the card one box down, except
//! from the first box. A card that stays in the collection is next due after
//! the interval of the box it is left in.

use crate::date::{representable, Date};
use vstd::prelude::*;

verus! {

/// The lowest box, where new cards start.
pub const FIRST_LEVEL: u8 = 1;

/// The highest box; a success there ends the card's reviews.
pub const LAST_LEVEL: u8 = 5;

/// Whether `level` is one of the five boxes.
pub open spec fn is_level(level: int) -> bool {
    FIRST_LEVEL <= level <= LAST_LEVEL
}

/// Days from a review that leaves a card in box `level` to its next review.
pub open spec fn interval_days(level: int) -> int {
    if level == 1 {
        1
    } else if level == 2 {
        2
    } else if level == 3 {
        4
    } else if level == 4 {
        6
    } else if level == 5 {
        10
    } else {
        0
    }
}

/// What a review does to a card, over unbounded integers.
pub enum OutcomeView {
    /// The card is not due yet: nothing changes.
    NotDue,
    /// The card has left the last box: it is removed.
    Mastered,
    /// The card stays, in box `level`, due on day `due`, with `attempts` failures counted.
    Rescheduled { level: int, due: int, attempts: int },
}

/// The review rule: what becomes of a card that the store holds in box `level`,
/// due on day `due`, with `attempts` failures in a row, reviewed on day `today`.
pub open spec fn outcome_of(
    due: int,
    level: int,
    attempts: int,
    today: int,
    success: bool,
) -> OutcomeView {
    if due > today {
        OutcomeView::NotDue
    } else if success {
        if level == LAST_LEVEL {
            OutcomeView::Mastered
        } else {
            OutcomeView::Rescheduled {
                level: level + 1,
                due: today + interval_days(level + 1),
                attempts: 0,
            }
        }
    } else if attempts >= 1 && level > FIRST_LEVEL {
        OutcomeView::Rescheduled {
            level: level - 1,
            due: today + interval_days(level - 1),
            attempts: 0,
        }
    } else {
        OutcomeView::Rescheduled {
            level,
            due: today + interval_days(level),
            attempts: attempts + 1,
        }
    }
}

/// What a review does to a card.
#[derive(Clone, Copy, Debug, PartialEq, Eq)]
pub enum Outcome {
    /// The card is not due yet: nothing changes.
    NotDue,
    /// The card has left the last box: it is removed.
    Mastered,
    /// The card stays, with a new box, review date and count of failed attempts.
    Rescheduled { level: u8, next_review: Date, attempts: u16 },
}

impl View for Outcome {
    type V = OutcomeView;

    open spec fn view(&self) -> OutcomeView {
        match *self {
            Outcome::NotDue => OutcomeView::NotDue,
            Outcome::Mastered => OutcomeView::Mastered,
            Outcome::Rescheduled { level, next_review, attempts } => OutcomeView::Rescheduled {
                level: level as int,
                due: next_review@,
                attempts: attempts as int,
            },
        }
    }
}

/// Why a review could not be decided.
#[derive(Clone, Copy, Debug, PartialEq, Eq, Structural)]
pub enum ReviewError {
    /// No card is selected: the collection is empty.
    NoCard,
    /// The stored review date is not a date.
    MalformedDate,
    /// The stored box is none of the five.
    LevelOutOfRange,
    /// The next review would fall after the latest date.
    DateOutOfRange,
}

/// What is decided for a card as the store holds it: the outcome of the review
/// rule, unless the card is due and its stored box is none of the five, or the
/// rule asks for a review date that does not exist.
pub open spec fn decision(
    due: int,
    level: int,
    attempts: int,
    today: int,
    success: bool,
) -> Result<OutcomeView, ReviewError> {
    if due > today {
        Ok(OutcomeView::NotDue)
    } else if !is_level(level) {
        Err(ReviewError::LevelOutOfRange)
    } else {
        match outcome_of(due, level, attempts, today, success) {
            OutcomeView::Rescheduled { due: next, .. } if !representable(next) => Err(
                ReviewError::DateOutOfRange,
            ),
            outcome => Ok(outcome),
        }
    }
}

/// What was decided, over unbounded integers.
pub open spec fn decided(r: Result<Outcome, ReviewError>) -> Result<OutcomeView, ReviewError> {
    match r {
        Ok(outcome) => Ok(outcome@),
        Err(e) => Err(e),
    }
}

/// Days from a review that leaves a card in box `level` to its next review;
/// `None` where `level` is no box.
pub fn interval(level: u8) -> (days: Option<u8>)
    ensures
        match days {
            Some(days) => is_level(level as int) && days == interval_days(level as int),
            None => !is_level(level as int),
        },
{
    match level {
        1 => Some(1),
        2 => Some(2),
        3 => Some(4),
        4 => Some(6),
        5 => Some(10),
        _ => None,
    }
}

/// Applies the review rule to a card as the store holds it.
///
/// A card due after `today` is left alone, whatever else the store says of it.
/// Otherwise the stored box must be one of the five, and a card that stays
/// must get a review date that exists.
pub fn decide(due: Date, level: u8, attempts: u8, today: Date, success: bool) -> (r: Result<
    Outcome,
    ReviewError,
>)
    ensures
        decided(r) == decision(due@, level as int, attempts as int, today@, success),
        r matches Ok(Outcome::Rescheduled { level: next, .. }) ==> is_level(next as int),
{
    if due.days() > today.days() {
        return Ok(Outcome::NotDue);
    }
    if level < FIRST_LEVEL || level > LAST_LEVEL {
        return Err(ReviewError::LevelOutOfRange);
    }
    let (next_level, next_attempts): (u8, u16) = if success {
        (level + 1, 0)
    } else if attempts >= 1 && level > FIRST_LEVEL {
        (level - 1, 0)
    } else {
        (level, attempts as u16 + 1)
    };
    match interval(next_level) {
        None => Ok(Outcome::Mastered),
        Some(days) => match today.plus_days(days) {
            Some(next_review) => Ok(
                Outcome::Rescheduled { level: next_level, next_review, attempts: next_attempts },
            ),
            None => Err(ReviewError::DateOutOfRange),
        },
    }
}

/// A card that is due only after the day of the review is left as it is,
/// whether the review succeeded or not.
pub proof fn lemma_card_not_due_is_left_alone(
    due: int,
    level: int,
    attempts: int,
    today: int,
    success: bool,
)
    requires
        due > today,
    ensures
        outcome_of(due, level, attempts, today, success) == OutcomeView::NotDue,
        decision(due, level, attempts, today, success) == Ok::<OutcomeView, ReviewError>(
            OutcomeView::NotDue,
        ),
{
}

/// A card that stays in the collection stays in one of the five boxes, and a
/// success in the last box removes the card: no card is ever put in a sixth box.
pub proof fn lemma_levels_stay_in_range(
    due: int,
    level: int,
    attempts: int,
    today: int,
    success: bool,
)
    requires
        is_level(level),
    ensures
        outcome_of(due, level, attempts, today, success) matches OutcomeView::Rescheduled {
            level: next,
            ..
        } ==> is_level(next),
        decision(due, level, attempts, today, success) matches Ok(
            OutcomeView::Rescheduled { level: next, .. },
        ) ==> is_level(next),
        due <= today && success && level == LAST_LEVEL ==> outcome_of(
            due,
            level,
            attempts,
            today,
            success,
        ) == OutcomeView::Mastered,
{
}

/// A review that changes a card's box, up or down, leaves it with no failed
/// attempt counted; the count grows only where the box stays, and then by one.
pub proof fn lemma_attempts_reset_with_level(
    due: int,
    level: int,
    attempts: int,
    today: int,
    success: bool,
)
    requires
        attempts >= 0,
    ensures
        outcome_of(due, level, attempts, today, success) matches OutcomeView::Rescheduled {
            level: next,
            attempts: counted,
            ..
        } ==> {
            &&& next != level ==> counted == 0
            &&& counted != 0 ==> next == level && counted == attempts + 1
        },
{
}

/// A failed review moves a due card down exactly where a failure was already
/// counted and the card is above the first box.
pub proof fn lemma_failure_demotes_after_counted_failure(
    due: int,
    level: int,
    attempts: int,
    today: int,
)
    requires
        is_level(level),
        attempts >= 0,
        due <= today,
    ensures
        outcome_of(due, level, attempts, today, false) matches OutcomeView::Rescheduled {
            level: next,
            ..
        } && (next < level <==> attempts >= 1 && level > FIRST_LEVEL) && (next == level || next
            == level - 1),
{
}

/// A first failure above the first box keeps the card in its box and counts one
/// attempt. A second failure at the card's next review moves it one box down
/// and clears the count. A success in between clears the count as well, so
/// that the failure after it is a first one again.
pub proof fn lemma_second_failure_in_a_row_demotes(due: int, level: int, today: int, later: int)
    requires
        is_level(level),
        level > FIRST_LEVEL,
        due <= today,
        today + interval_days(level) <= later,
    ensures
        outcome_of(due, level, 0, today, false) == (OutcomeView::Rescheduled {
            level,
            due: today + interval_days(level),
            attempts: 1,
        }),
        outcome_of(today + interval_days(level), level, 1, later, false) == (
        OutcomeView::Rescheduled {
            level: level - 1,
            due: later + interval_days(level - 1),
            attempts: 0,
        }),
        outcome_of(
            today + interval_days(level),
            level,
            1,
            later,
            true,
        ) matches OutcomeView::Rescheduled { attempts: counted, .. } ==> counted == 0,
{
}

/// A card that stays in the collection is next due on the day of the review
/// plus the interval of the box it is left in. A success below the last box
/// leaves it one box up.
pub proof fn lemma_next_review_follows_interval(
    due: int,
    level: int,
    attempts: int,
    today: int,
    success: bool,
)
    ensures
        outcome_of(due, level, attempts, today, success) matches OutcomeView::Rescheduled {
            level: next,
            due: next_due,
            ..
        } ==> next_due == today + interval_days(next),
        due <= today && success && level != LAST_LEVEL ==> outcome_of(
            due,
            level,
            attempts,
            today,
            success,
        ) == (OutcomeView::Rescheduled {
            level: level + 1,
            due: today + interval_days(level + 1),
            attempts: 0,
        }),
{
}

} // verus!
