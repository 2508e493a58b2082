//! The card collection: an index in memory, kept in step with a store.
//!
//! [`Leitner`] holds, for every card, its word, its next review date and its
//! box, in three sequences of one length, and a cursor that selects one card.
//! The card at position `i` is the store's record `i + 1`. The collection
//! never touches the store itself. It names the record to read, decides from
//! what was read what must be written, and takes the change over once the
//! caller reports that the write was made.

use crate::cursor::{shift_index, shifted};
use crate::date::{formatted_date, parsed_day_number, representable, Date, DATE_PATTERN};
use crate::schedule::{decide, decision, is_level, Outcome, OutcomeView, ReviewError, FIRST_LEVEL};
use crate::text::{found_text, show_definition, shown_definition};
use vstd::prelude::*;

verus! {

/// The collection as three sequences and a cursor.
#[verifier::ext_equal]
pub struct LeitnerView {
    /// The word of each card.
    pub words: Seq<Seq<char>>,
    /// The day number of each card's next review.
    pub due: Seq<int>,
    /// The box of each card.
    pub levels: Seq<int>,
    /// The position of the selected card; 0 in an empty collection.
    pub cursor: int,
}

impl LeitnerView {
    /// The number of cards.
    pub open spec fn len(self) -> nat {
        self.words.len()
    }

    /// The three sequences describe the same cards.
    pub open spec fn aligned(self) -> bool {
        self.words.len() == self.due.len() && self.due.len() == self.levels.len()
    }

    /// The cursor selects a card, or rests at 0 where there is none.
    pub open spec fn cursor_in_range(self) -> bool {
        if self.len() == 0 {
            self.cursor == 0
        } else {
            0 <= self.cursor < self.len()
        }
    }

    /// What holds of every collection.
    pub open spec fn wf(self) -> bool {
        self.aligned() && self.cursor_in_range()
    }

    /// Every card is in one of the five boxes.
    pub open spec fn levels_in_range(self) -> bool {
        forall|i: int| 0 <= i < self.levels.len() ==> is_level(#[trigger] self.levels[i])
    }

    /// The store's identity of the card at `position`.
    pub open spec fn identity(position: int) -> int {
        position + 1
    }

    /// The collection with one more card at its end, in the first box.
    pub open spec fn with_card(self, word: Seq<char>, due: int) -> LeitnerView {
        LeitnerView {
            words: self.words.push(word),
            due: self.due.push(due),
            levels: self.levels.push(FIRST_LEVEL as int),
            cursor: self.cursor,
        }
    }

    /// The collection without the selected card. A cursor left past the end
    /// moves to the last card, or to 0 where none is left.
    pub open spec fn without_selected(self) -> LeitnerView {
        let left = self.len() - 1;
        LeitnerView {
            words: self.words.remove(self.cursor),
            due: self.due.remove(self.cursor),
            levels: self.levels.remove(self.cursor),
            cursor: if left == 0 {
                0
            } else if self.cursor >= left {
                left - 1
            } else {
                self.cursor
            },
        }
    }

    /// The collection with the selected card in box `level`, due on day `due`.
    pub open spec fn with_selected(self, level: int, due: int) -> LeitnerView {
        LeitnerView {
            words: self.words,
            due: self.due.update(self.cursor, due),
            levels: self.levels.update(self.cursor, level),
            cursor: self.cursor,
        }
    }

    /// The collection with the cursor at `cursor`.
    pub open spec fn with_cursor(self, cursor: int) -> LeitnerView {
        LeitnerView { cursor, ..self }
    }

    /// The collection with the cursor moved by `delta` positions, as far as the
    /// first and the last card allow. An empty collection stays as it is.
    pub open spec fn moved_by(self, delta: int) -> LeitnerView {
        self.with_cursor(shifted(self.cursor, delta, self.len() as int))
    }

    /// Whether a search for a due card, forward from the cursor, ends at `stop`:
    /// at the first card from the cursor on that is due on day `today`, and at
    /// the last card where none before it is.
    pub open spec fn is_due_stop(self, today: int, stop: int) -> bool {
        &&& self.cursor <= stop < self.len()
        &&& forall|i: int| self.cursor <= i < stop ==> #[trigger] self.due[i] > today
        &&& (stop == self.len() - 1 || self.due[stop] <= today)
    }

    /// Where a search for a due card ends that starts at position `from`.
    pub open spec fn due_stop_from(self, today: int, from: int) -> int
        decreases self.len() - from,
    {
        if from + 1 >= self.len() || self.due[from] <= today {
            from
        } else {
            self.due_stop_from(today, from + 1)
        }
    }

    /// The collection with the cursor moved forward to the first card that is
    /// due on day `today`, or to the last card where none from the cursor on is
    /// due. An empty collection stays as it is.
    pub open spec fn advanced(self, today: int) -> LeitnerView {
        if self.len() == 0 {
            self
        } else {
            self.with_cursor(self.due_stop_from(today, self.cursor))
        }
    }

    /// The collection after `outcome` has been written for the selected card.
    pub open spec fn after(self, outcome: OutcomeView) -> LeitnerView {
        match outcome {
            OutcomeView::NotDue => self,
            OutcomeView::Mastered => self.without_selected(),
            OutcomeView::Rescheduled { level, due, attempts: _ } => self.with_selected(level, due),
        }
    }

    /// What a review of the selected card decides, from what the store holds of it:
    /// its review date as far as it could be read, its box and its failed attempts.
    pub open spec fn review_result(
        self,
        success: bool,
        due: Option<int>,
        level: int,
        attempts: int,
        today: int,
    ) -> Result<ReviewStepView, ReviewError> {
        if self.len() == 0 {
            Err(ReviewError::NoCard)
        } else {
            match due {
                None => Err(ReviewError::MalformedDate),
                Some(due) => match decision(due, level, attempts, today, success) {
                    Ok(outcome) => Ok(ReviewStepView { position: self.cursor, outcome }),
                    Err(e) => Err(e),
                },
            }
        }
    }

    /// The collection after a review of the selected card, where the store has
    /// taken what the review decided. A review that fails decides nothing.
    pub open spec fn reviewed(
        self,
        success: bool,
        due: Option<int>,
        level: int,
        attempts: int,
        today: int,
    ) -> LeitnerView {
        match self.review_result(success, due, level, attempts, today) {
            Ok(step) => self.after(step.outcome),
            Err(_) => self,
        }
    }
}

/// A change to the collection.
pub enum Change {
    /// A card with this word and first review day was added.
    Added { word: Seq<char>, first_review: int },
    /// The selected card was reviewed on day `reviewed`, and the store took what
    /// was decided from what it held of the card.
    Reviewed { success: bool, due: Option<int>, level: int, attempts: int, reviewed: int },
    /// The cursor was moved by `delta` positions.
    Moved { delta: int },
    /// The cursor was moved on to a card due on day `today`.
    Advanced { today: int },
}

impl LeitnerView {
    /// The collection after `change`.
    pub open spec fn changed(self, change: Change) -> LeitnerView {
        match change {
            Change::Added { word, first_review } => self.with_card(word, first_review),
            Change::Reviewed { success, due, level, attempts, reviewed } => self.reviewed(
                success,
                due,
                level,
                attempts,
                reviewed,
            ),
            Change::Moved { delta } => self.moved_by(delta),
            Change::Advanced { today } => self.advanced(today),
        }
    }

    /// The collection after `changes`, one after the other.
    pub open spec fn after_all(self, changes: Seq<Change>) -> LeitnerView
        decreases changes.len(),
    {
        if changes.len() == 0 {
            self
        } else {
            self.after_all(changes.drop_last()).changed(changes.last())
        }
    }
}

/// The store's identity of the card at `position`, where that is a number the store can hold.
pub open spec fn identity_at(position: int) -> Option<int> {
    if position < u64::MAX {
        Some(LeitnerView::identity(position))
    } else {
        None
    }
}

/// What is to be written to the store, over unbounded integers.
pub enum StoreWriteView {
    /// Nothing is written.
    Nothing,
    /// A record is inserted; the store gives it the next identity.
    Insert {
        word: Seq<char>,
        definition: Seq<char>,
        level: int,
        next_review: Seq<char>,
        attempts: int,
    },
    /// The record `identity` gets a new box, review date and count of failed attempts.
    Update { identity: int, level: int, next_review: Seq<char>, attempts: int },
    /// The record `identity` is deleted.
    Delete { identity: int },
}

/// What is to be written to the store. Dates are written as text, year,
/// month and day.
#[derive(Debug, PartialEq, Eq)]
pub enum StoreWrite {
    /// Nothing is written.
    Nothing,
    /// A record is inserted; the store gives it the next identity.
    Insert { word: String, definition: String, level: u8, next_review: String, attempts: u16 },
    /// The record `identity` gets a new box, review date and count of failed attempts.
    Update { identity: u64, level: u8, next_review: String, attempts: u16 },
    /// The record `identity` is deleted.
    Delete { identity: u64 },
}

impl View for StoreWrite {
    type V = StoreWriteView;

    open spec fn view(&self) -> StoreWriteView {
        match *self {
            StoreWrite::Nothing => StoreWriteView::Nothing,
            StoreWrite::Insert { word, definition, level, next_review, attempts } => {
                StoreWriteView::Insert {
                    word: word@,
                    definition: definition@,
                    level: level as int,
                    next_review: next_review@,
                    attempts: attempts as int,
                }
            },
            StoreWrite::Update { identity, level, next_review, attempts } => {
                StoreWriteView::Update {
                    identity: identity as int,
                    level: level as int,
                    next_review: next_review@,
                    attempts: attempts as int,
                }
            },
            StoreWrite::Delete { identity } => StoreWriteView::Delete { identity: identity as int },
        }
    }
}

/// A decided review, over unbounded integers.
pub struct ReviewStepView {
    /// The position of the reviewed card.
    pub position: int,
    /// What the review does to it.
    pub outcome: OutcomeView,
}

impl ReviewStepView {
    /// What the step writes to the store: nothing for a card that is not due,
    /// the removal of a card that has left the last box, and else the card's
    /// new box, review date and count of failed attempts.
    pub open spec fn write(self) -> StoreWriteView {
        match self.outcome {
            OutcomeView::NotDue => StoreWriteView::Nothing,
            OutcomeView::Mastered => StoreWriteView::Delete {
                identity: LeitnerView::identity(self.position),
            },
            OutcomeView::Rescheduled { level, due, attempts } => StoreWriteView::Update {
                identity: LeitnerView::identity(self.position),
                level,
                next_review: formatted_date(due, DATE_PATTERN@),
                attempts,
            },
        }
    }
}

/// A decided review: the card it is about and what becomes of it.
#[derive(Clone, Copy, Debug, PartialEq, Eq)]
pub struct ReviewStep {
    position: usize,
    outcome: Outcome,
}

impl View for ReviewStep {
    type V = ReviewStepView;

    closed spec fn view(&self) -> ReviewStepView {
        ReviewStepView { position: self.position as int, outcome: self.outcome@ }
    }
}

impl ReviewStep {
    #[verifier::type_invariant]
    spec fn sound(self) -> bool {
        &&& self.position < usize::MAX
        &&& self.outcome matches Outcome::Rescheduled { level, .. } ==> is_level(level as int)
    }

    /// The position of the reviewed card.
    pub fn position(&self) -> (position: usize)
        ensures
            position == self@.position,
    {
        self.position
    }

    /// The store's identity of the reviewed card.
    pub fn identity(&self) -> (identity: u64)
        ensures
            identity == LeitnerView::identity(self@.position),
    {
        proof {
            use_type_invariant(self);
        }
        self.position as u64 + 1
    }

    /// What the review writes to the store.
    pub fn store_write(&self) -> (write: StoreWrite)
        ensures
            write@ == self@.write(),
    {
        proof {
            use_type_invariant(self);
        }
        match self.outcome {
            Outcome::NotDue => StoreWrite::Nothing,
            Outcome::Mastered => StoreWrite::Delete { identity: self.position as u64 + 1 },
            Outcome::Rescheduled { level, next_review, attempts } => StoreWrite::Update {
                identity: self.position as u64 + 1,
                level,
                next_review: next_review.to_text(),
                attempts,
            },
        }
    }

    /// What the review does to the card.
    pub fn outcome(&self) -> (outcome: Outcome)
        ensures
            outcome@ == self@.outcome,
            outcome matches Outcome::Rescheduled { level, .. } ==> is_level(level as int),
    {
        proof {
            use_type_invariant(self);
        }
        self.outcome
    }
}

/// The day number of a date that may be missing.
pub open spec fn day_of(date: Option<Date>) -> Option<int> {
    match date {
        Some(date) => Some(date@),
        None => None,
    }
}

/// A review's result, over unbounded integers.
pub open spec fn review_view(r: Result<ReviewStep, ReviewError>) -> Result<
    ReviewStepView,
    ReviewError,
> {
    match r {
        Ok(step) => Ok(step@),
        Err(e) => Err(e),
    }
}

/// A card as the store holds it when the collection is loaded.
#[derive(Debug, PartialEq, Eq)]
pub struct CardRow {
    /// The card's word.
    pub word: String,
    /// The card's next review date; `None` where the stored text is no date.
    pub next_review: Option<Date>,
    /// The card's box.
    pub level: u8,
}

impl CardRow {
    /// A row from the stored word, the stored text of the review date and the stored box.
    pub fn parse(word: String, next_review: &str, level: u8) -> (row: CardRow)
        ensures
            row.word == word,
            day_of(row.next_review) == parsed_day_number(next_review@, DATE_PATTERN@),
            row.level == level,
    {
        CardRow { word, next_review: Date::parse(next_review), level }
    }
}

/// A stored row whose review date is no date.
#[derive(Clone, Copy, Debug, PartialEq, Eq, Structural)]
pub struct MalformedRow {
    /// The row's position among the rows that were loaded.
    pub row: usize,
}

/// A card to be added: the record to insert into the store. It starts in the
/// first box, with no failed attempt.
#[derive(Debug, PartialEq, Eq)]
pub struct NewCard {
    /// The card's word.
    pub word: String,
    /// The card's definition.
    pub definition: String,
    /// The card's first review date.
    pub next_review: Date,
}

impl NewCard {
    /// The record that the store is to insert for the card.
    pub fn store_write(&self) -> (write: StoreWrite)
        ensures
            write@ == (StoreWriteView::Insert {
                word: self.word@,
                definition: self.definition@,
                level: FIRST_LEVEL as int,
                next_review: formatted_date(self.next_review@, DATE_PATTERN@),
                attempts: 0,
            }),
    {
        StoreWrite::Insert {
            word: self.word.clone(),
            definition: self.definition.clone(),
            level: FIRST_LEVEL,
            next_review: self.next_review.to_text(),
            attempts: 0,
        }
    }
}

/// Whether `r` is the record for a new card with the given word and
/// definition, made on day `today`: due the day after, and missing where no
/// day comes after.
pub open spec fn is_new_card_on(
    r: Option<NewCard>,
    word: Seq<char>,
    definition: Seq<char>,
    today: int,
) -> bool {
    match r {
        Some(card) => {
            &&& card.word@ == word
            &&& card.definition@ == definition
            &&& card.next_review@ == today + 1
            &&& representable(today + 1)
        },
        None => !representable(today + 1),
    }
}

/// The card collection.
#[derive(Debug)]
pub struct Leitner {
    selected_index: usize,
    word_index: Vec<String>,
    review_due: Vec<Date>,
    box_level: Vec<u8>,
}

impl View for Leitner {
    type V = LeitnerView;

    closed spec fn view(&self) -> LeitnerView {
        LeitnerView {
            words: Seq::new(self.word_index@.len(), |i: int| self.word_index@[i]@),
            due: Seq::new(self.review_due@.len(), |i: int| self.review_due@[i]@),
            levels: Seq::new(self.box_level@.len(), |i: int| self.box_level@[i] as int),
            cursor: self.selected_index as int,
        }
    }
}

impl Leitner {
    #[verifier::type_invariant]
    spec fn sound(self) -> bool {
        self@.wf()
    }

    /// The collection without cards.
    pub fn empty() -> (r: Leitner)
        ensures
            r@.len() == 0,
            r@.wf(),
            r@.levels_in_range(),
    {
        Leitner {
            selected_index: 0,
            word_index: Vec::new(),
            review_due: Vec::new(),
            box_level: Vec::new(),
        }
    }

    /// Loads the collection from the store's rows, in their order, with the
    /// cursor on the first card.
    ///
    /// A row whose review date could not be read fails the load: the first such
    /// row is reported and no collection is made.
    pub fn new(rows: Vec<CardRow>) -> (r: Result<Leitner, MalformedRow>)
        ensures
            match r {
                Ok(loaded) => {
                    &&& loaded@.wf()
                    &&& loaded@.cursor == 0
                    &&& loaded@.len() == rows@.len()
                    &&& forall|i: int|
                        0 <= i < rows@.len() ==> {
                            &&& (#[trigger] rows@[i]).next_review is Some
                            &&& loaded@.words[i] == rows@[i].word@
                            &&& Some(loaded@.due[i]) == day_of(rows@[i].next_review)
                            &&& loaded@.levels[i] == rows@[i].level
                        }
                },
                Err(e) => {
                    &&& e.row < rows@.len()
                    &&& rows@[e.row as int].next_review is None
                    &&& forall|i: int| 0 <= i < e.row ==> (#[trigger] rows@[i]).next_review is Some
                },
            },
    {
        let ghost loaded_rows = rows@;
        let mut word_index: Vec<String> = Vec::new();
        let mut review_due: Vec<Date> = Vec::new();
        let mut box_level: Vec<u8> = Vec::new();
        for row in it: rows
            invariant
                it.seq() == loaded_rows,
                word_index@.len() == it.index(),
                review_due@.len() == it.index(),
                box_level@.len() == it.index(),
                forall|i: int|
                    0 <= i < it.index() ==> {
                        &&& (#[trigger] loaded_rows[i]).next_review is Some
                        &&& word_index@[i]@ == loaded_rows[i].word@
                        &&& Some(review_due@[i]@) == day_of(loaded_rows[i].next_review)
                        &&& box_level@[i] == loaded_rows[i].level
                    },
        {
            let CardRow { word, next_review, level } = row;
            match next_review {
                Some(date) => {
                    word_index.push(word);
                    review_due.push(date);
                    box_level.push(level);
                },
                None => {
                    return Err(MalformedRow { row: word_index.len() });
                },
            }
        }
        Ok(Leitner { selected_index: 0, word_index, review_due, box_level })
    }

    /// Decides the review of the selected card on day `today`.
    ///
    /// `next_review`, `level` and `attempts` are what the store holds of the
    /// card; `next_review` is `None` where the stored text is no date. Nothing
    /// changes in memory: see [`Leitner::apply`].
    pub fn review_on(
        &self,
        success: bool,
        next_review: Option<Date>,
        level: u8,
        attempts: u8,
        today: Date,
    ) -> (r: Result<ReviewStep, ReviewError>)
        ensures
            review_view(r) == self@.review_result(
                success,
                day_of(next_review),
                level as int,
                attempts as int,
                today@,
            ),
    {
        proof {
            use_type_invariant(self);
        }
        if self.selected_index >= self.word_index.len() {
            return Err(ReviewError::NoCard);
        }
        let due = match next_review {
            Some(due) => due,
            None => {
                return Err(ReviewError::MalformedDate);
            },
        };
        match decide(due, level, attempts, today, success) {
            Ok(outcome) => Ok(ReviewStep { position: self.selected_index, outcome }),
            Err(e) => Err(e),
        }
    }

    /// Decides the review of the selected card today, from the review date as
    /// the store holds it in text.
    pub fn review(&self, success: bool, next_review: &str, level: u8, attempts: u8) -> (r: Result<
        ReviewStep,
        ReviewError,
    >)
        ensures
            exists|today: int|
                representable(today) && review_view(r) == #[trigger] self@.review_result(
                    success,
                    parsed_day_number(next_review@, DATE_PATTERN@),
                    level as int,
                    attempts as int,
                    today,
                ),
    {
        self.review_on(success, Date::parse(next_review), level, attempts, Date::today())
    }

    /// Takes a decided review over into memory, once its write has been made.
    ///
    /// With `persisted` false the store has refused the write, and memory stays
    /// as it is. A step that was decided for another position than the cursor's
    /// is dropped in the same way. The result says whether the step was taken.
    pub fn apply(&mut self, step: ReviewStep, persisted: bool) -> (applied: bool)
        ensures
            applied == (persisted && old(self)@.len() > 0 && step@.position == old(self)@.cursor),
            final(self)@ == (if applied {
                old(self)@.after(step@.outcome)
            } else {
                old(self)@
            }),
            final(self)@.wf(),
            old(self)@.levels_in_range() ==> final(self)@.levels_in_range(),
    {
        proof {
            use_type_invariant(&*self);
            use_type_invariant(&step);
        }
        let position: usize = self.selected_index;
        if !persisted || position >= self.word_index.len() || step.position != position {
            return false;
        }
        match step.outcome {
            Outcome::NotDue => {},
            Outcome::Mastered => {
                let mut taken = Leitner::empty();
                std::mem::swap(self, &mut taken);
                let Leitner { selected_index: _, mut word_index, mut review_due, mut box_level } =
                    taken;
                word_index.remove(position);
                review_due.remove(position);
                box_level.remove(position);
                let left: usize = word_index.len();
                let selected_index: usize = if left == 0 {
                    0
                } else if position >= left {
                    left - 1
                } else {
                    position
                };
                *self = Leitner { selected_index, word_index, review_due, box_level };
            },
            Outcome::Rescheduled { level, next_review, attempts: _ } => {
                self.review_due[position] = next_review;
                self.box_level[position] = level;
            },
        }
        true
    }

    /// Moves the cursor forward to the first card that is due on day `today`.
    ///
    /// The search starts at the selected card and does not wrap around: where
    /// no card from the cursor on is due, the cursor ends on the last card.
    pub fn advance_to_due(&mut self, today: Date)
        ensures
            final(self)@ == old(self)@.advanced(today@),
            final(self)@.wf(),
    {
        proof {
            use_type_invariant(&*self);
        }
        let count: usize = self.review_due.len();
        if count == 0 {
            return;
        }
        let limit: i32 = today.days();
        let mut stop: usize = self.selected_index;
        while stop < count - 1 && self.review_due[stop].days() > limit
            invariant
                count == self.review_due@.len() == self@.len(),
                self.selected_index <= stop < count,
                limit == today@,
                self@ == old(self)@,
                self@.due_stop_from(limit as int, self.selected_index as int)
                    == self@.due_stop_from(limit as int, stop as int),
            decreases count - stop,
        {
            stop = stop + 1;
        }
        self.selected_index = stop;
    }

    /// Moves the cursor forward to the first card that is due today.
    pub fn next(&mut self)
        ensures
            exists|today: int|
                representable(today) && final(self)@ == #[trigger] old(self)@.advanced(today),
            final(self)@.wf(),
    {
        self.advance_to_due(Date::today());
    }

    /// Moves the cursor by `i` positions, and no further than the first and the
    /// last card. Nothing moves in an empty collection.
    pub fn update_index_by(&mut self, i: i32)
        ensures
            final(self)@ == old(self)@.moved_by(i as int),
            final(self)@.wf(),
    {
        proof {
            use_type_invariant(&*self);
        }
        self.selected_index = shift_index(self.selected_index, i, self.word_index.len());
    }

    /// The record for a new card that is first reviewed the day after `today`;
    /// `None` where `today` is the latest date.
    pub fn new_card_on(word: &str, definition: &str, today: Date) -> (r: Option<NewCard>)
        ensures
            is_new_card_on(r, word@, definition@, today@),
    {
        match today.plus_days(1) {
            Some(next_review) => Some(
                NewCard { word: word.to_owned(), definition: definition.to_owned(), next_review },
            ),
            None => None,
        }
    }

    /// The record for a new card that is first reviewed tomorrow.
    pub fn new_card(word: &str, definition: &str) -> (r: Option<NewCard>)
        ensures
            exists|today: int|
                representable(today) && #[trigger] is_new_card_on(r, word@, definition@, today),
    {
        Leitner::new_card_on(word, definition, Date::today())
    }

    /// Appends a new card, once the store has taken its record.
    ///
    /// With `persisted` false the store has refused the record, and memory
    /// stays as it is.
    pub fn add(&mut self, card: NewCard, persisted: bool)
        ensures
            final(self)@ == (if persisted {
                old(self)@.with_card(card.word@, card.next_review@)
            } else {
                old(self)@
            }),
            final(self)@.wf(),
            old(self)@.levels_in_range() ==> final(self)@.levels_in_range(),
    {
        proof {
            use_type_invariant(&*self);
        }
        if !persisted {
            return;
        }
        let mut taken = Leitner::empty();
        std::mem::swap(self, &mut taken);
        let Leitner { selected_index, mut word_index, mut review_due, mut box_level } = taken;
        word_index.push(card.word);
        review_due.push(card.next_review);
        box_level.push(FIRST_LEVEL);
        *self = Leitner { selected_index, word_index, review_due, box_level };
    }

    /// The store's identity of the card at `position`: the position counted
    /// from 1. `None` for the one position whose identity is no `u64`.
    pub fn identity_of(position: usize) -> (identity: Option<u64>)
        ensures
            match identity {
                Some(identity) => identity_at(position as int) == Some(identity as int),
                None => identity_at(position as int) is None,
            },
    {
        (position as u64).checked_add(1)
    }

    /// The store's identity of the selected card; `None` in an empty collection.
    pub fn selected_identity(&self) -> (identity: Option<u64>)
        ensures
            match identity {
                Some(identity) => self@.len() > 0 && identity == LeitnerView::identity(
                    self@.cursor,
                ),
                None => self@.len() == 0,
            },
    {
        proof {
            use_type_invariant(self);
        }
        if self.selected_index < self.word_index.len() {
            Some(self.selected_index as u64 + 1)
        } else {
            None
        }
    }

    /// The definition to show for what the store holds under a card's identity.
    ///
    /// `found` is the stored definition, or `None` where the store has no
    /// record of that identity.
    pub fn get_definition(found: Option<&str>) -> (shown: String)
        ensures
            shown@ == shown_definition(found_text(found)),
    {
        show_definition(found)
    }

    /// The position of the selected card; 0 in an empty collection.
    pub fn selected_index(&self) -> (cursor: usize)
        ensures
            cursor == self@.cursor,
            self@.cursor_in_range(),
    {
        proof {
            use_type_invariant(self);
        }
        self.selected_index
    }

    /// The number of cards.
    pub fn len(&self) -> (count: usize)
        ensures
            count == self@.len(),
    {
        self.word_index.len()
    }

    /// Whether the collection holds no card.
    pub fn is_empty(&self) -> (empty: bool)
        ensures
            empty == (self@.len() == 0),
    {
        self.word_index.len() == 0
    }

    /// The word of each card, by position.
    pub fn word_index(&self) -> (words: &Vec<String>)
        ensures
            self@.wf(),
            words@.len() == self@.words.len(),
            forall|i: int| 0 <= i < words@.len() ==> (#[trigger] words@[i])@ == self@.words[i],
    {
        proof {
            use_type_invariant(self);
        }
        &self.word_index
    }

    /// The next review date of each card, by position.
    pub fn review_due(&self) -> (dates: &Vec<Date>)
        ensures
            self@.wf(),
            dates@.len() == self@.due.len(),
            forall|i: int| 0 <= i < dates@.len() ==> (#[trigger] dates@[i])@ == self@.due[i],
    {
        proof {
            use_type_invariant(self);
        }
        &self.review_due
    }

    /// The box of each card, by position.
    pub fn box_level(&self) -> (levels: &Vec<u8>)
        ensures
            self@.wf(),
            levels@.len() == self@.levels.len(),
            forall|i: int| 0 <= i < levels@.len() ==> #[trigger] levels@[i] == self@.levels[i],
    {
        proof {
            use_type_invariant(self);
        }
        &self.box_level
    }
}

/// A search for a due card ends between the position it starts at and the last
/// card, on a due card or on the last card, and passes no due card.
pub proof fn lemma_due_stop_is_first_due(deck: LeitnerView, today: int, from: int)
    requires
        deck.aligned(),
        0 <= from < deck.len(),
    ensures
        deck.with_cursor(from).is_due_stop(today, deck.due_stop_from(today, from)),
    decreases deck.len() - from,
{
    if from + 1 < deck.len() && deck.due[from] > today {
        lemma_due_stop_is_first_due(deck, today, from + 1);
        let stop = deck.due_stop_from(today, from + 1);
        assert forall|i: int| from <= i < stop implies #[trigger] deck.due[i] > today by {
            if i > from {
                assert(deck.with_cursor(from + 1).due[i] > today);
            }
        }
    }
}

/// Each change keeps the three sequences at one length and the cursor on a
/// card: adding a card, reviewing the selected card, moving the cursor by an
/// offset and moving it on to a due card.
pub proof fn lemma_collection_stays_aligned(deck: LeitnerView, change: Change)
    requires
        deck.wf(),
    ensures
        deck.changed(change).wf(),
{
    if let Change::Advanced { today } = change {
        if deck.len() > 0 {
            lemma_due_stop_is_first_due(deck, today, deck.cursor);
        }
    }
}

/// Whatever changes are made one after the other, the three sequences stay at
/// one length and the cursor stays on a card. Where every card was in one of
/// the five boxes before, every card is so after.
pub proof fn lemma_every_history_is_aligned(start: LeitnerView, changes: Seq<Change>)
    requires
        start.wf(),
    ensures
        start.after_all(changes).wf(),
        start.levels_in_range() ==> start.after_all(changes).levels_in_range(),
    decreases changes.len(),
{
    if changes.len() > 0 {
        let before = start.after_all(changes.drop_last());
        lemma_every_history_is_aligned(start, changes.drop_last());
        lemma_collection_stays_aligned(before, changes.last());
        if start.levels_in_range() {
            lemma_levels_in_range_are_kept(before, changes.last());
        }
    }
}

/// A review is decided for the selected card, and what it writes goes to the
/// store's record of that card: the one whose identity is the cursor's position
/// counted from 1. A new card is appended at the position after the last.
pub proof fn lemma_review_writes_to_the_selected_record(
    deck: LeitnerView,
    success: bool,
    due: Option<int>,
    level: int,
    attempts: int,
    today: int,
    word: Seq<char>,
    first_review: int,
)
    requires
        deck.wf(),
    ensures
        deck.review_result(success, due, level, attempts, today) matches Ok(step) ==> {
            &&& step.position == deck.cursor
            &&& step.write() matches StoreWriteView::Update { identity, .. } ==> identity
                == deck.cursor + 1
            &&& step.write() matches StoreWriteView::Delete { identity } ==> identity
                == deck.cursor + 1
            &&& !(step.write() is Insert)
        },
        deck.with_card(word, first_review).len() == deck.len() + 1,
        deck.with_card(word, first_review).words[deck.len() as int] == word,
        deck.with_card(word, first_review).due[deck.len() as int] == first_review,
        deck.with_card(word, first_review).levels[deck.len() as int] == FIRST_LEVEL,
{
}

/// A review of a card whose stored review date lies after the day of the
/// review changes nothing in the collection.
pub proof fn lemma_review_before_due_date_changes_nothing(
    deck: LeitnerView,
    success: bool,
    due: int,
    level: int,
    attempts: int,
    today: int,
)
    requires
        due > today,
    ensures
        deck.reviewed(success, Some(due), level, attempts, today) == deck,
{
}

/// Where every card is in one of the five boxes, every card is so after a
/// change: a new card starts in the first box, and a review leaves the card in
/// one of the five or removes it, whatever the store held of it.
pub proof fn lemma_levels_in_range_are_kept(deck: LeitnerView, change: Change)
    requires
        deck.wf(),
        deck.levels_in_range(),
    ensures
        deck.changed(change).levels_in_range(),
{
}

/// Moving the cursor leaves it on a card: at the first card where the move
/// would pass it, at the last where it would pass that. In an empty
/// collection nothing moves.
pub proof fn lemma_moved_cursor_stays_on_a_card(deck: LeitnerView, delta: int)
    requires
        deck.wf(),
    ensures
        deck.len() == 0 ==> deck.moved_by(delta) == deck,
        deck.len() > 0 ==> 0 <= deck.moved_by(delta).cursor <= deck.len() - 1,
        deck.len() > 0 && deck.cursor + delta >= deck.len() ==> deck.moved_by(delta).cursor
            == deck.len() - 1,
        deck.len() > 0 && deck.cursor + delta <= 0 ==> deck.moved_by(delta).cursor == 0,
{
}

/// A search for a due card ends at one position only.
pub proof fn lemma_due_stop_is_unique(deck: LeitnerView, today: int, first: int, second: int)
    requires
        deck.is_due_stop(today, first),
        deck.is_due_stop(today, second),
    ensures
        first == second,
{
}

} // verus!
