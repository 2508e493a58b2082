use dicrs::date::{Date, MAX_DAYS};
use dicrs::leitner::{CardRow, Leitner, MalformedRow, NewCard, StoreWrite};
use dicrs::text::NOT_FOUND;
use dicrs::schedule::{Outcome, ReviewError};

const TODAY: i32 = 738_951;

fn date_of(days: i32) -> Date {
    Date::from_days(days).unwrap()
}

fn row(word: &str, due: i32, level: u8) -> CardRow {
    CardRow { word: word.to_string(), next_review: Some(date_of(due)), level }
}

fn load(rows: Vec<CardRow>) -> Leitner {
    Leitner::new(rows).unwrap()
}

fn words(deck: &Leitner) -> Vec<&str> {
    deck.word_index().iter().map(|word| word.as_str()).collect()
}

fn due_days(deck: &Leitner) -> Vec<i32> {
    deck.review_due().iter().map(|date| date.days()).collect()
}

fn three_cards() -> Leitner {
    load(vec![row("ant", TODAY + 3, 1), row("bee", TODAY, 3), row("cat", TODAY - 2, 5)])
}

fn assert_aligned(deck: &Leitner) {
    assert_eq!(deck.word_index().len(), deck.len());
    assert_eq!(deck.review_due().len(), deck.len());
    assert_eq!(deck.box_level().len(), deck.len());
    if deck.is_empty() {
        assert_eq!(deck.selected_index(), 0);
    } else {
        assert!(deck.selected_index() < deck.len());
    }
}

#[test]
fn empty_collection_has_no_card_and_the_cursor_at_zero() {
    let deck = Leitner::empty();
    assert!(deck.is_empty());
    assert_eq!(deck.len(), 0);
    assert_eq!(deck.selected_index(), 0);
    assert_eq!(deck.selected_identity(), None);
    assert_aligned(&deck);
}

#[test]
fn load_keeps_the_rows_in_order_with_the_cursor_on_the_first() {
    let deck = three_cards();
    assert_eq!(deck.len(), 3);
    assert_eq!(deck.selected_index(), 0);
    assert_eq!(words(&deck), ["ant", "bee", "cat"]);
    assert_eq!(due_days(&deck), [TODAY + 3, TODAY, TODAY - 2]);
    assert_eq!(deck.box_level(), &[1, 3, 5]);
    assert_aligned(&deck);
}

#[test]
fn load_of_no_rows_is_the_empty_collection() {
    let deck = load(Vec::new());
    assert!(deck.is_empty());
    assert_eq!(deck.selected_index(), 0);
}

#[test]
fn load_keeps_a_stored_box_as_it_is() {
    let deck = load(vec![row("odd", TODAY, 0), row("big", TODAY, 9)]);
    assert_eq!(deck.box_level(), &[0, 9]);
}

#[test]
fn load_fails_on_the_first_row_without_a_date() {
    let rows = vec![
        row("ant", TODAY, 1),
        CardRow { word: "bee".to_string(), next_review: None, level: 2 },
        row("cat", TODAY, 3),
        CardRow { word: "dog".to_string(), next_review: None, level: 4 },
    ];
    assert_eq!(Leitner::new(rows).unwrap_err(), MalformedRow { row: 1 });
    let rows = vec![CardRow { word: "ant".to_string(), next_review: None, level: 1 }];
    assert_eq!(Leitner::new(rows).unwrap_err(), MalformedRow { row: 0 });
}

#[test]
fn row_is_parsed_from_the_stored_text() {
    let parsed = CardRow::parse("ant".to_string(), "2024-03-06", 2);
    assert_eq!(parsed, row("ant", TODAY, 2));
    let broken = CardRow::parse("bee".to_string(), "06.03.2024", 3);
    assert_eq!(broken, CardRow { word: "bee".to_string(), next_review: None, level: 3 });
    assert_eq!(Leitner::new(vec![parsed, broken]).unwrap_err(), MalformedRow { row: 1 });
}

#[test]
fn add_to_a_fresh_collection_gives_one_card_in_box_one_due_tomorrow() {
    let mut deck = Leitner::empty();
    let card = Leitner::new_card_on("foo", "bar", date_of(TODAY)).unwrap();
    assert_eq!(card.word, "foo");
    assert_eq!(card.definition, "bar");
    assert_eq!(card.next_review, date_of(TODAY + 1));
    assert_eq!(card.next_review.to_text(), "2024-03-07");
    assert_eq!(
        card.store_write(),
        StoreWrite::Insert {
            word: "foo".to_string(),
            definition: "bar".to_string(),
            level: 1,
            next_review: "2024-03-07".to_string(),
            attempts: 0,
        }
    );
    deck.add(card, true);
    assert_eq!(deck.len(), 1);
    assert_eq!(words(&deck), ["foo"]);
    assert_eq!(due_days(&deck), [TODAY + 1]);
    assert_eq!(deck.box_level(), &[1]);
    assert_eq!(deck.selected_index(), 0);
    assert_eq!(deck.selected_identity(), Some(1));
    assert_aligned(&deck);
}

#[test]
fn add_appends_at_the_end_and_leaves_the_cursor() {
    let mut deck = three_cards();
    deck.update_index_by(1);
    deck.add(Leitner::new_card_on("dog", "barks", date_of(TODAY)).unwrap(), true);
    assert_eq!(words(&deck), ["ant", "bee", "cat", "dog"]);
    assert_eq!(due_days(&deck), [TODAY + 3, TODAY, TODAY - 2, TODAY + 1]);
    assert_eq!(deck.box_level(), &[1, 3, 5, 1]);
    assert_eq!(deck.selected_index(), 1);
    assert_aligned(&deck);
}

#[test]
fn add_takes_the_same_word_twice() {
    let mut deck = Leitner::empty();
    deck.add(Leitner::new_card_on("foo", "one", date_of(TODAY)).unwrap(), true);
    deck.add(Leitner::new_card_on("foo", "two", date_of(TODAY + 1)).unwrap(), true);
    assert_eq!(words(&deck), ["foo", "foo"]);
    assert_eq!(due_days(&deck), [TODAY + 1, TODAY + 2]);
}

#[test]
fn add_that_was_not_persisted_changes_nothing() {
    let mut deck = three_cards();
    deck.add(Leitner::new_card_on("dog", "barks", date_of(TODAY)).unwrap(), false);
    assert_eq!(words(&deck), ["ant", "bee", "cat"]);
    assert_eq!(deck.len(), 3);
    assert_aligned(&deck);
}

#[test]
fn new_card_has_no_date_after_the_latest() {
    assert_eq!(Leitner::new_card_on("foo", "bar", date_of(MAX_DAYS)), None);
    let card = Leitner::new_card_on("foo", "bar", date_of(MAX_DAYS - 1)).unwrap();
    assert_eq!(card.next_review, date_of(MAX_DAYS));
}

#[test]
fn new_card_is_due_the_day_after_today() {
    let before = Date::today().days();
    let card = Leitner::new_card("foo", "bar").unwrap();
    let after = Date::today().days();
    assert!(before + 1 <= card.next_review.days() && card.next_review.days() <= after + 1);
    assert_eq!(
        card,
        NewCard {
            word: "foo".to_string(),
            definition: "bar".to_string(),
            next_review: card.next_review,
        }
    );
}

#[test]
fn cursor_at_the_last_position_stays_there_when_moved_on() {
    let mut deck = three_cards();
    deck.update_index_by(2);
    assert_eq!(deck.selected_index(), 2);
    deck.update_index_by(5);
    assert_eq!(deck.selected_index(), 2);
}

#[test]
fn cursor_moves_by_the_offset_between_the_first_and_the_last_card() {
    let mut deck = three_cards();
    deck.update_index_by(1);
    assert_eq!(deck.selected_index(), 1);
    deck.update_index_by(1);
    assert_eq!(deck.selected_index(), 2);
    deck.update_index_by(-1);
    assert_eq!(deck.selected_index(), 1);
    deck.update_index_by(0);
    assert_eq!(deck.selected_index(), 1);
    deck.update_index_by(-2);
    assert_eq!(deck.selected_index(), 0);
    deck.update_index_by(-1);
    assert_eq!(deck.selected_index(), 0);
    deck.update_index_by(i32::MAX);
    assert_eq!(deck.selected_index(), 2);
    deck.update_index_by(i32::MIN);
    assert_eq!(deck.selected_index(), 0);
    assert_eq!(words(&deck), ["ant", "bee", "cat"]);
}

#[test]
fn cursor_of_an_empty_collection_does_not_move() {
    let mut deck = Leitner::empty();
    for offset in [-5, -1, 0, 1, 5, i32::MAX, i32::MIN] {
        deck.update_index_by(offset);
        assert_eq!(deck.selected_index(), 0);
        assert!(deck.is_empty());
    }
}

#[test]
fn advance_stops_at_the_first_due_card() {
    let mut deck = load(vec![
        row("ant", TODAY + 3, 1),
        row("bee", TODAY + 1, 1),
        row("cat", TODAY, 1),
        row("dog", TODAY - 1, 1),
    ]);
    deck.advance_to_due(date_of(TODAY));
    assert_eq!(deck.selected_index(), 2);
    deck.advance_to_due(date_of(TODAY));
    assert_eq!(deck.selected_index(), 2);
    assert_eq!(words(&deck), ["ant", "bee", "cat", "dog"]);
}

#[test]
fn advance_stays_on_a_card_that_is_due() {
    let mut deck = load(vec![row("ant", TODAY - 1, 1), row("bee", TODAY - 5, 1)]);
    deck.advance_to_due(date_of(TODAY));
    assert_eq!(deck.selected_index(), 0);
}

#[test]
fn advance_ends_on_the_last_card_where_none_is_due() {
    let mut deck =
        load(vec![row("ant", TODAY + 3, 1), row("bee", TODAY + 1, 1), row("cat", TODAY + 9, 1)]);
    deck.advance_to_due(date_of(TODAY));
    assert_eq!(deck.selected_index(), 2);
}

#[test]
fn advance_does_not_wrap_around_to_earlier_cards() {
    let mut deck =
        load(vec![row("ant", TODAY - 3, 1), row("bee", TODAY + 1, 1), row("cat", TODAY + 9, 1)]);
    deck.update_index_by(1);
    deck.advance_to_due(date_of(TODAY));
    assert_eq!(deck.selected_index(), 2);
}

#[test]
fn advance_in_an_empty_collection_does_nothing() {
    let mut deck = Leitner::empty();
    deck.advance_to_due(date_of(TODAY));
    assert!(deck.is_empty());
    assert_eq!(deck.selected_index(), 0);
    deck.next();
    assert_eq!(deck.selected_index(), 0);
}

#[test]
fn next_looks_for_a_card_due_today() {
    let today = Date::today().days();
    let mut deck =
        load(vec![row("ant", today + 30, 1), row("bee", today - 30, 1), row("cat", today - 30, 1)]);
    deck.next();
    assert_eq!(deck.selected_index(), 1);
    let mut deck = load(vec![row("ant", today + 30, 1), row("bee", today + 30, 1)]);
    deck.next();
    assert_eq!(deck.selected_index(), 1);
}

#[test]
fn identity_is_the_position_counted_from_one() {
    assert_eq!(Leitner::identity_of(0), Some(1));
    assert_eq!(Leitner::identity_of(1), Some(2));
    assert_eq!(Leitner::identity_of(41), Some(42));
    let mut deck = three_cards();
    assert_eq!(deck.selected_identity(), Some(1));
    deck.update_index_by(2);
    assert_eq!(deck.selected_identity(), Some(3));
}

#[test]
fn identity_of_the_last_position_is_no_number_of_the_store() {
    let last = u64::try_from(usize::MAX).unwrap();
    assert_eq!(Leitner::identity_of(usize::MAX), last.checked_add(1));
    assert_eq!(Leitner::identity_of(usize::MAX - 1), Some(last));
}

#[test]
fn definition_is_shown_with_line_feeds_for_carriage_returns() {
    assert_eq!(Leitner::get_definition(Some("bar")), "bar");
    assert_eq!(Leitner::get_definition(Some("one\rtwo")), "one\ntwo");
    assert_eq!(Leitner::get_definition(Some("one\r\ntwo\r")), "one\n\ntwo\n");
    assert_eq!(Leitner::get_definition(Some("")), "");
}

#[test]
fn definition_that_the_store_lacks_is_shown_as_not_found() {
    assert_eq!(NOT_FOUND, "Not found!");
    assert_eq!(Leitner::get_definition(None), "Not found!");
}

#[test]
fn review_in_an_empty_collection_has_no_card() {
    let deck = Leitner::empty();
    for success in [true, false] {
        assert_eq!(
            deck.review_on(success, Some(date_of(TODAY)), 1, 0, date_of(TODAY)),
            Err(ReviewError::NoCard)
        );
        assert_eq!(deck.review_on(success, None, 9, 0, date_of(TODAY)), Err(ReviewError::NoCard));
        assert_eq!(deck.review(success, "2024-03-06", 1, 0), Err(ReviewError::NoCard));
    }
}

#[test]
fn review_of_a_card_without_a_date_is_refused() {
    let deck = three_cards();
    assert_eq!(deck.review_on(true, None, 1, 0, date_of(TODAY)), Err(ReviewError::MalformedDate));
    assert_eq!(deck.review(false, "soon", 1, 0), Err(ReviewError::MalformedDate));
    assert_eq!(deck.review(false, "", 1, 0), Err(ReviewError::MalformedDate));
}

#[test]
fn review_of_a_card_in_no_box_is_refused() {
    let deck = three_cards();
    for (success, level) in [(true, 0), (false, 6), (true, 255)] {
        assert_eq!(
            deck.review_on(success, Some(date_of(TODAY)), level, 0, date_of(TODAY)),
            Err(ReviewError::LevelOutOfRange)
        );
    }
    assert_eq!(deck.review(true, "0001-01-01", 6, 0), Err(ReviewError::LevelOutOfRange));
}

#[test]
fn review_past_the_latest_date_is_refused() {
    let deck = three_cards();
    assert_eq!(
        deck.review_on(true, Some(date_of(TODAY)), 1, 0, date_of(MAX_DAYS)),
        Err(ReviewError::DateOutOfRange)
    );
}

#[test]
fn review_of_a_card_due_later_changes_nothing() {
    let mut deck = three_cards();
    for success in [true, false] {
        let step = deck.review_on(success, Some(date_of(TODAY + 3)), 1, 0, date_of(TODAY)).unwrap();
        assert_eq!(step.outcome(), Outcome::NotDue);
        assert_eq!(step.position(), 0);
        assert_eq!(step.identity(), 1);
        assert_eq!(step.store_write(), StoreWrite::Nothing);
        assert!(deck.apply(step, true));
        assert_eq!(words(&deck), ["ant", "bee", "cat"]);
        assert_eq!(due_days(&deck), [TODAY + 3, TODAY, TODAY - 2]);
        assert_eq!(deck.box_level(), &[1, 3, 5]);
        assert_eq!(deck.selected_index(), 0);
    }
}

#[test]
fn review_reads_the_stored_date_and_the_clock() {
    let deck = three_cards();
    let today = Date::today();
    let step = deck.review(true, "0001-01-01", 1, 0).unwrap();
    let Outcome::Rescheduled { level, next_review, attempts } = step.outcome() else {
        panic!("a card due since year 1 is reviewed");
    };
    assert_eq!((level, attempts), (2, 0));
    assert!(today.days() + 2 <= next_review.days());
    assert!(next_review.days() <= Date::today().days() + 2);
    let later = deck.review(true, "9999-12-31", 1, 0).unwrap();
    assert_eq!(later.outcome(), Outcome::NotDue);
}

#[test]
fn first_failure_in_box_three_keeps_the_box_and_counts_one_attempt() {
    let mut deck = three_cards();
    deck.update_index_by(1);
    let step = deck.review_on(false, Some(date_of(TODAY)), 3, 0, date_of(TODAY)).unwrap();
    assert_eq!(step.identity(), 2);
    assert_eq!(
        step.outcome(),
        Outcome::Rescheduled { level: 3, next_review: date_of(TODAY + 4), attempts: 1 }
    );
    assert_eq!(
        step.store_write(),
        StoreWrite::Update {
            identity: 2,
            level: 3,
            next_review: "2024-03-10".to_string(),
            attempts: 1,
        }
    );
    assert!(deck.apply(step, true));
    assert_eq!(deck.box_level(), &[1, 3, 5]);
    assert_eq!(due_days(&deck), [TODAY + 3, TODAY + 4, TODAY - 2]);
    assert_eq!(words(&deck), ["ant", "bee", "cat"]);
    assert_eq!(deck.selected_index(), 1);
}

#[test]
fn second_failure_in_box_three_moves_the_card_to_box_two() {
    let mut deck = three_cards();
    deck.update_index_by(1);
    let step = deck.review_on(false, Some(date_of(TODAY)), 3, 1, date_of(TODAY)).unwrap();
    assert_eq!(step.identity(), 2);
    assert_eq!(
        step.outcome(),
        Outcome::Rescheduled { level: 2, next_review: date_of(TODAY + 2), attempts: 0 }
    );
    assert_eq!(
        step.store_write(),
        StoreWrite::Update {
            identity: 2,
            level: 2,
            next_review: "2024-03-08".to_string(),
            attempts: 0,
        }
    );
    assert!(deck.apply(step, true));
    assert_eq!(deck.box_level(), &[1, 2, 5]);
    assert_eq!(due_days(&deck), [TODAY + 3, TODAY + 2, TODAY - 2]);
    assert_eq!(words(&deck), ["ant", "bee", "cat"]);
    assert_eq!(deck.selected_index(), 1);
    assert_aligned(&deck);
}

#[test]
fn success_in_box_five_removes_the_card_everywhere() {
    let mut deck = three_cards();
    deck.update_index_by(2);
    let step = deck.review_on(true, Some(date_of(TODAY)), 5, 0, date_of(TODAY)).unwrap();
    assert_eq!(step.outcome(), Outcome::Mastered);
    assert_eq!(step.position(), 2);
    assert_eq!(step.identity(), 3);
    assert_eq!(step.store_write(), StoreWrite::Delete { identity: 3 });
    assert!(deck.apply(step, true));
    assert_eq!(words(&deck), ["ant", "bee"]);
    assert_eq!(due_days(&deck), [TODAY + 3, TODAY]);
    assert_eq!(deck.box_level(), &[1, 3]);
    assert_eq!(deck.selected_index(), 1);
    assert_aligned(&deck);
}

#[test]
fn removal_before_the_end_leaves_the_cursor_on_the_next_card() {
    let mut deck = three_cards();
    deck.update_index_by(1);
    let step = deck.review_on(true, Some(date_of(TODAY)), 5, 0, date_of(TODAY)).unwrap();
    assert!(deck.apply(step, true));
    assert_eq!(words(&deck), ["ant", "cat"]);
    assert_eq!(due_days(&deck), [TODAY + 3, TODAY - 2]);
    assert_eq!(deck.box_level(), &[1, 5]);
    assert_eq!(deck.selected_index(), 1);
    assert_eq!(deck.selected_identity(), Some(2));
}

#[test]
fn removal_of_the_only_card_leaves_an_empty_collection_with_the_cursor_at_zero() {
    let mut deck = load(vec![row("ant", TODAY, 5)]);
    let step = deck.review_on(true, Some(date_of(TODAY)), 5, 0, date_of(TODAY)).unwrap();
    assert!(deck.apply(step, true));
    assert!(deck.is_empty());
    assert_eq!(deck.selected_index(), 0);
    assert_eq!(deck.selected_identity(), None);
    assert_aligned(&deck);
    deck.update_index_by(1);
    deck.advance_to_due(date_of(TODAY));
    assert_eq!(deck.selected_index(), 0);
}

#[test]
fn step_whose_write_failed_changes_nothing() {
    let mut deck = three_cards();
    deck.update_index_by(2);
    let removal = deck.review_on(true, Some(date_of(TODAY)), 5, 0, date_of(TODAY)).unwrap();
    assert!(!deck.apply(removal, false));
    assert_eq!(words(&deck), ["ant", "bee", "cat"]);
    let change = deck.review_on(false, Some(date_of(TODAY)), 5, 0, date_of(TODAY)).unwrap();
    assert!(!deck.apply(change, false));
    assert_eq!(due_days(&deck), [TODAY + 3, TODAY, TODAY - 2]);
    assert_eq!(deck.box_level(), &[1, 3, 5]);
    assert_eq!(deck.selected_index(), 2);
}

#[test]
fn step_decided_for_another_position_is_dropped() {
    let mut deck = three_cards();
    let step = deck.review_on(true, Some(date_of(TODAY)), 5, 0, date_of(TODAY)).unwrap();
    deck.update_index_by(1);
    assert!(!deck.apply(step, true));
    assert_eq!(words(&deck), ["ant", "bee", "cat"]);
    assert_eq!(deck.selected_index(), 1);
    let mut other = Leitner::empty();
    assert!(!other.apply(step, true));
    assert!(other.is_empty());
}

#[test]
fn sequences_stay_aligned_over_adds_and_reviews() {
    let mut deck = Leitner::empty();
    for (i, word) in ["ant", "bee", "cat", "dog", "eel"].iter().enumerate() {
        deck.add(Leitner::new_card_on(word, "x", date_of(TODAY + i as i32)).unwrap(), true);
        assert_aligned(&deck);
    }
    let mut today = TODAY + 10;
    let mut level = 1;
    while !deck.is_empty() {
        let position = deck.selected_index();
        let stored = deck.review_due()[position];
        let stored_level = deck.box_level()[position];
        let step = deck.review_on(true, Some(stored), stored_level, 0, date_of(today)).unwrap();
        assert_eq!(step.identity(), position as u64 + 1);
        assert!(deck.apply(step, true));
        assert_aligned(&deck);
        assert!(deck.box_level().iter().all(|level| (1..=5).contains(level)));
        level += 1;
        today += 20;
        deck.update_index_by(1);
        assert!(level < 100);
    }
    assert_eq!(deck.selected_index(), 0);
}
