//! Short labels for a card's box and review date.

use crate::date::{iso_week_of, representable, weekday_name_of, Date};
use crate::schedule::is_level;
use vstd::prelude::*;

verus! {

/// The five-star label of box `level`: as many filled stars as the box's
/// number, then empty ones; five empty stars for what is no box.
pub open spec fn box_symbol(level: int) -> Seq<char> {
    Seq::new(
        5,
        |i: int|
            if is_level(level) && i < level {
                '\u{2605}'
            } else {
                '\u{2606}'
            },
    )
}

/// The five-star label of box `box_num`.
pub fn get_box_symbol(box_num: u8) -> (symbol: String)
    ensures
        symbol@ == box_symbol(box_num as int),
{
    let symbol: &str = match box_num {
        1 => "★☆☆☆☆",
        2 => "★★☆☆☆",
        3 => "★★★☆☆",
        4 => "★★★★☆",
        5 => "★★★★★",
        _ => "☆☆☆☆☆",
    };
    proof {
        reveal_strlit("★☆☆☆☆");
        reveal_strlit("★★☆☆☆");
        reveal_strlit("★★★☆☆");
        reveal_strlit("★★★★☆");
        reveal_strlit("★★★★★");
        reveal_strlit("☆☆☆☆☆");
    }
    symbol.to_owned()
}

/// The label of a review that is `days` days away, for the distances that
/// are counted out: eight to ten days.
pub open spec fn in_days_label(days: int) -> Seq<char> {
    if days == 8 {
        "In 8 days"@
    } else if days == 9 {
        "In 9 days"@
    } else {
        "In 10 days"@
    }
}

/// The label of a review date, seen from `today`.
///
/// Nothing for a date that has passed; the day itself and the day after by
/// name; the weekday's name for a later day of today's week; then the coming
/// seven days, the days counted out up to ten, and nothing beyond.
pub open spec fn relative_label(
    date: int,
    today: int,
    same_week: bool,
    weekday: Seq<char>,
) -> Seq<char> {
    if date < today {
        Seq::empty()
    } else if date == today {
        "Today"@
    } else if date == today + 1 {
        "Tomorrow"@
    } else if same_week {
        weekday
    } else if date - today <= 7 {
        "Next week"@
    } else if date - today <= 10 {
        in_days_label(date - today)
    } else {
        Seq::empty()
    }
}

/// The label of the review date `date`, seen from `today`, given whether both
/// lie in one week and the name of `date`'s weekday.
pub fn label_relative_date(date: Date, today: Date, same_week: bool, weekday: &str) -> (label:
    String)
    ensures
        label@ == relative_label(date@, today@, same_week, weekday@),
{
    let ahead: i64 = date.days() as i64 - today.days() as i64;
    let label: &str = if ahead < 0 {
        ""
    } else if ahead == 0 {
        "Today"
    } else if ahead == 1 {
        "Tomorrow"
    } else if same_week {
        weekday
    } else if ahead <= 7 {
        "Next week"
    } else if ahead == 8 {
        "In 8 days"
    } else if ahead == 9 {
        "In 9 days"
    } else if ahead == 10 {
        "In 10 days"
    } else {
        ""
    };
    proof {
        reveal_strlit("");
    }
    label.to_owned()
}

/// The label of a review date, seen from `today`, with the week and the
/// weekday as the calendar gives them.
pub open spec fn calendar_label(date: int, today: int) -> Seq<char> {
    relative_label(date, today, iso_week_of(date) == iso_week_of(today), weekday_name_of(date))
}

/// The label of the review date `date`, seen from `today`.
pub fn relative_date(date: Date, today: Date) -> (label: String)
    ensures
        label@ == calendar_label(date@, today@),
{
    let date_week = date.iso_week();
    let today_week = today.iso_week();
    let same_week = date_week.0 == today_week.0 && date_week.1 == today_week.1;
    let weekday = date.weekday_name();
    label_relative_date(date, today, same_week, weekday.as_str())
}

/// The label of the review date `date`, seen from today.
pub fn get_relative_date(date: Date) -> (label: String)
    ensures
        exists|today: int|
            representable(today) && label@ == #[trigger] calendar_label(date@, today),
{
    let today = Date::today();
    let label = relative_date(date, today);
    label
}

} // verus!
