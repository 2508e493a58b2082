//! How far what is shown is scrolled: a text in a framed area, a bar of names.

use vstd::prelude::*;
use vstd::string::StringSliceAdditionalSpecFns;

verus! {

/// The byte that ends a line.
pub const LINE_FEED: u8 = 10;

/// The byte that may stand before a line feed and then belongs to the line's end.
pub const CARRIAGE_RETURN: u8 = 13;

/// The number of rows that a line of `len` bytes takes in an area `usable`
/// bytes wide: the line's length divided by the width, rounded up.
pub open spec fn rows_of(len: int, usable: int) -> int {
    if len % usable == 0 {
        len / usable
    } else {
        len / usable + 1
    }
}

/// The length of what follows the last line feed in `bytes`: the line that is
/// not ended yet.
pub open spec fn open_len(bytes: Seq<u8>) -> int
    decreases bytes.len(),
{
    if bytes.len() == 0 {
        0
    } else if bytes.last() == LINE_FEED {
        0
    } else {
        open_len(bytes.drop_last()) + 1
    }
}

/// The length of the line that a line feed after `bytes` ends: what follows
/// the last line feed before, without a carriage return at its end.
pub open spec fn ended_len(bytes: Seq<u8>) -> int {
    if open_len(bytes) > 0 && bytes.last() == CARRIAGE_RETURN {
        open_len(bytes) - 1
    } else {
        open_len(bytes)
    }
}

/// The rows that the ended lines of `bytes` take in an area `usable` bytes wide.
pub open spec fn ended_rows(bytes: Seq<u8>, usable: int) -> int
    decreases bytes.len(),
{
    if bytes.len() == 0 {
        0
    } else if bytes.last() == LINE_FEED {
        ended_rows(bytes.drop_last(), usable) + rows_of(ended_len(bytes.drop_last()), usable)
    } else {
        ended_rows(bytes.drop_last(), usable)
    }
}

/// The rows that all lines of `bytes` take in an area `usable` bytes wide.
/// What follows the last line feed counts as a line where it is not empty.
pub open spec fn wrapped_rows(bytes: Seq<u8>, usable: int) -> int {
    ended_rows(bytes, usable) + rows_of(open_len(bytes), usable)
}

/// The furthest that a text of `bytes` scrolls in an area of the given width
/// and height. Two columns of the width go to the frame. The rows count up to
/// `u16::MAX`; half the height of them is always in sight.
pub open spec fn max_scroll(bytes: Seq<u8>, width: int, height: int) -> int {
    let rows = if wrapped_rows(bytes, width - 2) > u16::MAX {
        u16::MAX as int
    } else {
        wrapped_rows(bytes, width - 2)
    };
    if rows < height / 2 {
        0
    } else {
        rows - height / 2
    }
}

/// A line takes no more rows than it has bytes.
proof fn lemma_rows_fit(len: int, usable: int)
    requires
        len >= 0,
        usable >= 1,
    ensures
        0 <= rows_of(len, usable) <= len,
{
    if len % usable != 0 {
        assert(len / usable < len) by (nonlinear_arith)
            requires
                len >= 0,
                usable >= 1,
                len % usable != 0,
        ;
    }
}

/// The rows that a line of `len` bytes takes in an area `usable` bytes wide.
fn line_rows(len: usize, usable: usize) -> (rows: usize)
    requires
        usable >= 1,
    ensures
        rows == rows_of(len as int, usable as int),
        rows <= len,
{
    proof {
        lemma_rows_fit(len as int, usable as int);
    }
    if len % usable == 0 {
        len / usable
    } else {
        len / usable + 1
    }
}

/// The furthest that `content` scrolls in an area of the given width and height.
pub fn calculate_max_scroll(content: &str, area_width: u16, area_height: u16) -> (scroll: u16)
    requires
        area_width > 2,
    ensures
        scroll == max_scroll(content.spec_bytes(), area_width as int, area_height as int),
{
    let bytes = content.as_bytes();
    let usable: usize = (area_width - 2) as usize;
    let mut rows: usize = 0;
    let mut open: usize = 0;
    let mut after_return: bool = false;
    let mut i: usize = 0;
    while i < bytes.len()
        invariant
            i <= bytes@.len(),
            usable >= 1,
            rows == ended_rows(bytes@.take(i as int), usable as int),
            open == open_len(bytes@.take(i as int)),
            after_return == (i > 0 && bytes@[i - 1] == CARRIAGE_RETURN),
            rows + open <= i,
        decreases bytes.len() - i,
    {
        assert(bytes@.take(i + 1).drop_last() =~= bytes@.take(i as int));
        let byte: u8 = bytes[i];
        if byte == LINE_FEED {
            let ended: usize = if open > 0 && after_return {
                open - 1
            } else {
                open
            };
            rows = rows + line_rows(ended, usable);
            open = 0;
        } else {
            open = open + 1;
        }
        after_return = byte == CARRIAGE_RETURN;
        i = i + 1;
    }
    assert(bytes@.take(i as int) =~= bytes@);
    let total: usize = rows + line_rows(open, usable);
    let capped: u16 = if total > u16::MAX as usize {
        u16::MAX
    } else {
        total as u16
    };
    let half: u16 = area_height / 2;
    if capped < half {
        0
    } else {
        capped - half
    }
}

/// The width of the first `count` names of a bar, each followed by one blank.
pub open spec fn bar_width(lengths: Seq<usize>, count: int) -> int
    decreases count,
{
    if count <= 0 {
        0
    } else {
        bar_width(lengths, count - 1) + lengths[count - 1] + 1
    }
}

/// How far a bar of names is scrolled to show the name `selected` in a view
/// `viewport` wide. A bar that fits is not scrolled. Otherwise the selected
/// name is brought to the middle of the view, as far as the bar's start allows.
pub open spec fn bar_scroll(lengths: Seq<usize>, selected: int, viewport: int) -> int {
    let room = viewport - (lengths[selected] + 1);
    let lead = if room > 0 {
        room / 2
    } else {
        0
    };
    if viewport >= bar_width(lengths, lengths.len() as int) {
        0
    } else if bar_width(lengths, selected) > lead {
        bar_width(lengths, selected) - lead
    } else {
        0
    }
}

/// The width of `count` names is below `count` times the largest width of one.
proof fn lemma_bar_width_bounded(lengths: Seq<usize>, count: int)
    requires
        0 <= count <= lengths.len(),
    ensures
        0 <= bar_width(lengths, count) <= count * (usize::MAX + 1),
    decreases count,
{
    if count > 0 {
        lemma_bar_width_bounded(lengths, count - 1);
        assert(count * (usize::MAX + 1) == (count - 1) * (usize::MAX + 1) + (usize::MAX + 1))
            by (nonlinear_arith);
    }
}

/// The width of the first `count` names of a bar.
fn width_of(lengths: &Vec<usize>, count: usize) -> (width: u128)
    requires
        count <= lengths@.len(),
    ensures
        width == bar_width(lengths@, count as int),
{
    let mut width: u128 = 0;
    let mut i: usize = 0;
    while i < count
        invariant
            i <= count <= lengths@.len(),
            width == bar_width(lengths@, i as int),
        decreases count - i,
    {
        proof {
            lemma_bar_width_bounded(lengths@, i as int);
            let most = usize::MAX as int;
            assert(i * (most + 1) + most + 1 <= most * (most + 1)) by (nonlinear_arith)
                requires
                    0 <= i < most,
            ;
            assert(most * (most + 1) <= 0xffff_ffff_ffff_ffff * 0x1_0000_0000_0000_0000)
                by (nonlinear_arith)
                requires
                    0 <= most <= 0xffff_ffff_ffff_ffff,
            ;
        }
        width = width + lengths[i] as u128 + 1;
        i = i + 1;
    }
    width
}

/// How far a bar of names with the given lengths is scrolled to show the name
/// `selected` in a view `viewport` wide, in the sixteen bits that a scroll offset has.
pub fn scroll_bar_to(lengths: &Vec<usize>, selected: usize, viewport: usize) -> (scroll: u16)
    requires
        selected < lengths@.len(),
    ensures
        scroll == bar_scroll(lengths@, selected as int, viewport as int) % 0x1_0000,
{
    let total: u128 = width_of(lengths, lengths.len());
    if viewport as u128 >= total {
        return 0;
    }
    let name: u128 = lengths[selected] as u128 + 1;
    let lead: u128 = if viewport as u128 > name {
        (viewport as u128 - name) / 2
    } else {
        0
    };
    let before: u128 = width_of(lengths, selected);
    let scroll: u128 = if before > lead {
        before - lead
    } else {
        0
    };
    (scroll % 0x1_0000) as u16
}

} // verus!
