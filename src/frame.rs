use vstd::prelude::*;
use vstd::string::*;

use crate::geometry::{heart_contains, spec_heart_contains};
use crate::options::{heart_sizes, spec_heart_sizes, Options};

verus! {

/// Columns kept free between the screen's midline and the heart, beyond its half size.
pub const INDENT_MARGIN: i32 = 10;

/// One row of a frame: the blank columns before the heart, the heart's
/// cells with any embedded message, and whether the heart has scrolled
/// off the screen.
pub struct Row {
    pub indent: usize,
    pub cells: String,
    pub finished: bool,
}

/// The two characters drawn for one cell.
pub open spec fn glyph(inside: bool) -> Seq<char> {
    if inside {
        "vv"@
    } else {
        "  "@
    }
}

/// The message as it is embedded: padded by one space on each side, or
/// nothing at all when there is no message.
pub open spec fn padded_message(message: Option<String>) -> Seq<char> {
    match message {
        Some(s) => seq![' '] + s@ + seq![' '],
        None => Seq::empty(),
    }
}

/// The column after whose cell the padded message `msg` is embedded.
pub open spec fn message_column(half: int, msg: Seq<char>) -> int {
    half - msg.len() as int / 4 - 1
}

/// Whether the padded message is embedded after cell `x` of row `y`.
pub open spec fn embeds_at(x: int, y: int, half: int, msg: Seq<char>) -> bool {
    y == half - 1 && x == message_column(half, msg)
}

/// The cell text of row `y`, from column `x` on: each column's glyph, the
/// message after the message column of the midline row (which then skips
/// half the message's length in columns), up to column `size`.
pub open spec fn row_cells_from(x: int, y: int, size: int, half: int, msg: Seq<char>) -> Seq<char>
    decreases size - x,
{
    let cell = glyph(spec_heart_contains(x, y, size));
    let shown = if embeds_at(x, y, half, msg) {
        cell + msg
    } else {
        cell
    };
    let last = if embeds_at(x, y, half, msg) {
        x + msg.len() as int / 2
    } else {
        x
    };
    if last >= size {
        shown
    } else {
        shown + row_cells_from(last + 1, y, size, half, msg)
    }
}

/// Blank columns before the heart on a screen `cols` wide; none where the
/// formula goes negative.
pub open spec fn spec_indent(cols: int, half: int) -> int {
    let i = cols / 2 - half - INDENT_MARGIN;
    if i < 0 {
        0
    } else {
        i
    }
}

/// The message padded by a space on each side, or empty without a message.
fn padded(message: &Option<String>) -> (r: String)
    ensures
        r@ == padded_message(*message),
{
    proof {
        reveal_strlit(" ");
        reveal_strlit("");
    }
    match message {
        Some(s) => {
            let mut r = String::from_str(" ");
            r.append(s.as_str());
            r.append(" ");
            r
        },
        None => String::from_str(""),
    }
}

/// Row `y` of the animation on a screen of `cols` columns and `rows` rows.
pub fn draw_love_row_with_message(y: i32, options: &Options, cols: u16, rows: u16) -> (r: Row)
    ensures
        ({
            let (size, half) = spec_heart_sizes(options.petite);
            &&& r.indent == spec_indent(cols as int, half as int)
            &&& r.cells@ == row_cells_from(
                0,
                y as int,
                size as int,
                half as int,
                padded_message(options.message),
            )
            &&& r.finished == (y >= rows + size)
        }),
{
    let (heart_size, half_size) = heart_sizes(options);
    let message = padded(&options.message);
    let len = message.unicode_len();
    let size = heart_size as i64;
    let half = half_size as i64;
    let message_indent: i64 = half - (len / 4) as i64 - 1;
    let skip: i64 = (len / 2) as i64;
    let ghost msg = message@;

    let raw_indent: i32 = (cols as i32) / 2 - half_size - INDENT_MARGIN;
    let indent: usize = if raw_indent < 0 {
        0
    } else {
        raw_indent as usize
    };

    proof {
        reveal_strlit("vv");
        reveal_strlit("  ");
        reveal_strlit("");
    }
    let mut cells = String::from_str("");
    let mut x: i64 = 0;
    loop
        invariant_except_break
            cells@ + row_cells_from(x as int, y as int, size as int, half as int, msg)
                == row_cells_from(0, y as int, size as int, half as int, msg),
        invariant
            0 <= x <= size,
            size == heart_size,
            half == half_size,
            (heart_size, half_size) == spec_heart_sizes(options.petite),
            msg == message@,
            msg == padded_message(options.message),
            len == msg.len(),
            message_indent == message_column(half as int, msg),
            skip == msg.len() as int / 2,
        ensures
            cells@ == row_cells_from(0, y as int, size as int, half as int, msg),
        decreases size - x,
    {
        let ghost x0 = x;
        let ghost before = cells@;
        if heart_contains(x as i32, y, heart_size) {
            cells.append("vv");
        } else {
            cells.append("  ");
        }
        if y as i64 == half - 1 && x == message_indent {
            cells.append(message.as_str());
            x = x + skip;
        }
        assert(cells@ =~= before + (if embeds_at(x0 as int, y as int, half as int, msg) {
            glyph(spec_heart_contains(x0 as int, y as int, size as int)) + msg
        } else {
            glyph(spec_heart_contains(x0 as int, y as int, size as int))
        }));
        if x >= size {
            assert(cells@ =~= row_cells_from(0, y as int, size as int, half as int, msg));
            break;
        }
        x = x + 1;
        assert(cells@ + row_cells_from(x as int, y as int, size as int, half as int, msg)
            =~= before + row_cells_from(x0 as int, y as int, size as int, half as int, msg));
    }

    let finished = y >= rows as i32 + heart_size;
    Row { indent, cells, finished }
}

} // verus!
