//! The layout engine: arrange a sequence of problems into a numbered
//! two-column page grid and compute each row's text runs and positions.
//!
//! Positions and font sizes are given in tenths of a millimetre so they stay
//! exact integers; the document backend divides by ten.

use vstd::prelude::*;
use vstd::string::*;

use rand::rngs::SmallRng;

use crate::model::op_symbol;
use crate::model::problem_display;
use crate::model::problem_renderable;
use crate::model::problem_result;
use crate::model::Operation;
use crate::model::Problem;
use crate::rng::rng_coin;
use crate::text::dec_digits;
use crate::text::i64_to_string;
use crate::text::int_digits;
use crate::text::pad2;
use crate::text::pad_to_2;
use crate::text::u64_to_string;

verus! {

/// A4 page width, tenths of a millimetre.
pub const PAGE_WIDTH_TENTHS: u32 = 2100;

/// A4 page height, tenths of a millimetre.
pub const PAGE_HEIGHT_TENTHS: u32 = 2970;

/// Body text size, tenths of a unit.
pub const BODY_FONT_TENTHS: u32 = 110;

/// Row index label size: six tenths of the body size.
pub const LABEL_FONT_TENTHS: u32 = 66;

/// A page holds at most this many rows, half per column.
pub const MAX_ROWS: usize = 60;

/// Where a page of `n` rows breaks into its right column: the first half of
/// the sequence fills the left column, the remainder the right one.
pub open spec fn column_break(n: int) -> int {
    n / 2
}

/// Horizontal position of the index label of row `i` on a page of `n` rows:
/// the left column is indented 20mm, the right column 100mm further.
pub open spec fn row_label_x(i: int, n: int) -> int {
    if i < column_break(n) {
        200
    } else {
        1200
    }
}

/// How many of the sectioning gaps (after the sixteenth and the forty-sixth
/// problem of the sequence) lie between the top of a column starting at
/// sequence index `c` and its row at sequence index `i`.
pub open spec fn gap_count(i: int, c: int) -> int {
    (if c <= 15 <= i {
        1int
    } else {
        0int
    }) + (if c <= 45 <= i {
        1int
    } else {
        0int
    })
}

/// Vertical position of row `i` on a page of `n` rows: from the top of the
/// page, stepping down eight tenths of the line height per row, plus one full
/// line of visual gap at each sectioning break the column has passed.
pub open spec fn row_y(i: int, n: int) -> int {
    let b = column_break(n);
    let j = if i < b {
        i
    } else {
        i - b
    };
    let c = if i < b {
        0int
    } else {
        b
    };
    2900 - 88 * (j + 1) - 110 * gap_count(i, c)
}

/// The row's index label, one-based and right-aligned: `"{:>2}."`.
pub open spec fn row_label(i: int) -> Seq<char> {
    pad2(dec_digits((i + 1) as nat)) + "."@
}

/// A plain row statement: `"{:>2} {} {:>2} = _______"`.
pub open spec fn plain_text(p: Problem) -> Seq<char> {
    problem_display(p) + " = _______"@
}

/// A fill-in-the-blank statement hiding the first operand:
/// `"{:>2} = _______ {} {:>2}"`.
pub open spec fn hole_x_text(p: Problem) -> Seq<char> {
    pad2(int_digits(problem_result(p))) + " = _______ "@ + seq![op_symbol(p.operation)] + " "@
        + pad2(dec_digits(p.y as nat))
}

/// A fill-in-the-blank statement hiding the second operand:
/// `"{:>2} = {:>2} {} _______"`.
pub open spec fn hole_y_text(p: Problem) -> Seq<char> {
    pad2(int_digits(problem_result(p))) + " = "@ + pad2(dec_digits(p.x as nat)) + " "@ + seq![
        op_symbol(p.operation),
    ] + " _______"@
}

/// One laid-out row: two text runs and their positions on the page, in tenths
/// of a millimetre from the bottom-left corner.
pub struct Row {
    /// The right-aligned one-based row number, e.g. `" 7."`.
    pub label: String,
    /// The problem statement.
    pub text: String,
    /// Horizontal position of the label.
    pub label_x: u32,
    /// Horizontal position of the statement.
    pub text_x: u32,
    /// Vertical position of the row's baseline.
    pub y: u32,
}

/// The label and both positions of `r` are those of row `i` of a page of `n`
/// rows.
pub open spec fn row_placed(r: Row, i: int, n: int) -> bool {
    &&& r.label@ == row_label(i)
    &&& r.label_x == row_label_x(i, n)
    &&& r.text_x == row_label_x(i, n) + 70
    &&& r.y == row_y(i, n)
}

fn render_plain(p: &Problem) -> (s: String)
    ensures
        s@ == plain_text(*p),
{
    let mut s = p.to_display_string();
    s.append(" = _______");
    s
}

proof fn lemma_result_bounds(p: Problem)
    requires
        problem_renderable(p),
    ensures
        -0xFFFF_FFFF <= problem_result(p) <= i64::MAX,
{
    match p.operation {
        Operation::Addition => {
        },
        Operation::Subtraction => {
        },
        Operation::Multiplication => {
            vstd::arithmetic::mul::lemma_mul_nonnegative(p.x as int, p.y as int);
        },
        Operation::Division => {
            vstd::arithmetic::div_mod::lemma_div_is_ordered_by_denominator(p.x as int, 1, p.y as int);
            vstd::arithmetic::div_mod::lemma_div_pos_is_pos(p.x as int, p.y as int);
        },
    }
}

fn render_hole_x(p: &Problem) -> (s: String)
    requires
        problem_renderable(*p),
    ensures
        s@ == hole_x_text(*p),
{
    proof {
        lemma_result_bounds(*p);
    }
    let result = p.result();
    let mut s = pad_to_2(i64_to_string(result));
    s.append(" = _______ ");
    s.append(p.operation.symbol());
    s.append(" ");
    let right = pad_to_2(u64_to_string(p.y as u64));
    s.append(right.as_str());
    proof {
        assert(s@ =~= hole_x_text(*p));
    }
    s
}

fn render_hole_y(p: &Problem) -> (s: String)
    requires
        problem_renderable(*p),
    ensures
        s@ == hole_y_text(*p),
{
    proof {
        lemma_result_bounds(*p);
    }
    let result = p.result();
    let mut s = pad_to_2(i64_to_string(result));
    s.append(" = ");
    let left = pad_to_2(u64_to_string(p.x as u64));
    s.append(left.as_str());
    s.append(" ");
    s.append(p.operation.symbol());
    s.append(" _______");
    proof {
        assert(s@ =~= hole_y_text(*p));
    }
    s
}

/// Arrange the problems into the page grid: the first half of the sequence
/// fills the left column top to bottom, the remainder the right column, with
/// anything beyond `MAX_ROWS` problems silently truncated. Each row carries a
/// numbered label and the problem statement, plain or — when `with_holes` is
/// set — as a fill-in-the-blank form chosen by an independent per-row coin
/// flip.
pub fn render_rows(problems: &Vec<Problem>, with_holes: bool, rng: &mut SmallRng) -> (rows: Vec<
    Row,
>)
    requires
        with_holes ==> forall|i: int|
            0 <= i < problems@.len() && i < MAX_ROWS ==> problem_renderable(
                #[trigger] problems@[i],
            ),
    ensures
        rows@.len() == if problems@.len() < MAX_ROWS {
            problems@.len() as int
        } else {
            MAX_ROWS as int
        },
        forall|i: int|
            0 <= i < rows@.len() ==> row_placed(#[trigger] rows@[i], i, rows@.len() as int),
        !with_holes ==> forall|i: int|
            0 <= i < rows@.len() ==> (#[trigger] rows@[i]).text@ == plain_text(problems@[i]),
        with_holes ==> forall|i: int|
            0 <= i < rows@.len() ==> (#[trigger] rows@[i]).text@ == hole_x_text(problems@[i])
                || rows@[i].text@ == hole_y_text(problems@[i]),
{
    let count = if problems.len() < MAX_ROWS {
        problems.len()
    } else {
        MAX_ROWS
    };
    let b = count / 2;
    let mut rows: Vec<Row> = Vec::new();
    let mut i: usize = 0;
    while i < count
        invariant
            count <= problems@.len(),
            count <= MAX_ROWS,
            count == if problems@.len() < MAX_ROWS {
                problems@.len() as int
            } else {
                MAX_ROWS as int
            },
            b == column_break(count as int),
            i <= count,
            rows@.len() == i,
            with_holes ==> forall|k: int|
                0 <= k < problems@.len() && k < MAX_ROWS ==> problem_renderable(
                    #[trigger] problems@[k],
                ),
            forall|k: int| 0 <= k < rows@.len() ==> row_placed(#[trigger] rows@[k], k, count as int),
            !with_holes ==> forall|k: int|
                0 <= k < rows@.len() ==> (#[trigger] rows@[k]).text@ == plain_text(problems@[k]),
            with_holes ==> forall|k: int|
                0 <= k < rows@.len() ==> (#[trigger] rows@[k]).text@ == hole_x_text(problems@[k])
                    || rows@[k].text@ == hole_y_text(problems@[k]),
        decreases count - i,
    {
        let p = problems[i];
        let mut label = pad_to_2(u64_to_string((i + 1) as u64));
        label.append(".");
        let (j, c, label_x): (usize, usize, u32) = if i < b {
            (i, 0, 200)
        } else {
            (i - b, b, 1200)
        };
        let mut gap: u32 = 0;
        if c <= 15 && 15 <= i {
            gap = gap + 110;
        }
        if c <= 45 && 45 <= i {
            gap = gap + 110;
        }
        let y: u32 = 2900 - 88 * ((j as u32) + 1) - gap;
        let text: String = if with_holes {
            let hide_x = rng_coin(rng);
            if hide_x {
                render_hole_x(&p)
            } else {
                render_hole_y(&p)
            }
        } else {
            render_plain(&p)
        };
        let row = Row { label, text, label_x, text_x: label_x + 70, y };
        rows.push(row);
        i = i + 1;
    }
    rows
}

} // verus!
