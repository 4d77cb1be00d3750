//! The render pipeline: from the line store and the viewport to the string
//! that draws the visible rows.

use rayon::iter::{IndexedParallelIterator, IntoParallelRefIterator, ParallelIterator};
use vstd::prelude::*;

use crate::coordinates::Coordinates;
use crate::term::{cursor_to, goto_xy, reset, reset_attributes, sized_string, sized_text};

verus! {

/// What the row with local index `i` contributes to the output: the cursor
/// goes to the row's first cell, the attributes are reset, and the line
/// follows, cut or padded to the width of the viewport.
pub open spec fn row_text(c: Coordinates, i: nat, line: Seq<char>) -> Seq<char> {
    cursor_to(c.position.x as nat, c.position.y as nat + i) + reset_attributes() + sized_text(
        line,
        c.size.width as nat,
    )
}

/// The fragments of `lines`, one for each line: line `i` is drawn in row `i`.
pub open spec fn rows_text(lines: Seq<Seq<char>>, c: Coordinates) -> Seq<Seq<char>> {
    Seq::new(lines.len(), |i: int| row_text(c, i as nat, lines[i]))
}

/// The number of rows that a store of `n` lines fills in the viewport: none
/// in a viewport without columns, else as many as there are lines and rows.
pub open spec fn visible_rows(n: nat, c: Coordinates) -> nat {
    if c.size.width == 0 {
        0
    } else if n <= c.size.height {
        n
    } else {
        c.size.height as nat
    }
}

/// The fragments of the rows that are drawn, in ascending row order.
pub open spec fn row_fragments(lines: Seq<Seq<char>>, c: Coordinates) -> Seq<Seq<char>> {
    rows_text(lines.take(visible_rows(lines.len(), c) as int), c)
}

/// The number of rows that clearing the viewport touches: all of its rows,
/// or none where the viewport has no area.
pub open spec fn cleared_rows(c: Coordinates) -> nat {
    if c.size.width == 0 {
        0
    } else {
        c.size.height as nat
    }
}

/// The prefix that erases the viewport: an empty line drawn in each row.
pub open spec fn clear_text(c: Coordinates) -> Seq<char> {
    rows_text(Seq::new(cleared_rows(c), |i: int| Seq::<char>::empty()), c).flatten()
}

/// The whole output: the clearing prefix, then the fragments of the visible
/// rows, first row first.
pub open spec fn render_text(lines: Seq<Seq<char>>, c: Coordinates) -> Seq<char> {
    clear_text(c) + row_fragments(lines, c).flatten()
}

/// Where the fragment of row `i` begins in the output: behind the clearing
/// prefix and the fragments of the rows above it.
pub open spec fn row_offset(lines: Seq<Seq<char>>, c: Coordinates, i: int) -> nat {
    clear_text(c).len() + row_fragments(lines, c).take(i).flatten().len()
}

/// In a viewport with at least one column, every line that has a row is
/// drawn and no other: there are as many fragments as there are lines, or as
/// the viewport has rows if that is fewer. The fragment of row `i` moves the
/// cursor to that row, resets the attributes and then holds line `i` in
/// exactly as many characters as the viewport is wide, however long the line
/// is.
pub proof fn lemma_rows_drawn(lines: Seq<Seq<char>>, c: Coordinates)
    requires
        c.size.width > 0,
    ensures
        row_fragments(lines, c).len() == if lines.len() <= c.size.height {
            lines.len()
        } else {
            c.size.height as nat
        },
        forall|i: int|
            0 <= i < row_fragments(lines, c).len() ==> #[trigger] row_fragments(lines, c)[i]
                == cursor_to(c.position.x as nat, (c.position.y + i) as nat) + reset_attributes()
                + sized_text(lines[i], c.size.width as nat),
        forall|i: int|
            0 <= i < lines.len() ==> (#[trigger] sized_text(lines[i], c.size.width as nat)).len()
                == c.size.width,
{
}

/// A viewport without rows or without columns shows nothing: no row is
/// drawn, and the output is the clearing prefix alone, which is itself empty
/// for a rectangle without area.
pub proof fn lemma_nothing_drawn_without_area(lines: Seq<Seq<char>>, c: Coordinates)
    requires
        c.size.width == 0 || c.size.height == 0,
    ensures
        row_fragments(lines, c).len() == 0,
        render_text(lines, c) == clear_text(c),
        clear_text(c) == Seq::<char>::empty(),
{
    assert(row_fragments(lines, c) =~= Seq::<Seq<char>>::empty());
    assert(rows_text(Seq::new(cleared_rows(c), |i: int| Seq::<char>::empty()), c)
        =~= Seq::<Seq<char>>::empty());
    assert(render_text(lines, c) =~= clear_text(c));
}

/// The fragment of each drawn row stands in the output as a whole, at the
/// row's offset, and the next row's fragment begins where it ends.
pub proof fn lemma_row_position(lines: Seq<Seq<char>>, c: Coordinates, i: int)
    requires
        0 <= i < row_fragments(lines, c).len(),
    ensures
        row_offset(lines, c, i + 1) == row_offset(lines, c, i) + row_fragments(lines, c)[i].len(),
        row_offset(lines, c, i + 1) <= render_text(lines, c).len(),
        render_text(lines, c).subrange(
            row_offset(lines, c, i) as int,
            row_offset(lines, c, i + 1) as int,
        ) == row_fragments(lines, c)[i],
{
    let rows = row_fragments(lines, c);
    let above = rows.take(i);
    let below = rows.skip(i + 1);
    assert(rows.take(i + 1) =~= above.push(rows[i]));
    above.lemma_flatten_push(rows[i]);
    assert(rows =~= rows.take(i + 1) + below);
    vstd::seq_lib::lemma_flatten_concat(rows.take(i + 1), below);
    assert(render_text(lines, c) =~= clear_text(c) + above.flatten() + rows[i] + below.flatten());
}

/// The rows stand in the output in ascending order of their index: a row's
/// fragment begins behind the fragments of all rows above it, and ends
/// before the fragment of any row below it begins.
pub proof fn lemma_rows_ascending(lines: Seq<Seq<char>>, c: Coordinates, i: int, j: int)
    requires
        0 <= i < j < row_fragments(lines, c).len(),
    ensures
        row_offset(lines, c, i) < row_offset(lines, c, j),
        row_offset(lines, c, i) + row_fragments(lines, c)[i].len() <= row_offset(lines, c, j),
    decreases j,
{
    lemma_row_position(lines, c, i);
    if i + 1 < j {
        lemma_rows_ascending(lines, c, i, j - 1);
        lemma_row_position(lines, c, j - 1);
    }
}

/// The output is made of the clearing prefix and the drawn rows and of
/// nothing else: it ends where the last fragment ends.
pub proof fn lemma_output_length(lines: Seq<Seq<char>>, c: Coordinates)
    ensures
        render_text(lines, c).len() == row_offset(
            lines,
            c,
            row_fragments(lines, c).len() as int,
        ),
{
    let rows = row_fragments(lines, c);
    assert(rows.take(rows.len() as int) =~= rows);
}

/// Formats the row with local index `i`, which shows `line`.
///
/// The row is addressed by the sum of the origin's row and `i`, which is
/// written out in full even where it lies beyond the last row that a `u16`
/// can name.
pub fn format_row(c: &Coordinates, i: u16, line: &str) -> (out: String)
    ensures
        out@ == row_text(*c, i as nat, line@),
{
    let mut out = goto_xy(c.position.x as u32, c.position.y as u32 + i as u32);
    out.append(reset().as_str());
    out.append(sized_string(line, c.size.width).as_str());
    out
}

/// The control sequence that erases the rectangle of the viewport: blanks
/// over its full width in each of its rows, and nothing at all for a
/// rectangle without area.
pub fn clear_region(c: &Coordinates) -> (out: String)
    ensures
        out@ == clear_text(*c),
{
    let mut out = String::new();
    let rows: u16 = if c.size.width == 0 {
        0
    } else {
        c.size.height
    };
    let ghost blank = Seq::new(cleared_rows(*c), |i: int| Seq::<char>::empty());
    let mut r: u16 = 0;
    proof {
        assert(rows_text(blank.take(0), *c) =~= Seq::<Seq<char>>::empty());
    }
    while r < rows
        invariant
            r <= rows,
            rows == cleared_rows(*c),
            blank == Seq::new(cleared_rows(*c), |i: int| Seq::<char>::empty()),
            out@ == rows_text(blank.take(r as int), *c).flatten(),
        decreases rows - r,
    {
        let row = format_row(c, r, "");
        proof {
            reveal_strlit("");
            assert(""@ =~= Seq::<char>::empty());
            assert(rows_text(blank.take(r + 1), *c) =~= rows_text(blank.take(r as int), *c).push(
                row@,
            ));
            rows_text(blank.take(r as int), *c).lemma_flatten_push(row@);
        }
        out.append(row.as_str());
        r += 1;
    }
    proof {
        assert(blank.take(rows as int) =~= blank);
    }
    out
}

/// Trusted: rayon's `par_iter`, `take`, `enumerate`, `map` and `collect` on
/// the line store. `take(n)` keeps the first `n` lines, all of them where
/// there are fewer; `enumerate` pairs each with its index, counted from
/// zero; `map` hands each pair to `format_row`, on whatever thread; and
/// `collect` into a `String` joins the fragments in the order of their
/// indices, whichever was finished first. The indices stay below `count`,
/// so they fit the `u16` that `format_row` takes.
#[verifier::external_body]
fn format_rows_in_parallel(lines: &Vec<String>, count: u16, c: &Coordinates) -> (out: String)
    ensures
        out@ == rows_text(
            lines.deep_view().take(
                if count <= lines.len() {
                    count as int
                } else {
                    lines.len() as int
                },
            ),
            *c,
        ).flatten(),
{
    lines
        .par_iter()
        .take(count as usize)
        .enumerate()
        .map(|(i, line)| format_row(c, i as u16, line))
        .collect::<String>()
}

/// Renders the viewport `c` over the line store `lines`.
///
/// The rows are formatted independently of each other and joined in row
/// order behind the clearing prefix. Lines beyond the height of the viewport
/// are not drawn, and rows beyond the last line are left as the prefix
/// cleared them.
pub fn render(lines: &Vec<String>, c: &Coordinates) -> (out: String)
    ensures
        out@ == render_text(lines.deep_view(), *c),
{
    let count: u16 = if c.size.width == 0 {
        0
    } else {
        c.size.height
    };
    let rows = format_rows_in_parallel(lines, count, c);
    let mut out = clear_region(c);
    out.append(rows.as_str());
    out
}

} // verus!
