//! Wrapping of long lines to the width of a pane.
//!
//! A line that is longer than the pane is cut into rows. The first row holds
//! the first characters of the line. Every further row starts with the
//! leading whitespace of the line, so that wrapped text stays indented, and
//! goes on with the characters that follow. Width and length count
//! characters.

use vstd::prelude::*;
use vstd::string::{StrSliceExecFns, StringExecFns};

verus! {

/// Whether `c` is a blank: a space or a tab.
pub open spec fn is_blank(c: char) -> bool {
    c == ' ' || c == '\t'
}

/// The number of blanks that `line` starts with, counted from `from`.
pub open spec fn blanks_from(line: Seq<char>, from: int) -> nat
    decreases line.len() - from,
{
    if 0 <= from < line.len() && is_blank(line[from]) {
        1 + blanks_from(line, from + 1)
    } else {
        0
    }
}

/// The leading whitespace that the further rows of `line` repeat in a pane
/// of `width` columns: the blanks that the line starts with, or nothing when
/// they would fill a row.
pub open spec fn indent_of(line: Seq<char>, width: nat) -> Seq<char> {
    if blanks_from(line, 0) < width {
        line.take(blanks_from(line, 0) as int)
    } else {
        Seq::empty()
    }
}

/// The rows that hold `rest`, each with `indent` in front of at most `room`
/// characters.
pub open spec fn wrap_rest(rest: Seq<char>, indent: Seq<char>, room: int) -> Seq<Seq<char>>
    decreases rest.len(),
{
    if room <= 0 || rest.len() <= room {
        seq![indent + rest]
    } else {
        seq![indent + rest.take(room)] + wrap_rest(rest.skip(room), indent, room)
    }
}

/// The rows of `line` in a pane of `width` columns. A line that fits, and
/// any line in a pane without width, is one row.
pub open spec fn wrapped(line: Seq<char>, width: nat) -> Seq<Seq<char>> {
    if width == 0 || line.len() <= width {
        seq![line]
    } else {
        let indent = indent_of(line, width);
        seq![line.take(width as int)] + wrap_rest(
            line.skip(width as int),
            indent,
            width - indent.len(),
        )
    }
}

/// The number of blanks that `line` starts with.
pub proof fn lemma_blanks_bounds(line: Seq<char>, from: int)
    requires
        0 <= from <= line.len(),
    ensures
        from + blanks_from(line, from) <= line.len(),
    decreases line.len() - from,
{
    if from < line.len() && is_blank(line[from]) {
        lemma_blanks_bounds(line, from + 1);
    }
}

/// No row of a wrapped rest is longer than indent and room together, and
/// every row starts with the indent.
pub proof fn lemma_wrap_rest_rows(rest: Seq<char>, indent: Seq<char>, room: int)
    requires
        room > 0,
    ensures
        forall|i: int|
            0 <= i < wrap_rest(rest, indent, room).len() ==> {
                let row = #[trigger] wrap_rest(rest, indent, room)[i];
                &&& row.len() <= indent.len() + room
                &&& row.len() >= indent.len()
                &&& row.take(indent.len() as int) == indent
            },
    decreases rest.len(),
{
    let rows = wrap_rest(rest, indent, room);
    if rest.len() <= room {
        assert((indent + rest).take(indent.len() as int) == indent);
    } else {
        lemma_wrap_rest_rows(rest.skip(room), indent, room);
        assert((indent + rest.take(room)).take(indent.len() as int) == indent);
        assert forall|i: int| 0 <= i < rows.len() implies {
            let row = #[trigger] rows[i];
            &&& row.len() <= indent.len() + room
            &&& row.len() >= indent.len()
            &&& row.take(indent.len() as int) == indent
        } by {
            if i > 0 {
                assert(rows[i] == wrap_rest(rest.skip(room), indent, room)[i - 1]);
            }
        }
    }
}

/// What the rows of a wrapped rest hold behind their indent, put together.
pub open spec fn unwrap_rest(rows: Seq<Seq<char>>, indent: nat) -> Seq<char>
    decreases rows.len(),
{
    if rows.len() == 0 {
        Seq::empty()
    } else {
        rows[0].skip(indent as int) + unwrap_rest(rows.drop_first(), indent)
    }
}

/// Wrapping loses nothing: the rows of a wrapped rest, without their indent
/// and put together, are the rest.
pub proof fn lemma_wrap_rest_keeps_text(rest: Seq<char>, indent: Seq<char>, room: int)
    ensures
        unwrap_rest(wrap_rest(rest, indent, room), indent.len()) == rest,
    decreases rest.len(),
{
    let rows = wrap_rest(rest, indent, room);
    let n = indent.len();
    if room <= 0 || rest.len() <= room {
        assert(rows[0].skip(n as int) == rest);
        assert(rows.drop_first() == Seq::<Seq<char>>::empty());
        assert(unwrap_rest(rows.drop_first(), n) == Seq::<char>::empty());
        assert(rest + Seq::<char>::empty() == rest);
    } else {
        lemma_wrap_rest_keeps_text(rest.skip(room), indent, room);
        assert(rows.drop_first() == wrap_rest(rest.skip(room), indent, room));
        assert(rows[0].skip(n as int) == rest.take(room));
        assert(rest.take(room) + rest.skip(room) == rest);
    }
}

/// No row of a line wrapped to a width above zero is longer than the width.
pub proof fn lemma_wrapped_rows_fit(line: Seq<char>, width: nat)
    requires
        width > 0,
    ensures
        wrapped(line, width).len() >= 1,
        forall|i: int|
            0 <= i < wrapped(line, width).len() ==> (#[trigger] wrapped(line, width)[i]).len()
                <= width,
{
    if line.len() > width {
        let indent = indent_of(line, width);
        lemma_blanks_bounds(line, 0);
        let tail = wrap_rest(line.skip(width as int), indent, width - indent.len());
        lemma_wrap_rest_rows(line.skip(width as int), indent, width - indent.len());
        assert forall|i: int| 0 <= i < wrapped(line, width).len() implies (#[trigger] wrapped(
            line,
            width,
        )[i]).len() <= width by {
            if i > 0 {
                assert(wrapped(line, width)[i] == tail[i - 1]);
            }
        }
    }
}

/// Wrapping loses nothing: the first row, and behind it the further rows
/// without their indent, are the line.
pub proof fn lemma_wrapped_keeps_text(line: Seq<char>, width: nat)
    ensures
        wrapped(line, width)[0] + unwrap_rest(
            wrapped(line, width).drop_first(),
            indent_of(line, width).len(),
        ) == line,
{
    if width == 0 || line.len() <= width {
        assert(wrapped(line, width).drop_first() == Seq::<Seq<char>>::empty());
        assert(unwrap_rest(wrapped(line, width).drop_first(), indent_of(line, width).len())
            == Seq::<char>::empty());
        assert(line + Seq::<char>::empty() == line);
    } else {
        let indent = indent_of(line, width);
        let tail = wrap_rest(line.skip(width as int), indent, width - indent.len());
        lemma_wrap_rest_keeps_text(line.skip(width as int), indent, width - indent.len());
        assert(wrapped(line, width).drop_first() == tail);
        assert(line.take(width as int) + line.skip(width as int) == line);
    }
}

fn count_blanks(line: &str, len: usize) -> (blanks: usize)
    requires
        len == line@.len(),
    ensures
        blanks == blanks_from(line@, 0),
        blanks <= len,
{
    let mut blanks: usize = 0;
    while blanks < len
        invariant
            blanks <= len,
            len == line@.len(),
            blanks_from(line@, 0) == blanks + blanks_from(line@, blanks as int),
        decreases len - blanks,
    {
        let c = line.get_char(blanks);
        if c == ' ' || c == '\t' {
            blanks += 1;
        } else {
            return blanks;
        }
    }
    blanks
}

/// Cuts `line` into the rows of a pane of `width` columns.
pub fn wrap_line(line: &str, width: u16) -> (rows: Vec<String>)
    ensures
        rows.deep_view() == wrapped(line@, width as nat),
{
    let len = line.unicode_len();
    let width = width as usize;
    let mut rows: Vec<String> = Vec::new();
    if width == 0 || len <= width {
        rows.push(String::from_str(line));
        assert(rows.deep_view() =~= wrapped(line@, width as nat));
        return rows;
    }
    let blanks = count_blanks(line, len);
    let indent = if blanks < width {
        line.substring_char(0, blanks)
    } else {
        line.substring_char(0, 0)
    };
    let room = if blanks < width {
        width - blanks
    } else {
        width
    };
    assert(indent@ =~= indent_of(line@, width as nat));
    rows.push(String::from_str(line.substring_char(0, width)));
    let mut at: usize = width;
    loop
        invariant_except_break
            width <= at < len,
            len == line@.len(),
            room > 0,
            rows@.len() >= 1,
            rows.deep_view() + wrap_rest(line@.skip(at as int), indent@, room as int) == wrapped(
                line@,
                width as nat,
            ),
        ensures
            rows.deep_view() == wrapped(line@, width as nat),
        decreases len - at,
    {
        let ghost before = rows.deep_view();
        let ghost rest = line@.skip(at as int);
        if len - at <= room {
            let row = String::from_str(indent).concat(line.substring_char(at, len));
            assert(row@ =~= indent@ + rest);
            rows.push(row);
            assert(rows.deep_view() =~= before + seq![indent@ + rest]);
            break ;
        }
        let row = String::from_str(indent).concat(line.substring_char(at, at + room));
        assert(row@ =~= indent@ + rest.take(room as int));
        rows.push(row);
        assert(rows.deep_view() =~= before + seq![indent@ + rest.take(room as int)]);
        assert(rest.skip(room as int) =~= line@.skip(at + room));
        assert(before + (seq![indent@ + rest.take(room as int)] + wrap_rest(
            rest.skip(room as int),
            indent@,
            room as int,
        )) =~= (before + seq![indent@ + rest.take(room as int)]) + wrap_rest(
            rest.skip(room as int),
            indent@,
            room as int,
        ));
        at = at + room;
    }
    rows
}

} // verus!
