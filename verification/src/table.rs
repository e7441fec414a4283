//! Plain-text tables: columns padded to their widest cell (in characters),
//! separated by ` | `, under a header and a dashed rule.

use vstd::prelude::*;
use crate::text;

verus! {

/// The character count of cell `i` of a row, 0 when the row is shorter.
pub open spec fn cell_len(row: Seq<Seq<char>>, i: int) -> nat {
    if 0 <= i < row.len() {
        row[i].len()
    } else {
        0
    }
}

/// The width of column `i` over the header and the first `k` rows.
pub open spec fn column_width_upto(header: Seq<char>, rows: Seq<Seq<Seq<char>>>, i: int, k: int) -> nat
    decreases k,
{
    if k <= 0 {
        header.len()
    } else {
        let w = column_width_upto(header, rows, i, k - 1);
        if cell_len(rows[k - 1], i) > w {
            cell_len(rows[k - 1], i)
        } else {
            w
        }
    }
}

/// The width of every column: its widest cell, header included.
pub open spec fn column_widths(headers: Seq<Seq<char>>, rows: Seq<Seq<Seq<char>>>) -> Seq<nat> {
    Seq::new(headers.len(), |i: int| column_width_upto(headers[i], rows, i, rows.len() as int))
}

/// A cell padded with spaces to `width` characters.
pub open spec fn padded(cell: Seq<char>, width: nat) -> Seq<char> {
    cell + text::spaces(if width > cell.len() {
        (width - cell.len()) as nat
    } else {
        0
    })
}

/// The cells of a row, padded and joined by ` | `.
pub open spec fn row_text(cells: Seq<Seq<char>>, widths: Seq<nat>) -> Seq<char>
    decreases cells.len(),
{
    if cells.len() == 0 {
        Seq::empty()
    } else {
        row_text(cells.drop_last(), widths) + (if cells.len() > 1 {
            " | "@
        } else {
            Seq::empty()
        }) + padded(cells.last(), widths[cells.len() - 1])
    }
}

/// The rule under the header: dashes as wide as each column, joined by `-|-`.
pub open spec fn rule_text(widths: Seq<nat>) -> Seq<char>
    decreases widths.len(),
{
    if widths.len() == 0 {
        Seq::empty()
    } else {
        rule_text(widths.drop_last()) + (if widths.len() > 1 {
            "-|-"@
        } else {
            Seq::empty()
        }) + text::dashes(widths.last())
    }
}

/// The rows, one line each.
pub open spec fn rows_text(rows: Seq<Seq<Seq<char>>>, widths: Seq<nat>) -> Seq<char>
    decreases rows.len(),
{
    if rows.len() == 0 {
        Seq::empty()
    } else {
        rows_text(rows.drop_last(), widths) + row_text(rows.last(), widths) + seq!['\n']
    }
}

/// The whole table, without trailing white space.
pub open spec fn table_text(headers: Seq<Seq<char>>, rows: Seq<Seq<Seq<char>>>) -> Seq<char> {
    let widths = column_widths(headers, rows);
    text::trim_end(row_text(headers, widths) + seq!['\n'] + rule_text(widths) + seq!['\n'] + rows_text(rows, widths))
}

/// The widths as natural numbers.
pub open spec fn as_nats(w: Seq<usize>) -> Seq<nat> {
    Seq::new(w.len(), |i: int| w[i] as nat)
}

/// Every row has at most as many cells as there are headers.
pub open spec fn rows_fit(headers: Seq<Seq<char>>, rows: Seq<Seq<Seq<char>>>) -> bool {
    forall|k: int| 0 <= k < rows.len() ==> (#[trigger] rows[k]).len() <= headers.len()
}

fn char_count(s: &String) -> (r: usize)
    ensures
        r == s@.len(),
{
    text::chars_of(s.as_str()).len()
}

fn column_widths_of(headers: &Vec<String>, rows: &Vec<Vec<String>>) -> (r: Vec<usize>)
    requires
        rows_fit(headers.deep_view(), rows.deep_view()),
    ensures
        r@.len() == headers@.len(),
        as_nats(r@) == column_widths(headers.deep_view(), rows.deep_view()),
{
    let ghost h = headers.deep_view();
    let ghost rs = rows.deep_view();
    let mut widths: Vec<usize> = Vec::new();
    let mut i: usize = 0;
    while i < headers.len()
        invariant
            h == headers.deep_view(),
            rs == rows.deep_view(),
            i <= headers.len(),
            widths@.len() == i,
            forall|j: int| 0 <= j < i ==> widths@[j] as nat == column_width_upto(h[j], rs, j, rs.len() as int),
        decreases headers.len() - i,
    {
        let mut w = char_count(&headers[i]);
        let mut k: usize = 0;
        while k < rows.len()
            invariant
                h == headers.deep_view(),
                rs == rows.deep_view(),
                i < headers.len(),
                k <= rows.len(),
                w as nat == column_width_upto(h[i as int], rs, i as int, k as int),
            decreases rows.len() - k,
        {
            let row = &rows[k];
            let len = if i < row.len() {
                char_count(&row[i])
            } else {
                0
            };
            assert(len as nat == cell_len(rs[k as int], i as int)) by {
                assert(rs[k as int] == row.deep_view());
                if i < row.len() {
                    assert(rs[k as int][i as int] == row[i as int]@);
                }
            }
            if len > w {
                w = len;
            }
            k += 1;
        }
        widths.push(w);
        i += 1;
    }
    assert(as_nats(widths@) =~= column_widths(h, rs));
    widths
}

/// Appends the padded cells of a row joined by ` | `, and a line break.
fn append_row(out: &mut String, cells: &Vec<String>, widths: &Vec<usize>)
    requires
        cells.len() <= widths.len(),
    ensures
        final(out)@ == old(out)@ + row_text(cells.deep_view(), as_nats(widths@)) + seq!['\n'],
{
    let ghost c = cells.deep_view();
    let ghost w = as_nats(widths@);
    let mut index: usize = 0;
    assert(c.take(0) =~= Seq::<Seq<char>>::empty());
    while index < cells.len()
        invariant
            c == cells.deep_view(),
            w == as_nats(widths@),
            cells.len() <= widths.len(),
            index <= cells.len(),
            out@ == old(out)@ + row_text(c.take(index as int), w),
        decreases cells.len() - index,
    {
        let ghost before = out@;
        if index > 0 {
            out.append(" | ");
        }
        let value = &cells[index];
        out.append(value.as_str());
        let len = char_count(value);
        let pad = if widths[index] > len {
            widths[index] - len
        } else {
            0
        };
        text::push_repeated(out, ' ', pad);
        index += 1;
        proof {
            let t = c.take(index as int);
            assert(t.drop_last() =~= c.take(index - 1));
            assert(t.last() == value@);
            assert(Seq::new(pad as nat, |i: int| ' ') =~= text::spaces(
                if w[index - 1] > value@.len() {
                    (w[index - 1] - value@.len()) as nat
                } else {
                    0
                },
            ));
            assert(out@ =~= old(out)@ + row_text(t, w));
        }
    }
    assert(c.take(cells.len() as int) =~= c);
    text::push_char(out, '\n');
}

/// Appends the dashed rule and a line break.
fn append_separator(out: &mut String, widths: &Vec<usize>)
    ensures
        final(out)@ == old(out)@ + rule_text(as_nats(widths@)) + seq!['\n'],
{
    let ghost w = as_nats(widths@);
    let mut index: usize = 0;
    assert(w.take(0) =~= Seq::<nat>::empty());
    while index < widths.len()
        invariant
            w == as_nats(widths@),
            index <= widths.len(),
            out@ == old(out)@ + rule_text(w.take(index as int)),
        decreases widths.len() - index,
    {
        if index > 0 {
            out.append("-|-");
        }
        text::push_repeated(out, '-', widths[index]);
        index += 1;
        proof {
            let t = w.take(index as int);
            assert(t.drop_last() =~= w.take(index - 1));
            assert(Seq::new(widths[index - 1] as nat, |i: int| '-') =~= text::dashes(t.last()));
            assert(out@ =~= old(out)@ + rule_text(t));
        }
    }
    assert(w.take(widths.len() as int) =~= w);
    text::push_char(out, '\n');
}

/// Renders the header, the rule and the rows, each column as wide as its widest
/// cell, without trailing white space.
pub fn render_table(headers: &Vec<String>, rows: &Vec<Vec<String>>) -> (r: String)
    requires
        rows_fit(headers.deep_view(), rows.deep_view()),
    ensures
        r@ == table_text(headers.deep_view(), rows.deep_view()),
{
    let ghost h = headers.deep_view();
    let ghost rs = rows.deep_view();
    let widths = column_widths_of(headers, rows);
    let ghost w = as_nats(widths@);
    let mut output = String::new();
    append_row(&mut output, headers, &widths);
    append_separator(&mut output, &widths);
    let ghost head = output@;
    let mut k: usize = 0;
    assert(rs.take(0) =~= Seq::<Seq<Seq<char>>>::empty());
    while k < rows.len()
        invariant
            h == headers.deep_view(),
            rs == rows.deep_view(),
            rows_fit(h, rs),
            w == as_nats(widths@),
            widths@.len() == headers.len(),
            k <= rows.len(),
            output@ == head + rows_text(rs.take(k as int), w),
        decreases rows.len() - k,
    {
        assert(rs[k as int] == rows[k as int].deep_view());
        assert(rows[k as int].len() <= headers.len()) by {
            assert((rs[k as int]).len() <= h.len());
        }
        append_row(&mut output, &rows[k], &widths);
        k += 1;
        proof {
            let t = rs.take(k as int);
            assert(t.drop_last() =~= rs.take(k - 1));
            assert(output@ =~= head + rows_text(t, w));
        }
    }
    assert(rs.take(rows.len() as int) =~= rs);
    text::trimmed_end(&output)
}

} // verus!
