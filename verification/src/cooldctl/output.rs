//! Tables on the terminal.

use vstd::prelude::*;
use vstd::string::{StringExecFns, StringSliceAdditionalSpecFns};
use crate::text;

verus! {

/// How results are shown.
#[derive(Clone, Copy, Debug, PartialEq, Eq, Structural)]
pub enum OutputFormat {
    Table,
    Json,
    Pretty,
}

impl Default for OutputFormat {
    fn default() -> (r: Self)
        ensures
            r == OutputFormat::Table,
    {
        OutputFormat::Table
    }
}

/// The length of a cell in bytes.
pub open spec fn byte_len(s: Seq<char>) -> nat {
    vstd::utf8::encode_utf8(s).len()
}

/// The larger of two numbers.
pub open spec fn larger(a: nat, b: nat) -> nat {
    if a < b {
        b
    } else {
        a
    }
}

/// The widths of the columns after a row: each at least as wide as its cell.
pub open spec fn widened(w: Seq<nat>, row: Seq<Seq<char>>) -> Seq<nat> {
    Seq::new(
        larger(w.len(), row.len()),
        |i: int|
            if i < row.len() {
                larger(
                    if i < w.len() {
                        w[i]
                    } else {
                        0
                    },
                    byte_len(row[i]),
                )
            } else {
                w[i]
            },
    )
}

/// The widths of the columns of a table.
pub open spec fn column_widths(headers: Seq<Seq<char>>, rows: Seq<Seq<Seq<char>>>) -> Seq<nat>
    decreases rows.len(),
{
    if rows.len() == 0 {
        Seq::new(headers.len(), |i: int| byte_len(headers[i]))
    } else {
        widened(column_widths(headers, rows.drop_last()), rows.last())
    }
}

/// A character, `n` times.
pub open spec fn repeated(c: char, n: nat) -> Seq<char> {
    Seq::new(n, |i: int| c)
}

/// A cell filled up with spaces to the width.
pub open spec fn padded(s: Seq<char>, w: nat) -> Seq<char> {
    if s.len() < w {
        s + repeated(' ', (w - s.len()) as nat)
    } else {
        s
    }
}

/// What follows the column `i` of `n`: the end of the line after the last.
pub open spec fn separator(i: int, n: nat) -> Seq<char> {
    if i + 1 == n {
        "\n"@
    } else {
        "  "@
    }
}

/// The cells of a line, filled up and separated.
pub open spec fn cells(row: Seq<Seq<char>>, w: Seq<nat>, n: nat) -> Seq<char>
    decreases row.len(),
{
    if row.len() == 0 {
        Seq::empty()
    } else {
        let i = row.len() - 1;
        cells(row.drop_last(), w, n) + padded(row.last(), w[i]) + separator(i, n)
    }
}

/// The line under the headers.
pub open spec fn rule(w: Seq<nat>, n: nat) -> Seq<char>
    decreases w.len(),
{
    if w.len() == 0 {
        Seq::empty()
    } else {
        rule(w.drop_last(), n) + repeated('-', w.last()) + separator(w.len() - 1, n)
    }
}

/// The lines of the rows.
pub open spec fn body(rows: Seq<Seq<Seq<char>>>, w: Seq<nat>, n: nat) -> Seq<char>
    decreases rows.len(),
{
    if rows.len() == 0 {
        Seq::empty()
    } else {
        body(rows.drop_last(), w, n) + cells(rows.last(), w, n)
    }
}

/// A table: its headers, a rule, its rows.
pub open spec fn table_text(headers: Seq<Seq<char>>, rows: Seq<Seq<Seq<char>>>) -> Seq<char> {
    let w = column_widths(headers, rows);
    cells(headers, w, headers.len()) + rule(w, w.len()) + body(rows, w, headers.len())
}

/// Rows by their characters.
pub open spec fn row_views(rows: Seq<Vec<String>>) -> Seq<Seq<Seq<char>>> {
    Seq::new(rows.len(), |i: int| text::views(rows[i]@))
}

/// The widths as numbers.
pub open spec fn nats(w: Seq<usize>) -> Seq<nat> {
    Seq::new(w.len(), |i: int| w[i] as nat)
}

/// The length of a cell in bytes.
pub(crate) fn cell_len(s: &str) -> (r: usize)
    ensures
        r == byte_len(s@),
{
    s.as_bytes().len()
}

fn fill(out: &mut String, c: char, n: usize)
    ensures
        final(out)@ == old(out)@ + repeated(c, n as nat),
{
    let mut i: usize = 0;
    proof {
        assert(out@ =~= out@ + repeated(c, 0));
    }
    while i < n
        invariant
            i <= n,
            out@ == old(out)@ + repeated(c, i as nat),
        decreases n - i,
    {
        proof {
            assert((old(out)@ + repeated(c, i as nat)).push(c) =~= old(out)@ + repeated(
                c,
                (i + 1) as nat,
            ));
        }
        out.push(c);
        i = i + 1;
    }
}

fn separate(out: &mut String, i: usize, n: usize)
    requires
        i < usize::MAX,
    ensures
        final(out)@ == old(out)@ + separator(i as int, n as nat),
{
    if i + 1 == n {
        out.append("\n");
    } else {
        out.append("  ");
    }
}

fn widen(w: &mut Vec<usize>, row: &Vec<String>)
    ensures
        nats(final(w)@) == widened(nats(old(w)@), text::views(row@)),
{
    let ghost w0 = nats(w@);
    let ghost cs = text::views(row@);
    let mut i: usize = 0;
    while i < row.len()
        invariant
            i <= row@.len(),
            cs == text::views(row@),
            w@.len() == larger(w0.len(), i as nat),
            forall|j: int|
                0 <= j < w@.len() ==> (#[trigger] w@[j]) as nat == (if j < i {
                    larger(
                        if j < w0.len() {
                            w0[j]
                        } else {
                            0
                        },
                        byte_len(cs[j]),
                    )
                } else {
                    w0[j]
                }),
        decreases row@.len() - i,
    {
        if i >= w.len() {
            w.push(0);
        }
        let n: usize = cell_len(row[i].as_str());
        if w[i] < n {
            w.set(i, n);
        }
        i = i + 1;
    }
    proof {
        assert(nats(w@) =~= widened(w0, cs));
    }
}

proof fn widths_cover(headers: Seq<Seq<char>>, rows: Seq<Seq<Seq<char>>>, i: int)
    requires
        0 <= i < rows.len(),
    ensures
        column_widths(headers, rows).len() >= rows[i].len(),
        column_widths(headers, rows).len() >= headers.len(),
    decreases rows.len(),
{
    if i < rows.len() - 1 {
        assert(rows.drop_last()[i] == rows[i]);
        widths_cover(headers, rows.drop_last(), i);
    } else {
        widths_cover_headers(headers, rows.drop_last());
    }
}

proof fn widths_cover_headers(headers: Seq<Seq<char>>, rows: Seq<Seq<Seq<char>>>)
    ensures
        column_widths(headers, rows).len() >= headers.len(),
    decreases rows.len(),
{
    if rows.len() > 0 {
        widths_cover_headers(headers, rows.drop_last());
    }
}

fn put_cells(out: &mut String, row: &Vec<String>, w: &Vec<usize>, n: usize)
    requires
        row@.len() <= w@.len(),
    ensures
        final(out)@ == old(out)@ + cells(text::views(row@), nats(w@), n as nat),
{
    let ghost cs = text::views(row@);
    let ghost ws = nats(w@);
    let mut i: usize = 0;
    proof {
        assert(cs.take(0) =~= Seq::empty());
        assert(out@ =~= out@ + Seq::<char>::empty());
    }
    while i < row.len()
        invariant
            i <= row@.len() <= w@.len(),
            cs == text::views(row@),
            ws == nats(w@),
            out@ == old(out)@ + cells(cs.take(i as int), ws, n as nat),
        decreases row@.len() - i,
    {
        let ghost before = cells(cs.take(i as int), ws, n as nat);
        let ghost cell = row@[i as int]@;
        proof {
            assert(cs.take(i + 1).drop_last() =~= cs.take(i as int));
            assert(cs.take(i + 1).last() == cell);
            assert(ws[i as int] == w@[i as int] as nat);
        }
        out.append(row[i].as_str());
        let chars: usize = text::to_chars(row[i].as_str()).len();
        if chars < w[i] {
            fill(out, ' ', w[i] - chars);
        }
        separate(out, i, n);
        proof {
            assert(out@ =~= old(out)@ + (before + padded(cell, ws[i as int]) + separator(
                i as int,
                n as nat,
            )));
        }
        i = i + 1;
    }
    proof {
        assert(cs.take(i as int) =~= cs);
    }
}

fn put_rule(out: &mut String, w: &Vec<usize>)
    ensures
        final(out)@ == old(out)@ + rule(nats(w@), w@.len()),
{
    let ghost ws = nats(w@);
    let mut i: usize = 0;
    proof {
        assert(ws.take(0) =~= Seq::empty());
        assert(out@ =~= out@ + Seq::<char>::empty());
    }
    while i < w.len()
        invariant
            i <= w@.len(),
            ws == nats(w@),
            out@ == old(out)@ + rule(ws.take(i as int), w@.len()),
        decreases w@.len() - i,
    {
        let ghost before = rule(ws.take(i as int), w@.len());
        proof {
            assert(ws.take(i + 1).drop_last() =~= ws.take(i as int));
            assert(ws.take(i + 1).last() == w@[i as int] as nat);
        }
        fill(out, '-', w[i]);
        separate(out, i, w.len());
        proof {
            assert(out@ =~= old(out)@ + (before + repeated('-', w@[i as int] as nat) + separator(
                i as int,
                w@.len(),
            )));
        }
        i = i + 1;
    }
    proof {
        assert(ws.take(i as int) =~= ws);
    }
}

fn widths_of(headers: &Vec<String>, rows: &Vec<Vec<String>>) -> (r: Vec<usize>)
    ensures
        nats(r@) == column_widths(text::views(headers@), row_views(rows@)),
        r@.len() == nats(r@).len(),
{
    let ghost hs = text::views(headers@);
    let ghost rs = row_views(rows@);
    let mut w: Vec<usize> = Vec::new();
    let mut i: usize = 0;
    while i < headers.len()
        invariant
            i <= headers@.len(),
            hs == text::views(headers@),
            w@.len() == i,
            forall|j: int| 0 <= j < i ==> (#[trigger] w@[j]) as nat == byte_len(hs[j]),
        decreases headers@.len() - i,
    {
        w.push(cell_len(headers[i].as_str()));
        i = i + 1;
    }
    proof {
        assert(rs.take(0) =~= Seq::empty());
        assert(nats(w@) =~= column_widths(hs, rs.take(0)));
    }
    let mut k: usize = 0;
    while k < rows.len()
        invariant
            k <= rows@.len(),
            rs == row_views(rows@),
            nats(w@) == column_widths(hs, rs.take(k as int)),
        decreases rows@.len() - k,
    {
        proof {
            assert(rs.take(k + 1).drop_last() =~= rs.take(k as int));
            assert(rs.take(k + 1).last() == text::views(rows@[k as int]@));
        }
        widen(&mut w, &rows[k]);
        k = k + 1;
    }
    proof {
        assert(rs.take(k as int) =~= rs);
    }
    w
}

/// Lays out a table.
pub fn table(headers: &Vec<String>, rows: &Vec<Vec<String>>) -> (r: String)
    ensures
        r@ == table_text(text::views(headers@), row_views(rows@)),
{
    let ghost hs = text::views(headers@);
    let ghost rs = row_views(rows@);
    let w: Vec<usize> = widths_of(headers, rows);
    let ghost ws = nats(w@);
    let mut out: String = String::new();
    proof {
        widths_cover_headers(hs, rs);
        assert(hs.len() == headers@.len());
    }
    put_cells(&mut out, headers, &w, headers.len());
    put_rule(&mut out, &w);
    let ghost head = cells(hs, ws, hs.len()) + rule(ws, ws.len());
    proof {
        assert(out@ =~= head);
        assert(rs.take(0) =~= Seq::empty());
        assert(head + Seq::<char>::empty() =~= head);
    }
    let n: usize = headers.len();
    let mut k: usize = 0;
    while k < rows.len()
        invariant
            k <= rows@.len(),
            n == hs.len(),
            rs == row_views(rows@),
            ws == nats(w@),
            ws == column_widths(hs, rs),
            out@ == head + body(rs.take(k as int), ws, n as nat),
        decreases rows@.len() - k,
    {
        proof {
            assert(rs.take(k + 1).drop_last() =~= rs.take(k as int));
            assert(rs.take(k + 1).last() == text::views(rows@[k as int]@));
            assert(rs[k as int].len() == rows@[k as int]@.len());
            widths_cover(hs, rs, k as int);
            let b = body(rs.take(k as int), ws, n as nat);
            let c = cells(text::views(rows@[k as int]@), ws, n as nat);
            assert((head + b) + c =~= head + (b + c));
        }
        put_cells(&mut out, &rows[k], &w, n);
        k = k + 1;
    }
    proof {
        assert(rs.take(k as int) =~= rs);
    }
    out
}

} // verus!
