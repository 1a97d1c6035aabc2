//! Text for people: numerals with thousands separators, and the cells of a
//! table or a CSV file.
//!
//! Writing a double as a numeral is left to the caller. The functions here
//! work on the numeral, and say for each cell whether it is text or an
//! amount that the caller still has to write.

use vstd::prelude::*;
use crate::float::Float;
use crate::records::{Pool, PoolView};
use crate::text::{decimal, decimal_string, same_text};

verus! {

/// The place of the first `.` of a text, or the length of the text where it
/// has none.
pub open spec fn first_dot(s: Seq<char>) -> int
    decreases s.len(),
{
    if s.len() == 0 {
        0
    } else if s[0] == '.' {
        0
    } else {
        1 + first_dot(s.drop_first())
    }
}

/// The characters with a comma before every character but the first whose
/// distance from the end of `width` characters is a multiple of three.
pub open spec fn with_separators(digits: Seq<char>, width: int) -> Seq<char>
    decreases digits.len(),
{
    if digits.len() == 0 {
        Seq::empty()
    } else {
        let i = digits.len() - 1;
        let front = with_separators(digits.drop_last(), width);
        if i > 0 && (width - i) % 3 == 0 {
            front.push(',').push(digits.last())
        } else {
            front.push(digits.last())
        }
    }
}

/// A fixed-point numeral with thousands separators: the part before the
/// first `.` gets a comma before every third character counted from its
/// end, and the part between the first `.` and the next one, if there is a
/// `.` at all, follows after a `.` as it is. A sign counts as a character of
/// the first part.
pub open spec fn separated(s: Seq<char>) -> Seq<char> {
    let d = first_dot(s);
    let whole = with_separators(s.take(d), d);
    if d < s.len() {
        let rest = s.skip(d + 1);
        whole.push('.') + rest.take(first_dot(rest))
    } else {
        whole
    }
}

/// The first `.` is at a place of the text or at its end, and nothing
/// before it is a `.`.
pub proof fn lemma_first_dot(s: Seq<char>)
    ensures
        0 <= first_dot(s) <= s.len(),
        forall|k: int| 0 <= k < first_dot(s) ==> s[k] != '.',
        first_dot(s) < s.len() ==> s[first_dot(s)] == '.',
    decreases s.len(),
{
    if s.len() > 0 && s[0] != '.' {
        let rest = s.drop_first();
        lemma_first_dot(rest);
        assert forall|k: int| 0 <= k < first_dot(s) implies s[k] != '.' by {
            if k > 0 {
                assert(rest[k - 1] == s[k]);
            }
        }
        assert(first_dot(rest) < rest.len() ==> rest[first_dot(rest)] == s[first_dot(s)]);
    }
}

/// A place with a `.` and none before it is the first `.`; an end with no
/// `.` before it stands for a text without one.
pub proof fn lemma_first_dot_is(s: Seq<char>, d: int)
    requires
        0 <= d <= s.len(),
        forall|k: int| 0 <= k < d ==> s[k] != '.',
        d < s.len() ==> s[d] == '.',
    ensures
        first_dot(s) == d,
{
    lemma_first_dot(s);
    if first_dot(s) < d {
        assert(s[first_dot(s)] != '.');
    }
}

/// The characters of a text.
pub fn chars_of(s: &str) -> (r: Vec<char>)
    ensures
        r@ == s@,
{
    let mut out: Vec<char> = Vec::new();
    for c in it: s.chars()
        invariant
            it.seq() == s@,
            out@ == s@.take(it.index() as int),
    {
        proof {
            assert(s@.take(it.index() as int + 1) =~= s@.take(it.index() as int).push(c));
        }
        out.push(c);
    }
    assert(s@.take(s@.len() as int) =~= s@);
    out
}

fn dot_from(chars: &Vec<char>, start: usize) -> (r: usize)
    requires
        start <= chars.len(),
    ensures
        start <= r <= chars.len(),
        r - start == first_dot(chars@.skip(start as int)),
{
    let mut d: usize = start;
    while d < chars.len() && chars[d] != '.'
        invariant
            start <= d <= chars.len(),
            forall|k: int| start <= k < d ==> chars[k] != '.',
        decreases chars.len() - d,
    {
        d += 1;
    }
    proof {
        let rest = chars@.skip(start as int);
        assert forall|k: int| 0 <= k < d - start implies rest[k] != '.' by {
            assert(rest[k] == chars[start + k]);
        }
        lemma_first_dot_is(rest, d - start);
    }
    d
}

/// Puts thousands separators into a fixed-point numeral.
pub fn format_number(formatted: &str) -> (r: String)
    ensures
        r@ == separated(formatted@),
{
    let chars = chars_of(formatted);
    let d = dot_from(&chars, 0);
    assert(chars@.skip(0) =~= chars@);
    let mut out = String::new();
    let mut i: usize = 0;
    let ghost whole = chars@.take(d as int);
    proof {
        assert(whole.take(0) =~= Seq::empty());
    }
    while i < d
        invariant
            i <= d <= chars.len(),
            whole == chars@.take(d as int),
            out@ == with_separators(whole.take(i as int), d as int),
        decreases d - i,
    {
        proof {
            assert(whole.take(i as int + 1).drop_last() =~= whole.take(i as int));
            assert(whole.take(i as int + 1).last() == chars[i as int]);
        }
        if i > 0 && (d - i) % 3 == 0 {
            out.push(',');
        }
        out.push(chars[i]);
        i += 1;
    }
    assert(whole.take(d as int) =~= whole);
    if d < chars.len() {
        let end = dot_from(&chars, d + 1);
        out.push('.');
        let ghost head = out@;
        let ghost rest = chars@.skip(d as int + 1);
        let mut k: usize = d + 1;
        proof {
            assert(rest.take(0) =~= Seq::empty());
            assert(out@ =~= head + rest.take(0));
        }
        while k < end
            invariant
                d + 1 <= k <= end <= chars.len(),
                rest == chars@.skip(d as int + 1),
                out@ == head + rest.take(k - d - 1),
            decreases end - k,
        {
            proof {
                assert(rest.take(k - d) =~= rest.take(k - d - 1).push(chars[k as int]));
            }
            out.push(chars[k]);
            assert(out@ =~= head + rest.take(k - d));
            k += 1;
        }
    }
    out
}

/// A numeral as a percentage: the numeral followed by `%`.
pub fn format_percentage(formatted: &str) -> (r: String)
    ensures
        r@ == formatted@ + "%"@,
{
    let mut out = formatted.to_owned();
    out.append("%");
    out
}

/// What stands in a cell.
#[derive(Debug, PartialEq)]
pub enum Cell {
    /// Text, as it is.
    Text(String),
    /// An amount to be written with the given number of decimals and with
    /// thousands separators.
    Number { amount: Float, decimals: usize },
    /// An amount to be written with the given number of decimals, followed
    /// by `%`.
    Percent { amount: Float, decimals: usize },
    /// An amount to be written as the shortest numeral that reads back as
    /// the same double.
    Plain(Float),
}

/// The value of a cell.
pub enum CellView {
    Text(Seq<char>),
    Number { amount: Float, decimals: usize },
    Percent { amount: Float, decimals: usize },
    Plain(Float),
}

impl View for Cell {
    type V = CellView;

    open spec fn view(&self) -> CellView {
        match self {
            Cell::Text(s) => CellView::Text(s@),
            Cell::Number { amount, decimals } => CellView::Number {
                amount: *amount,
                decimals: *decimals,
            },
            Cell::Percent { amount, decimals } => CellView::Percent {
                amount: *amount,
                decimals: *decimals,
            },
            Cell::Plain(x) => CellView::Plain(*x),
        }
    }
}

/// The values of a row of cells.
pub open spec fn row_view(row: Seq<Cell>) -> Seq<CellView> {
    Seq::new(row.len(), |i: int| row[i]@)
}

/// The texts of a list of column names.
pub open spec fn column_names(columns: Seq<&str>) -> Seq<Seq<char>> {
    Seq::new(columns.len(), |i: int| columns[i]@)
}

/// The cell of a pool in a column of a table. The volume is written without
/// decimals, the price with six, the price change over 24 hours as a
/// percentage with two. A column that is not known is empty.
pub open spec fn table_cell_of(p: PoolView, column: Seq<char>) -> CellView {
    if column == "dex_name"@ {
        CellView::Text(p.dex_name)
    } else if column == "volume_usd"@ {
        CellView::Number { amount: p.volume_usd, decimals: 0 }
    } else if column == "price_usd"@ {
        CellView::Number { amount: p.price_usd, decimals: 6 }
    } else if column == "transactions"@ {
        CellView::Text(decimal(p.transactions as nat))
    } else if column == "chain"@ {
        CellView::Text(p.chain)
    } else if column == "last_price_change_usd_24h"@ {
        CellView::Percent { amount: p.last_price_change_usd_24h, decimals: 2 }
    } else {
        CellView::Text(Seq::empty())
    }
}

/// The cell of a pool in a column of a CSV file. A column that is not known
/// is empty.
pub open spec fn csv_cell_of(p: PoolView, column: Seq<char>) -> CellView {
    if column == "id"@ {
        CellView::Text(p.id)
    } else if column == "dex_name"@ {
        CellView::Text(p.dex_name)
    } else if column == "volume_usd"@ {
        CellView::Plain(p.volume_usd)
    } else if column == "price_usd"@ {
        CellView::Plain(p.price_usd)
    } else if column == "transactions"@ {
        CellView::Text(decimal(p.transactions as nat))
    } else if column == "chain"@ {
        CellView::Text(p.chain)
    } else if column == "last_price_change_usd_24h"@ {
        CellView::Plain(p.last_price_change_usd_24h)
    } else if column == "created_at"@ {
        CellView::Text(p.created_at)
    } else {
        CellView::Text(Seq::empty())
    }
}

/// The cell of a pool in a column of a table.
pub fn table_cell(pool: &Pool, column: &str) -> (r: Cell)
    ensures
        r@ == table_cell_of(pool@, column@),
{
    if same_text(column, "dex_name") {
        Cell::Text(pool.dex_name.clone())
    } else if same_text(column, "volume_usd") {
        Cell::Number { amount: pool.volume_usd, decimals: 0 }
    } else if same_text(column, "price_usd") {
        Cell::Number { amount: pool.price_usd, decimals: 6 }
    } else if same_text(column, "transactions") {
        Cell::Text(decimal_string(pool.transactions as u64))
    } else if same_text(column, "chain") {
        Cell::Text(pool.chain.clone())
    } else if same_text(column, "last_price_change_usd_24h") {
        Cell::Percent { amount: pool.last_price_change_usd_24h, decimals: 2 }
    } else {
        Cell::Text(String::new())
    }
}

/// The cell of a pool in a column of a CSV file.
pub fn csv_cell(pool: &Pool, column: &str) -> (r: Cell)
    ensures
        r@ == csv_cell_of(pool@, column@),
{
    if same_text(column, "id") {
        Cell::Text(pool.id.clone())
    } else if same_text(column, "dex_name") {
        Cell::Text(pool.dex_name.clone())
    } else if same_text(column, "volume_usd") {
        Cell::Plain(pool.volume_usd)
    } else if same_text(column, "price_usd") {
        Cell::Plain(pool.price_usd)
    } else if same_text(column, "transactions") {
        Cell::Text(decimal_string(pool.transactions as u64))
    } else if same_text(column, "chain") {
        Cell::Text(pool.chain.clone())
    } else if same_text(column, "last_price_change_usd_24h") {
        Cell::Plain(pool.last_price_change_usd_24h)
    } else if same_text(column, "created_at") {
        Cell::Text(pool.created_at.clone())
    } else {
        Cell::Text(String::new())
    }
}

/// The row of a pool in a table: one cell for each column, in the order of
/// the columns.
pub fn table_row(pool: &Pool, columns: &[&str]) -> (r: Vec<Cell>)
    ensures
        r.len() == columns.len(),
        forall|i: int|
            0 <= i < columns.len() ==> (#[trigger] r[i])@ == table_cell_of(pool@, columns[i]@),
{
    let mut row: Vec<Cell> = Vec::new();
    let mut i: usize = 0;
    while i < columns.len()
        invariant
            i <= columns.len(),
            row.len() == i,
            forall|k: int| 0 <= k < i ==> (#[trigger] row[k])@ == table_cell_of(pool@, columns[k]@),
        decreases columns.len() - i,
    {
        row.push(table_cell(pool, columns[i]));
        i += 1;
    }
    row
}

/// The row of a pool in a CSV file: one cell for each column, in the order
/// of the columns.
pub fn csv_row(pool: &Pool, columns: &[&str]) -> (r: Vec<Cell>)
    ensures
        r.len() == columns.len(),
        forall|i: int|
            0 <= i < columns.len() ==> (#[trigger] r[i])@ == csv_cell_of(pool@, columns[i]@),
{
    let mut row: Vec<Cell> = Vec::new();
    let mut i: usize = 0;
    while i < columns.len()
        invariant
            i <= columns.len(),
            row.len() == i,
            forall|k: int| 0 <= k < i ==> (#[trigger] row[k])@ == csv_cell_of(pool@, columns[k]@),
        decreases columns.len() - i,
    {
        row.push(csv_cell(pool, columns[i]));
        i += 1;
    }
    row
}

} // verus!
