use vstd::prelude::*;
use vstd::string::*;
use crate::math::decimal::{digits, push_digits};
use crate::math::parse::{parse_decimal, parsed};
use crate::math::Vec2;
use crate::text::texts;

verus! {

/// What a table holds, as text: a list of lists of cells.
pub open spec fn tables(v: Seq<Vec<String>>) -> Seq<Seq<Seq<char>>> {
    Seq::new(v.len(), |i: int| texts(v[i]@))
}

/// What can be wrong with the data of a chart.
#[derive(Debug)]
pub enum DataError {
    /// The text is not a table of comma-separated values.
    Unreadable,
    /// The table lacks the column asked for as `x`, or the one asked for as `y`.
    MissingColumn { x: u32, y: u32 },
}

#[verifier::external_type_specification]
#[verifier::external_body]
pub struct ExCsvError(csv::Error);

/// The first record of comma-separated `data`, which names the columns;
/// `None` where the data cannot be read as such.
pub uninterp spec fn csv_header(data: Seq<u8>) -> Option<Seq<Seq<char>>>;

/// The records of comma-separated `data` after the first, in order; `None`
/// where the data cannot be read as such.
pub uninterp spec fn csv_rows(data: Seq<u8>) -> Option<Seq<Seq<Seq<char>>>>;

/// `csv::Reader::headers`, on a reader with the default configuration over
/// `data`: the fields of the first record, or the error that reading it
/// gave. The contract only names the outcome.
#[verifier::external_body]
fn csv_read_header(data: &[u8]) -> (r: Result<Vec<String>, csv::Error>)
    ensures
        match r {
            Ok(header) => csv_header(data@) == Some(texts(header@)),
            Err(_) => csv_header(data@) is None,
        },
{
    let mut reader = csv::Reader::from_reader(data);
    let header = reader.headers()?;
    Ok(header.iter().map(|field| field.to_string()).collect())
}

/// `csv::Reader::records`, on a reader with the default configuration over
/// `data`: the fields of every record after the first, or the first error
/// that the iteration gave. The contract only names the outcome.
#[verifier::external_body]
fn csv_read_rows(data: &[u8]) -> (r: Result<Vec<Vec<String>>, csv::Error>)
    ensures
        match r {
            Ok(rows) => csv_rows(data@) == Some(tables(rows@)),
            Err(_) => csv_rows(data@) is None,
        },
{
    let mut reader = csv::Reader::from_reader(data);
    let mut rows = Vec::new();
    for record in reader.records() {
        rows.push(record?.iter().map(|field| field.to_string()).collect());
    }
    Ok(rows)
}

/// Column `c` of a table given by rows: the cell at `c` of every row that is
/// long enough to have one, in the order of the rows.
pub open spec fn column(rows: Seq<Seq<Seq<char>>>, c: int) -> Seq<Seq<char>>
    decreases rows.len(),
{
    if rows.len() == 0 {
        Seq::empty()
    } else if c < rows.last().len() {
        column(rows.drop_last(), c).push(rows.last()[c])
    } else {
        column(rows.drop_last(), c)
    }
}

/// The first `width` columns of a table given by rows.
pub open spec fn columns(width: nat, rows: Seq<Seq<Seq<char>>>) -> Seq<Seq<Seq<char>>> {
    Seq::new(width, |c: int| column(rows, c))
}

/// Turns a table given by rows into its first `width` columns.
pub fn columns_of(width: usize, rows: &Vec<Vec<String>>) -> (table: Vec<Vec<String>>)
    ensures
        tables(table@) == columns(width as nat, tables(rows@)),
{
    let mut table: Vec<Vec<String>> = Vec::new();
    let mut c: usize = 0;
    while c < width
        invariant
            c <= width,
            table.len() == c,
            forall|k: int| 0 <= k < c ==> texts((#[trigger] table@[k])@) == column(tables(rows@), k),
        decreases width - c,
    {
        let mut cells: Vec<String> = Vec::new();
        let mut r: usize = 0;
        while r < rows.len()
            invariant
                r <= rows.len(),
                texts(cells@) == column(tables(rows@).take(r as int), c as int),
            decreases rows.len() - r,
        {
            let ghost before = texts(cells@);
            let ghost upto = tables(rows@).take(r as int + 1);
            assert(upto.drop_last() =~= tables(rows@).take(r as int));
            assert(upto.last() == texts(rows@[r as int]@));
            if c < rows[r].len() {
                cells.push(rows[r][c].clone());
                assert(texts(cells@) =~= before.push(rows@[r as int]@[c as int]@));
            }
            r += 1;
        }
        assert(tables(rows@).take(r as int) =~= tables(rows@));
        table.push(cells);
        c += 1;
    }
    assert(tables(table@) =~= columns(width as nat, tables(rows@)));
    table
}

/// Reads comma-separated data into columns: as many as the first record
/// names, each holding the cells of the records after it.
pub fn read_csv_columns(data: &[u8]) -> (r: Result<Vec<Vec<String>>, DataError>)
    ensures
        match r {
            Ok(table) => csv_header(data@) is Some && csv_rows(data@) is Some && tables(table@)
                == columns(csv_header(data@)->0.len(), csv_rows(data@)->0),
            Err(e) => e == DataError::Unreadable && (csv_header(data@) is None || csv_rows(data@) is None),
        },
{
    match csv_read_header(data) {
        Ok(header) => match csv_read_rows(data) {
            Ok(rows) => Ok(columns_of(header.len(), &rows)),
            Err(_) => Err(DataError::Unreadable),
        },
        Err(_) => Err(DataError::Unreadable),
    }
}

impl DataError {
    /// What the error says to the user.
    pub open spec fn text(self) -> Seq<char> {
        match self {
            DataError::Unreadable => "Failed to parse CSV into vector."@,
            DataError::MissingColumn { x, y } => "The located column, "@ + digits(x as nat)
                + " and "@ + digits(y as nat) + " doesn't exit."@,
        }
    }

    /// Writes what the error says to the user.
    pub fn message(&self) -> (s: String)
        ensures
            s@ == self.text(),
    {
        match self {
            DataError::Unreadable => String::from_str("Failed to parse CSV into vector."),
            DataError::MissingColumn { x, y } => {
                let mut s = String::from_str("The located column, ");
                push_digits(&mut s, *x as u64);
                s.append(" and ");
                push_digits(&mut s, *y as u64);
                s.append(" doesn't exit.");
                assert(s@ =~= self.text());
                s
            },
        }
    }
}

/// Picks the two columns of a series out of a table. Both must exist.
pub fn select_columns(table: &Vec<Vec<String>>, x: u32, y: u32) -> (r: Result<
    (&Vec<String>, &Vec<String>),
    DataError,
>)
    ensures
        match r {
            Ok((xs, ys)) => x < table.len() && y < table.len() && *xs == table@[x as int] && *ys
                == table@[y as int],
            Err(e) => (x >= table.len() || y >= table.len()) && e == (DataError::MissingColumn {
                x,
                y,
            }),
        },
{
    if (x as usize) < table.len() && (y as usize) < table.len() {
        Ok((&table[x as usize], &table[y as usize]))
    } else {
        Err(DataError::MissingColumn { x, y })
    }
}

/// The points of the first `n` rows of two columns of numbers: a row gives
/// a point where both of its cells hold a number, and is passed over where
/// either does not.
pub open spec fn paired(xs: Seq<Option<i64>>, ys: Seq<Option<i64>>, n: nat) -> Seq<Vec2>
    decreases n,
{
    if n == 0 {
        Seq::empty()
    } else {
        let before = paired(xs, ys, (n - 1) as nat);
        match (xs[n - 1], ys[n - 1]) {
            (Some(x), Some(y)) => before.push(Vec2 { x, y }),
            _ => before,
        }
    }
}

/// How many rows two columns have in common.
pub open spec fn common_len(xs: Seq<Option<i64>>, ys: Seq<Option<i64>>) -> nat {
    if xs.len() <= ys.len() {
        xs.len()
    } else {
        ys.len()
    }
}

/// Makes the points of a series from its two columns, cell by cell as far
/// as both columns reach. A cell that held no number is `None`; its row is
/// left out.
pub fn collect_points(xs: &Vec<Option<i64>>, ys: &Vec<Option<i64>>) -> (points: Vec<Vec2>)
    ensures
        points@ == paired(xs@, ys@, common_len(xs@, ys@)),
{
    let mut points: Vec<Vec2> = Vec::new();
    let mut i: usize = 0;
    while i < xs.len() && i < ys.len()
        invariant
            i <= xs.len(),
            i <= ys.len(),
            points@ == paired(xs@, ys@, i as nat),
        decreases xs.len() - i,
    {
        match (xs[i], ys[i]) {
            (Some(x), Some(y)) => {
                points.push(Vec2 { x, y });
            },
            _ => {},
        }
        i += 1;
    }
    points
}

/// The numbers that the cells of a column write, cell by cell; `None` for
/// a cell that writes none.
pub open spec fn numbers(cells: Seq<Seq<char>>) -> Seq<Option<i64>> {
    Seq::new(cells.len(), |i: int| parsed(cells[i]))
}

/// Reads the number of every cell of a column.
pub fn parse_cells(cells: &Vec<String>) -> (values: Vec<Option<i64>>)
    ensures
        values@ == numbers(texts(cells@)),
{
    let mut values: Vec<Option<i64>> = Vec::new();
    let mut i: usize = 0;
    while i < cells.len()
        invariant
            i <= cells.len(),
            values.len() == i,
            forall|k: int| 0 <= k < i ==> #[trigger] values@[k] == parsed(cells@[k]@),
        decreases cells.len() - i,
    {
        values.push(parse_decimal(cells[i].as_str()));
        i += 1;
    }
    assert(values@ =~= numbers(texts(cells@)));
    values
}

/// The points of the series that columns `x` and `y` of a table make.
pub open spec fn series_of(table: Seq<Seq<Seq<char>>>, x: int, y: int) -> Seq<Vec2> {
    let xs = numbers(table[x]);
    let ys = numbers(table[y]);
    paired(xs, ys, common_len(xs, ys))
}

/// Makes the points of one series from two columns of a table. The columns
/// must exist; a row of which a cell writes no number is left out.
pub fn series(table: &Vec<Vec<String>>, x: u32, y: u32) -> (r: Result<Vec<Vec2>, DataError>)
    ensures
        match r {
            Ok(points) => x < table.len() && y < table.len() && points@ == series_of(
                tables(table@),
                x as int,
                y as int,
            ),
            Err(e) => (x >= table.len() || y >= table.len()) && e == (DataError::MissingColumn {
                x,
                y,
            }),
        },
{
    match select_columns(table, x, y) {
        Ok((xs, ys)) => {
            let points = collect_points(&parse_cells(xs), &parse_cells(ys));
            Ok(points)
        },
        Err(e) => Err(e),
    }
}

/// The points of the first `n` series asked for, one series after the
/// other; a series of which a column is missing adds none.
pub open spec fn plotted_upto(table: Seq<Seq<Seq<char>>>, pairs: Seq<(u32, u32)>, n: nat) -> Seq<
    Vec2,
>
    decreases n,
{
    if n == 0 {
        Seq::empty()
    } else {
        let before = plotted_upto(table, pairs, (n - 1) as nat);
        let (x, y) = pairs[n - 1];
        if x < table.len() && y < table.len() {
            before + series_of(table, x as int, y as int)
        } else {
            before
        }
    }
}

/// The errors of the first `n` series asked for: one for each series of
/// which a column is missing, in the order of the series.
pub open spec fn missing_upto(width: nat, pairs: Seq<(u32, u32)>, n: nat) -> Seq<DataError>
    decreases n,
{
    if n == 0 {
        Seq::empty()
    } else {
        let before = missing_upto(width, pairs, (n - 1) as nat);
        let (x, y) = pairs[n - 1];
        if x < width && y < width {
            before
        } else {
            before.push(DataError::MissingColumn { x, y })
        }
    }
}

/// Makes the points of several series. A series of which a column is
/// missing is reported and does not keep the others from being made.
pub fn plot_series(table: &Vec<Vec<String>>, pairs: &Vec<(u32, u32)>) -> (r: (
    Vec<Vec2>,
    Vec<DataError>,
))
    ensures
        r.0@ == plotted_upto(tables(table@), pairs@, pairs@.len()),
        r.1@ == missing_upto(table@.len(), pairs@, pairs@.len()),
{
    let mut points: Vec<Vec2> = Vec::new();
    let mut errors: Vec<DataError> = Vec::new();
    let mut i: usize = 0;
    while i < pairs.len()
        invariant
            i <= pairs.len(),
            points@ == plotted_upto(tables(table@), pairs@, i as nat),
            errors@ == missing_upto(table@.len(), pairs@, i as nat),
        decreases pairs.len() - i,
    {
        let (x, y) = pairs[i];
        match series(table, x, y) {
            Ok(more) => {
                let mut more = more;
                points.append(&mut more);
            },
            Err(e) => {
                errors.push(e);
            },
        }
        i += 1;
    }
    (points, errors)
}

} // verus!
