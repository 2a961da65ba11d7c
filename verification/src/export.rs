//! The buffer behind the export of query results: cells arrive one at a
//! time, first the column headers and then the rows, and the whole is
//! rendered as a table in wiki markup.

use vstd::prelude::*;
use vstd::string::*;

use crate::flyway::{Notification, NotificationView, Severity};

verus! {

/// What is shown when the table is on the clipboard.
pub const RESULTS_COPIED: &'static str = "Results copied to clipboard";

/// What is shown when the table could not be copied.
pub const COPY_FAILED: &'static str =
    "An error occured. If this problem persists, please file a bug report.";

/// The cells received so far.
#[derive(Debug, PartialEq, Eq)]
pub struct ExportData {
    /// The column headers.
    pub headers: Vec<String>,
    /// The rows that are complete.
    pub data: Vec<Vec<String>>,
    /// The cells of the row that is being received.
    pub current_row: Vec<String>,
    /// Whether the headers are complete, so that further cells are data.
    pub prepared: bool,
}

/// The buffer as sequences of texts.
pub struct ExportDataView {
    pub headers: Seq<Seq<char>>,
    pub data: Seq<Seq<Seq<char>>>,
    pub current_row: Seq<Seq<char>>,
    pub prepared: bool,
}

impl View for ExportData {
    type V = ExportDataView;

    open spec fn view(&self) -> ExportDataView {
        ExportDataView {
            headers: self.headers.deep_view(),
            data: self.data.deep_view(),
            current_row: self.current_row.deep_view(),
            prepared: self.prepared,
        }
    }
}

/// The cells in order, each followed by `delimiter`.
pub open spec fn delimited(cells: Seq<Seq<char>>, delimiter: Seq<char>) -> Seq<char>
    decreases cells.len(),
{
    if cells.len() == 0 {
        Seq::empty()
    } else {
        delimited(cells.drop_last(), delimiter) + cells.last() + delimiter
    }
}

/// The line of column headers: every header between double pipes.
pub open spec fn header_line(headers: Seq<Seq<char>>) -> Seq<char> {
    "||"@ + delimited(headers, "||"@) + "\n"@
}

/// The line of one row: every cell between single pipes.
pub open spec fn row_line(row: Seq<Seq<char>>) -> Seq<char> {
    "|"@ + delimited(row, "|"@) + "\n"@
}

/// The lines of the rows, in order.
pub open spec fn row_lines(rows: Seq<Seq<Seq<char>>>) -> Seq<char>
    decreases rows.len(),
{
    if rows.len() == 0 {
        Seq::empty()
    } else {
        row_lines(rows.drop_last()) + row_line(rows.last())
    }
}

impl ExportDataView {
    /// A buffer that has received nothing.
    pub open spec fn empty() -> ExportDataView {
        ExportDataView {
            headers: Seq::empty(),
            data: Seq::empty(),
            current_row: Seq::empty(),
            prepared: false,
        }
    }

    /// The state of a buffer that is used through its methods alone: every
    /// complete row has one cell per header, the row being received is
    /// shorter than that, and no data arrives before the headers are
    /// complete. Without headers no row ever completes.
    pub open spec fn wf(self) -> bool {
        &&& forall|i: int|
            0 <= i < self.data.len() ==> (#[trigger] self.data[i]).len() == self.headers.len()
        &&& self.headers.len() > 0 ==> self.current_row.len() < self.headers.len()
        &&& self.headers.len() == 0 ==> self.data.len() == 0
        &&& !self.prepared ==> self.data.len() == 0 && self.current_row.len() == 0
    }

    /// The buffer after one more cell. Before the headers are complete the
    /// cell is a header. After that it joins the current row, and a row that
    /// thereby has one cell per header moves to the data.
    pub open spec fn fed(self, cell: Seq<char>) -> ExportDataView {
        if !self.prepared {
            ExportDataView { headers: self.headers.push(cell), ..self }
        } else if self.current_row.len() + 1 == self.headers.len() {
            ExportDataView {
                data: self.data.push(self.current_row.push(cell)),
                current_row: Seq::empty(),
                ..self
            }
        } else {
            ExportDataView { current_row: self.current_row.push(cell), ..self }
        }
    }

    /// The buffer after the cells `cells`, fed in order.
    pub open spec fn fed_all(self, cells: Seq<Seq<char>>) -> ExportDataView
        decreases cells.len(),
    {
        if cells.len() == 0 {
            self
        } else {
            self.fed_all(cells.drop_last()).fed(cells.last())
        }
    }

    /// The table in wiki markup: the header line, then one line per complete
    /// row.
    pub open spec fn wiki_text(self) -> Seq<char> {
        header_line(self.headers) + row_lines(self.data)
    }
}

/// Feeding a cell keeps a buffer well formed.
pub proof fn feeding_keeps_well_formed(buffer: ExportDataView, cell: Seq<char>)
    requires
        buffer.wf(),
    ensures
        buffer.fed(cell).wf(),
{
}

/// While a row has fewer cells than there are headers it is held back: the
/// cells fed into an empty row make up the current row and the data stays as
/// it was.
pub proof fn partial_row_is_held_back(buffer: ExportDataView, cells: Seq<Seq<char>>)
    requires
        buffer.prepared,
        buffer.current_row.len() == 0,
        cells.len() < buffer.headers.len(),
    ensures
        buffer.fed_all(cells) == (ExportDataView { current_row: cells, ..buffer }),
        buffer.fed_all(cells).data == buffer.data,
        cells.len() > 0 ==> buffer.fed_all(cells).current_row.len() > 0,
    decreases cells.len(),
{
    if cells.len() == 0 {
        assert(buffer.current_row =~= cells);
    } else {
        partial_row_is_held_back(buffer, cells.drop_last());
        assert(cells.drop_last().push(cells.last()) =~= cells);
    }
}

/// The cell that brings a row to one cell per header moves the row to the
/// data and leaves an empty current row.
pub proof fn full_row_is_flushed(buffer: ExportDataView, cells: Seq<Seq<char>>)
    requires
        buffer.prepared,
        buffer.current_row.len() == 0,
        cells.len() == buffer.headers.len(),
        cells.len() > 0,
    ensures
        buffer.fed_all(cells) == (ExportDataView {
            data: buffer.data.push(cells),
            current_row: Seq::empty(),
            ..buffer
        }),
{
    partial_row_is_held_back(buffer, cells.drop_last());
    assert(cells.drop_last().push(cells.last()) =~= cells);
}

/// A buffer without headers never completes a row: whatever is fed after
/// `mark_prepared` piles up in the current row.
pub proof fn without_headers_nothing_is_flushed(buffer: ExportDataView, cells: Seq<Seq<char>>)
    requires
        buffer.prepared,
        buffer.headers.len() == 0,
    ensures
        buffer.fed_all(cells) == (ExportDataView {
            current_row: buffer.current_row + cells,
            ..buffer
        }),
    decreases cells.len(),
{
    if cells.len() > 0 {
        without_headers_nothing_is_flushed(buffer, cells.drop_last());
        assert((buffer.current_row + cells.drop_last()).push(cells.last()) =~= buffer.current_row
            + cells);
    }
}

/// The notice at the end of an export to the clipboard: one line, which is
/// its caption too.
pub open spec fn finished_notice(copied: bool) -> NotificationView {
    let line = if copied {
        RESULTS_COPIED@
    } else {
        COPY_FAILED@
    };
    NotificationView { message: line, caption: line, severity: Severity::Information }
}

/// The notice at the end of an export to the clipboard.
pub fn export_finished_notice(copied: bool) -> (notice: Notification)
    ensures
        notice@ == finished_notice(copied),
{
    let line = if copied {
        RESULTS_COPIED
    } else {
        COPY_FAILED
    };
    Notification {
        message: line.to_owned(),
        caption: line.to_owned(),
        severity: Severity::Information,
    }
}

/// Appends the cells to `text`, each followed by `delimiter`.
fn append_delimited(text: &mut String, cells: &Vec<String>, delimiter: &str)
    ensures
        final(text)@ == old(text)@ + delimited(cells.deep_view(), delimiter@),
{
    let ghost all = cells.deep_view();
    let mut i: usize = 0;
    while i < cells.len()
        invariant
            i <= cells.len(),
            all == cells.deep_view(),
            text@ == old(text)@ + delimited(all.take(i as int), delimiter@),
        decreases cells.len() - i,
    {
        text.append(cells[i].as_str());
        text.append(delimiter);
        proof {
            let next = all.take(i + 1);
            assert(next.drop_last() =~= all.take(i as int));
        }
        i += 1;
    }
    assert(all.take(i as int) =~= all);
}

impl ExportData {
    /// A buffer that has received nothing.
    pub fn new() -> (buffer: ExportData)
        ensures
            buffer@ == ExportDataView::empty(),
            buffer@.wf(),
    {
        let buffer = ExportData {
            headers: Vec::new(),
            data: Vec::new(),
            current_row: Vec::new(),
            prepared: false,
        };
        assert(buffer@.data =~= Seq::empty());
        assert(buffer@.current_row =~= Seq::empty());
        buffer
    }

    /// Empties the buffer for a new export.
    pub fn init(&mut self)
        ensures
            final(self)@ == ExportDataView::empty(),
            final(self)@.wf(),
    {
        self.headers = Vec::new();
        self.data = Vec::new();
        self.current_row = Vec::new();
        self.prepared = false;
        assert(self@.data =~= Seq::empty());
        assert(self@.current_row =~= Seq::empty());
    }

    /// The number of column headers.
    pub fn num_columns(&self) -> (count: usize)
        ensures
            count == self@.headers.len(),
    {
        self.headers.len()
    }

    /// Takes one cell: a column header until `mark_prepared` is called, a
    /// cell of the current row after that.
    pub fn feed(&mut self, value: String)
        ensures
            final(self)@ == old(self)@.fed(value@),
            old(self)@.wf() ==> final(self)@.wf(),
    {
        if !self.prepared {
            self.headers.push(value);
            assert(self@.headers =~= old(self)@.headers.push(value@));
        } else {
            self.current_row.push(value);
            assert(self@.current_row =~= old(self)@.current_row.push(value@));
            if self.current_row.len() == self.num_columns() {
                let mut row: Vec<String> = Vec::new();
                std::mem::swap(&mut row, &mut self.current_row);
                self.data.push(row);
                assert(self@.current_row =~= Seq::empty());
                assert(self@.data =~= old(self)@.data.push(old(self)@.current_row.push(value@)));
            }
        }
    }

    /// Declares the headers complete: the cells fed from now on are data.
    pub fn mark_prepared(&mut self)
        ensures
            final(self)@ == (ExportDataView { prepared: true, ..old(self)@ }),
            old(self)@.wf() ==> final(self)@.wf(),
    {
        self.prepared = true;
    }

    /// The table in wiki markup.
    pub fn to_string(&self) -> (result: String)
        ensures
            result@ == self@.wiki_text(),
    {
        let mut result = String::new();
        result.append("||");
        append_delimited(&mut result, &self.headers, "||");
        result.append("\n");

        let ghost rows = self.data.deep_view();
        let mut i: usize = 0;
        while i < self.data.len()
            invariant
                i <= self.data.len(),
                rows == self.data.deep_view(),
                result@ == header_line(self@.headers) + row_lines(rows.take(i as int)),
            decreases self.data.len() - i,
        {
            result.append("|");
            append_delimited(&mut result, &self.data[i], "|");
            result.append("\n");
            proof {
                let next = rows.take(i + 1);
                assert(next.drop_last() =~= rows.take(i as int));
            }
            i += 1;
        }
        assert(rows.take(i as int) =~= rows);
        result
    }
}

} // verus!
