//! The table helper: a two-dimensional tabular value laid out as a table
//! block, with grid columns splitting the printable page width evenly.

use crate::builders::{
    m_wp_attr, m_wp_end, m_wp_start, spec_paragraph_tokens, paragraph_tokens, wp_attr, wp_end,
    wp_start,
};
use crate::errors::TextkitDocxError;
use crate::jsondata::{
    json_as_array, json_as_bool, json_as_i64, json_as_str, json_bool_of, json_get, json_int_of,
    json_items_of, json_member_of, json_real_text, json_real_text_of, json_text_of,
};
use crate::strutil::{dec_of_int, i32_to_string, i64_to_string};
use crate::model::{Token, TokenModel};
use crate::PageDimensions;
use vstd::prelude::*;

verus! {

/// One table cell, formatted per its declared kind: text verbatim, an
/// integer as decimal, a real number as text kept to three decimal places, a
/// boolean as Yes or No, a date or time in its textual form.
#[derive(Debug)]
pub enum CellValue {
    Text(String),
    Integer(i64),
    RealText(String),
    Boolean(bool),
    DateTimeText(String),
    Other,
}

/// Mathematical picture of a [`CellValue`].
#[verifier::ext_equal]
pub enum CellValueModel {
    Text(Seq<char>),
    Integer(i64),
    RealText(Seq<char>),
    Boolean(bool),
    DateTimeText(Seq<char>),
    Other,
}

impl DeepView for CellValue {
    type V = CellValueModel;

    open spec fn deep_view(&self) -> CellValueModel {
        match self {
            CellValue::Text(s) => CellValueModel::Text(s@),
            CellValue::Integer(i) => CellValueModel::Integer(*i),
            CellValue::RealText(s) => CellValueModel::RealText(s@),
            CellValue::Boolean(b) => CellValueModel::Boolean(*b),
            CellValue::DateTimeText(s) => CellValueModel::DateTimeText(s@),
            CellValue::Other => CellValueModel::Other,
        }
    }
}

/// A tabular value held column by column.
#[derive(Debug)]
pub struct TableData {
    pub columns: Vec<Vec<CellValue>>,
}

impl TableData {
    /// Every column holds one cell per record, and the column count fits the
    /// machine's signed 32-bit width used for sizing.
    pub open spec fn wf(&self) -> bool {
        &&& self.columns@.len() <= 0x7fff_ffff
        &&& forall|c: int|
            0 <= c < self.columns@.len() ==> (#[trigger] self.columns@[c])@.len()
                == self.columns@[0]@.len()
    }
}

/// The text shown in a cell, when its kind is displayed.
pub open spec fn cell_text(c: CellValueModel) -> Option<Seq<char>> {
    match c {
        CellValueModel::Text(s) => Some(s),
        CellValueModel::Integer(i) => Some(dec_of_int(i as int)),
        CellValueModel::RealText(s) => Some(s),
        CellValueModel::Boolean(b) => Some(
            if b {
                "Yes"@
            } else {
                "No"@
            },
        ),
        CellValueModel::DateTimeText(s) => Some(s),
        CellValueModel::Other => None,
    }
}

/// The paragraphs inside one cell.
pub open spec fn spec_cell_paragraphs(c: CellValueModel) -> Seq<TokenModel> {
    match cell_text(c) {
        Some(t) => spec_paragraph_tokens(t),
        None => Seq::empty(),
    }
}

/// The fixed tokens opening the table, up to and including the grid opening.
pub open spec fn spec_table_prelude() -> Seq<TokenModel> {
    seq![
        m_wp_start("tbl"@, Seq::empty()),
        m_wp_start("tblPr"@, Seq::empty()),
        m_wp_start("tblStyle"@, seq![m_wp_attr("val"@, "TableGrid"@)]),
        m_wp_end("tblStyle"@),
        m_wp_start("tblW"@, seq![m_wp_attr("w"@, "0"@), m_wp_attr("type"@, "auto"@)]),
        m_wp_end("tblW"@),
        m_wp_start(
            "tblLook"@,
            seq![
                m_wp_attr("val"@, "04A0"@),
                m_wp_attr("firstRow"@, "1"@),
                m_wp_attr("lastRow"@, "0"@),
                m_wp_attr("firstColumn"@, "1"@),
                m_wp_attr("lastColumn"@, "0"@),
                m_wp_attr("noHBand"@, "0"@),
                m_wp_attr("noVBand"@, "0"@),
            ],
        ),
        m_wp_end("tblLook"@),
        m_wp_end("tblPr"@),
        m_wp_start("tblGrid"@, Seq::empty()),
    ]
}

/// The first `i` grid-column declarations, each `w` wide.
pub open spec fn spec_grid_cols_upto(i: int, w: Seq<char>) -> Seq<TokenModel>
    decreases i,
{
    if i <= 0 {
        Seq::empty()
    } else {
        spec_grid_cols_upto(i - 1, w) + seq![
            m_wp_start("gridCol"@, seq![m_wp_attr("w"@, w)]),
            m_wp_end("gridCol"@),
        ]
    }
}

/// One cell holding its formatted content, `w` wide.
pub open spec fn spec_cell(c: CellValueModel, w: Seq<char>) -> Seq<TokenModel> {
    seq![
        m_wp_start("tc"@, Seq::empty()),
        m_wp_start("tcPr"@, Seq::empty()),
        m_wp_start("tcW"@, seq![m_wp_attr("w"@, w), m_wp_attr("type"@, "dxa"@)]),
        m_wp_end("tcW"@),
        m_wp_end("tcPr"@),
    ] + spec_cell_paragraphs(c) + seq![m_wp_end("tc"@)]
}

/// The first `j` cells of the row `row`.
pub open spec fn spec_row_cells_upto(
    cols: Seq<Seq<CellValueModel>>,
    row: int,
    j: int,
    w: Seq<char>,
) -> Seq<TokenModel>
    decreases j,
{
    if j <= 0 {
        Seq::empty()
    } else {
        spec_row_cells_upto(cols, row, j - 1, w) + spec_cell(cols[j - 1][row], w)
    }
}

/// One table row: one cell per column of the record `row`.
pub open spec fn spec_row(cols: Seq<Seq<CellValueModel>>, row: int, w: Seq<char>) -> Seq<
    TokenModel,
> {
    seq![m_wp_start("tr"@, Seq::empty())] + spec_row_cells_upto(cols, row, cols.len() as int, w)
        + seq![m_wp_end("tr"@)]
}

/// The first `i` rows.
pub open spec fn spec_rows_upto(cols: Seq<Seq<CellValueModel>>, i: int, w: Seq<char>) -> Seq<
    TokenModel,
>
    decreases i,
{
    if i <= 0 {
        Seq::empty()
    } else {
        spec_rows_upto(cols, i - 1, w) + spec_row(cols, i - 1, w)
    }
}

/// The width of each grid column: the printable page width split evenly.
pub open spec fn spec_col_width(dims: PageDimensions, ncols: int) -> int {
    if ncols > 0 {
        (dims.width - dims.m_left - dims.m_right) / ncols
    } else {
        0
    }
}

/// The number of records: the length of the first column.
pub open spec fn spec_row_count(cols: Seq<Seq<CellValueModel>>) -> int {
    if cols.len() > 0 {
        cols[0].len() as int
    } else {
        0
    }
}

/// The whole table block for a tabular value.
pub open spec fn spec_table_tokens(cols: Seq<Seq<CellValueModel>>, dims: PageDimensions) -> Seq<
    TokenModel,
> {
    let w = dec_of_int(spec_col_width(dims, cols.len() as int));
    spec_table_prelude() + spec_grid_cols_upto(cols.len() as int, w) + seq![m_wp_end("tblGrid"@)]
        + spec_rows_upto(cols, spec_row_count(cols), w) + seq![m_wp_end("tbl"@)]
}

/// Build the paragraphs of one cell.
fn cell_paragraphs(c: &CellValue) -> (r: Vec<Token>)
    ensures
        r.deep_view() == spec_cell_paragraphs(c.deep_view()),
{
    match c {
        CellValue::Text(s) => paragraph_tokens(s.as_str()),
        CellValue::Integer(i) => {
            let text = i64_to_string(*i);
            paragraph_tokens(text.as_str())
        },
        CellValue::RealText(s) => paragraph_tokens(s.as_str()),
        CellValue::Boolean(b) => {
            if *b {
                paragraph_tokens("Yes")
            } else {
                paragraph_tokens("No")
            }
        },
        CellValue::DateTimeText(s) => paragraph_tokens(s.as_str()),
        CellValue::Other => Vec::new(),
    }
}

/// Lay a tabular value out as one table block: grid columns sized by
/// splitting the printable page width evenly, one row per record, one cell
/// per column, cell content formatted per its declared kind.
#[verifier::rlimit(30)]
pub fn datakit_table_to_tokens(table: &TableData, dims: &PageDimensions) -> (r: Vec<Token>)
    requires
        table.wf(),
        dims.wf(),
    ensures
        r.deep_view() == spec_table_tokens(table.columns.deep_view(), *dims),
{
    let ghost cols = table.columns.deep_view();
    let no_of_cols = table.columns.len();
    let col_width: i32 = if no_of_cols > 0 {
        (dims.width - dims.m_left - dims.m_right) / (no_of_cols as i32)
    } else {
        0
    };
    let col_width_str = i32_to_string(col_width);
    let ghost w = dec_of_int(spec_col_width(*dims, cols.len() as int));
    proof {
        assert(col_width_str@ == w);
    }

    let mut r: Vec<Token> = Vec::new();
    r.push(wp_start("tbl", Vec::new()));
    r.push(wp_start("tblPr", Vec::new()));
    let style_attrs = vec![wp_attr("val", "TableGrid")];
    r.push(wp_start("tblStyle", style_attrs));
    r.push(wp_end("tblStyle"));
    let tblw_attrs = vec![wp_attr("w", "0"), wp_attr("type", "auto")];
    r.push(wp_start("tblW", tblw_attrs));
    r.push(wp_end("tblW"));
    let look_attrs = vec![
        wp_attr("val", "04A0"),
        wp_attr("firstRow", "1"),
        wp_attr("lastRow", "0"),
        wp_attr("firstColumn", "1"),
        wp_attr("lastColumn", "0"),
        wp_attr("noHBand", "0"),
        wp_attr("noVBand", "0"),
    ];
    r.push(wp_start("tblLook", look_attrs));
    r.push(wp_end("tblLook"));
    r.push(wp_end("tblPr"));
    r.push(wp_start("tblGrid", Vec::new()));
    proof {
        assert(r.deep_view() =~~= spec_table_prelude());
    }

    let ghost prelude = r.deep_view();
    let mut c: usize = 0;
    while c < no_of_cols
        invariant
            c <= no_of_cols,
            no_of_cols == cols.len(),
            w == col_width_str@,
            r.deep_view() =~= prelude + spec_grid_cols_upto(c as int, w),
        decreases no_of_cols - c,
    {
        let ghost rold = r.deep_view();
        let grid_attrs = vec![wp_attr("w", col_width_str.as_str())];
        r.push(wp_start("gridCol", grid_attrs));
        r.push(wp_end("gridCol"));
        proof {
            assert(r.deep_view() =~~= rold + seq![
                m_wp_start("gridCol"@, seq![m_wp_attr("w"@, w)]),
                m_wp_end("gridCol"@),
            ]);
        }
        c = c + 1;
    }
    r.push(wp_end("tblGrid"));

    let ghost before_rows = r.deep_view();
    proof {
        assert(before_rows =~= prelude + spec_grid_cols_upto(cols.len() as int, w) + seq![
            m_wp_end("tblGrid"@),
        ]);
    }
    let nrows: usize = if no_of_cols > 0 {
        table.columns[0].len()
    } else {
        0
    };
    proof {
        assert(nrows as int == spec_row_count(cols));
    }
    let mut row: usize = 0;
    while row < nrows
        invariant
            row <= nrows,
            table.wf(),
            cols == table.columns.deep_view(),
            no_of_cols == cols.len(),
            no_of_cols == table.columns@.len(),
            nrows as int == spec_row_count(cols),
            w == col_width_str@,
            r.deep_view() =~= before_rows + spec_rows_upto(cols, row as int, w),
        decreases nrows - row,
    {
        let ghost rrow = r.deep_view();
        r.push(wp_start("tr", Vec::new()));
        proof {
            assert(r.deep_view() =~~= rrow + seq![m_wp_start("tr"@, Seq::empty())]);
        }
        let ghost row_start = r.deep_view();
        let mut j: usize = 0;
        while j < no_of_cols
            invariant
                j <= no_of_cols,
                row < nrows,
                table.wf(),
                cols == table.columns.deep_view(),
                no_of_cols == cols.len(),
                no_of_cols == table.columns@.len(),
                nrows as int == spec_row_count(cols),
                w == col_width_str@,
                r.deep_view() =~= row_start + spec_row_cells_upto(cols, row as int, j as int, w),
            decreases no_of_cols - j,
        {
            let ghost rcell = r.deep_view();
            r.push(wp_start("tc", Vec::new()));
            r.push(wp_start("tcPr", Vec::new()));
            let tcw_attrs = vec![wp_attr("w", col_width_str.as_str()), wp_attr("type", "dxa")];
            r.push(wp_start("tcW", tcw_attrs));
            r.push(wp_end("tcW"));
            r.push(wp_end("tcPr"));
            proof {
                assert(table.columns@[j as int]@.len() == table.columns@[0]@.len());
                assert(cols[j as int].len() == table.columns@[j as int]@.len());
                assert(cols[0].len() == table.columns@[0]@.len());
            }
            let cell_value = &table.columns[j][row];
            let mut cell_body = cell_paragraphs(cell_value);
            r.append(&mut cell_body);
            r.push(wp_end("tc"));
            proof {
                assert(cols[j as int][row as int] == table.columns@[j as int]@[
                    row as int].deep_view());
                assert(r.deep_view() =~~= rcell + spec_cell(cols[j as int][row as int], w));
            }
            j = j + 1;
        }
        let ghost rdone = r.deep_view();
        r.push(wp_end("tr"));
        proof {
            let cells_all = spec_row_cells_upto(cols, row as int, cols.len() as int, w);
            assert(rdone == row_start + cells_all);
            assert(row_start == rrow + seq![m_wp_start("tr"@, Seq::empty())]) by {
                assert(row_start =~~= rrow + seq![m_wp_start("tr"@, Seq::empty())]);
            }
            assert(r.deep_view() =~~= rdone.push(m_wp_end("tr"@)));
            assert(rdone.push(m_wp_end("tr"@)) =~= rrow + spec_row(cols, row as int, w));
            assert(r.deep_view() =~~= rrow + spec_row(cols, row as int, w));
        }
        row = row + 1;
    }
    r.push(wp_end("tbl"));
    proof {
        assert(r.deep_view() =~= spec_table_tokens(cols, *dims));
    }
    r
}

/// The cell read off one generic structured value: a boolean, a signed
/// machine integer, any other number as three-decimal text, a string, a
/// date or time given as an object holding text under `datetime`, and
/// anything else displayed as nothing.
pub open spec fn spec_decode_cell(v: serde_json::Value) -> CellValueModel {
    if json_bool_of(v) is Some {
        CellValueModel::Boolean(json_bool_of(v)->Some_0)
    } else if json_int_of(v) is Some {
        CellValueModel::Integer(json_int_of(v)->Some_0)
    } else if json_real_text_of(v) is Some {
        CellValueModel::RealText(json_real_text_of(v)->Some_0)
    } else if json_text_of(v) is Some {
        CellValueModel::Text(json_text_of(v)->Some_0)
    } else if json_member_of(v, "datetime"@) is Some && json_text_of(
        json_member_of(v, "datetime"@)->Some_0,
    ) is Some {
        CellValueModel::DateTimeText(json_text_of(json_member_of(v, "datetime"@)->Some_0)->Some_0)
    } else {
        CellValueModel::Other
    }
}

/// One column read off an array value, or nothing when it is no array.
pub open spec fn spec_decode_column(v: serde_json::Value) -> Option<Seq<CellValueModel>> {
    match json_items_of(v) {
        Some(cells) => Some(Seq::new(cells.len(), |k: int| spec_decode_cell(cells[k]))),
        None => None,
    }
}

/// The first `i` columns read off the column values; one failure fails all.
pub open spec fn spec_decode_columns(items: Seq<serde_json::Value>, i: int) -> Option<
    Seq<Seq<CellValueModel>>,
>
    decreases i,
{
    if i <= 0 {
        Some(Seq::empty())
    } else {
        match (spec_decode_columns(items, i - 1), spec_decode_column(items[i - 1])) {
            (Some(acc), Some(col)) => Some(acc.push(col)),
            _ => None,
        }
    }
}

proof fn lemma_decode_columns_none(items: Seq<serde_json::Value>, i: int, j: int)
    requires
        0 <= i <= j,
        spec_decode_columns(items, i) is None,
    ensures
        spec_decode_columns(items, j) is None,
    decreases j - i,
{
    if i < j {
        lemma_decode_columns_none(items, i + 1, j);
    }
}

/// The value holding the columns: the member under `columns` when the value
/// is an object holding one, else the value itself.
pub open spec fn spec_columns_value(v: serde_json::Value) -> serde_json::Value {
    match json_member_of(v, "columns"@) {
        Some(c) => c,
        None => v,
    }
}

/// Whether every column holds as many cells as the first.
pub open spec fn columns_equal_lengths(cols: Seq<Seq<CellValueModel>>) -> bool {
    forall|k: int| 0 <= k < cols.len() ==> (#[trigger] cols[k]).len() == cols[0].len()
}

/// The tabular value read off the generic structured value, or nothing when
/// it is none: the columns must form an array of arrays, stay within the
/// machine's column limit, and agree in length.
pub open spec fn spec_decode_table(v: serde_json::Value) -> Option<Seq<Seq<CellValueModel>>> {
    match json_items_of(spec_columns_value(v)) {
        Some(items) => {
            if items.len() > 0x7fff_ffff {
                None
            } else {
                match spec_decode_columns(items, items.len() as int) {
                    Some(cols) => if columns_equal_lengths(cols) {
                        Some(cols)
                    } else {
                        None
                    },
                    None => None,
                }
            }
        },
        None => None,
    }
}

/// Read one cell out of the generic structured value.
fn decode_cell(v: &serde_json::Value) -> (r: CellValue)
    ensures
        r.deep_view() == spec_decode_cell(*v),
{
    match json_as_bool(v) {
        Some(b) => {
            return CellValue::Boolean(b);
        },
        None => {},
    }
    match json_as_i64(v) {
        Some(i) => {
            return CellValue::Integer(i);
        },
        None => {},
    }
    match json_real_text(v) {
        Some(s) => {
            return CellValue::RealText(s);
        },
        None => {},
    }
    match json_as_str(v) {
        Some(s) => {
            return CellValue::Text(s);
        },
        None => {},
    }
    match json_get(v, "datetime") {
        Some(inner) => {
            match json_as_str(inner) {
                Some(s) => {
                    return CellValue::DateTimeText(s);
                },
                None => {},
            }
        },
        None => {},
    }
    CellValue::Other
}

/// Read a tabular value out of the generic structured value: an array of
/// columns, or an object holding one under `columns`, each column an array
/// of cells of equal length.
pub fn decode_table(v: &serde_json::Value) -> (r: Result<TableData, TextkitDocxError>)
    ensures
        match r {
            Ok(t) => {
                &&& spec_decode_table(*v) == Some(t.columns.deep_view())
                &&& t.wf()
            },
            Err(e) => spec_decode_table(*v) is None && e is BadInputData,
        },
{
    let ghost cvm = spec_columns_value(*v);
    let cols_value = match json_get(v, "columns") {
        Some(inner) => inner,
        None => v,
    };
    proof {
        assert(*cols_value == cvm);
    }
    let col_values = match json_as_array(cols_value) {
        Some(a) => a,
        None => {
            return Err(
                TextkitDocxError::BadInputData(
                    "The table expression does not name a tabular value".to_owned(),
                ),
            );
        },
    };
    let ghost items = json_items_of(cvm)->Some_0;
    if col_values.len() > 0x7fff_ffff {
        return Err(
            TextkitDocxError::BadInputData("The tabular value has too many columns".to_owned()),
        );
    }
    let mut columns: Vec<Vec<CellValue>> = Vec::new();
    let mut c: usize = 0;
    while c < col_values.len()
        invariant
            c <= col_values.len(),
            col_values@.len() <= 0x7fff_ffff,
            cvm == spec_columns_value(*v),
            json_items_of(cvm) == Some(items),
            items.len() == col_values@.len(),
            forall|k: int|
                0 <= k < col_values@.len() ==> *(#[trigger] col_values@[k]) == items[k],
            columns@.len() == c,
            spec_decode_columns(items, c as int) == Some(columns.deep_view()),
        decreases col_values.len() - c,
    {
        let cells_value = json_as_array(col_values[c]);
        let cell_values = match cells_value {
            Some(a) => a,
            None => {
                proof {
                    assert(spec_decode_column(items[c as int]) is None);
                    assert(spec_decode_columns(items, c as int + 1) is None);
                    lemma_decode_columns_none(items, c as int + 1, items.len() as int);
                    assert(spec_decode_columns(items, items.len() as int) is None);
                    assert(json_items_of(spec_columns_value(*v)) == Some(items));
                    assert(spec_decode_table(*v) is None);
                }
                return Err(
                    TextkitDocxError::BadInputData(
                        "A table column is not a sequence of cells".to_owned(),
                    ),
                );
            },
        };
        let ghost cellitems = json_items_of(items[c as int])->Some_0;
        let mut cells: Vec<CellValue> = Vec::new();
        let mut i: usize = 0;
        while i < cell_values.len()
            invariant
                i <= cell_values.len(),
                cellitems.len() == cell_values@.len(),
                forall|k: int|
                    0 <= k < cell_values@.len() ==> *(#[trigger] cell_values@[k]) == cellitems[k],
                cells@.len() == i,
                forall|k: int|
                    0 <= k < i ==> cells.deep_view()[k] == spec_decode_cell(#[trigger] cellitems[k]),
            decreases cell_values.len() - i,
        {
            cells.push(decode_cell(cell_values[i]));
            i = i + 1;
        }
        proof {
            assert(cells.deep_view() =~= spec_decode_column(items[c as int])->Some_0);
        }
        let ghost cm = cells.deep_view();
        columns.push(cells);
        proof {
            assert(columns.deep_view()[c as int] == cm);
            assert(columns.deep_view() =~= spec_decode_columns(
                items,
                c as int,
            )->Some_0.push(cm));
            assert(spec_decode_columns(items, c as int + 1) == Some(columns.deep_view()));
        }
        c = c + 1;
    }
    let t = TableData { columns };
    if table_columns_equal(&t) {
        proof {
            assert(columns_equal_lengths(t.columns.deep_view())) by {
                assert forall|k: int|
                    0 <= k < t.columns.deep_view().len() implies (#[trigger] t.columns.deep_view()[
                    k]).len() == t.columns.deep_view()[0].len() by {
                    assert(t.columns.deep_view()[k].len() == t.columns@[k]@.len());
                    if t.columns.deep_view().len() > 0 {
                        assert(t.columns.deep_view()[0].len() == t.columns@[0]@.len());
                    }
                }
            }
        }
        Ok(t)
    } else {
        proof {
            assert(!columns_equal_lengths(t.columns.deep_view())) by {
                if columns_equal_lengths(t.columns.deep_view()) {
                    assert forall|k: int|
                        0 <= k < t.columns@.len() implies (#[trigger] t.columns@[k])@.len()
                        == t.columns@[0]@.len() by {
                        assert(t.columns.deep_view()[k].len() == t.columns@[k]@.len());
                        assert(t.columns.deep_view()[0].len() == t.columns@[0]@.len());
                        assert(t.columns.deep_view()[k].len() == t.columns.deep_view()[0].len());
                    }
                    assert(t.wf());
                    assert(false);
                }
            }
        }
        Err(TextkitDocxError::BadInputData("The table columns differ in length".to_owned()))
    }
}

/// Whether every column holds as many cells as the first.
fn table_columns_equal(t: &TableData) -> (r: bool)
    requires
        t.columns@.len() <= 0x7fff_ffff,
    ensures
        r == t.wf(),
{
    if t.columns.len() == 0 {
        return true;
    }
    let n0 = t.columns[0].len();
    let mut c: usize = 0;
    while c < t.columns.len()
        invariant
            c <= t.columns@.len(),
            t.columns@.len() <= 0x7fff_ffff,
            t.columns@.len() > 0,
            n0 == t.columns@[0]@.len(),
            forall|k: int| 0 <= k < c ==> (#[trigger] t.columns@[k])@.len() == n0,
        decreases t.columns@.len() - c,
    {
        if t.columns[c].len() != n0 {
            return false;
        }
        c = c + 1;
    }
    true
}

} // verus!
