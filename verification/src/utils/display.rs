use vstd::prelude::*;
use vstd::utf8::{is_ascii_chars, is_ascii_chars_encode_utf8};
use crate::cli::plan::Operation;
use crate::utils::table::{byte_len, strings_view, strs_view, TableRow};
use crate::connection::exchange::{gid_text, push_gid, Gid};
use crate::utils::text::{decimal, lower_hex, pad_left, pad_right, u64_to_decimal_padded, u64_to_hex_padded, push_char, push_padded, push_repeat, push_str, repeat_char, u64_to_decimal};

verus! {

/// Width of the section headers of bandwidth tests.
pub const DEFAULT_HEADER_WIDTH: usize = 90;

/// Width of the section headers of latency tests.
pub const DEFAULT_LAT_HEADER_WIDTH: usize = 140;

/// Configuration fields per column of the configuration block.
pub const DEFAULT_ROWS_PER_COLUMN: usize = 10;

/// Spaces between two columns of the configuration block.
pub const DEFAULT_COLUMN_SPACING: usize = 10;

/// Spaces between a key's colon and its value.
pub const DEFAULT_KEY_VALUE_SPACING: usize = 1;

/// Spaces around the text of a section header.
pub const DEFAULT_HEADER_MARGIN_LEN: usize = 2;

/// Spaces before each key-value pair and each connection line.
pub const KEY_VALUE_PREFIX_PADDING: usize = 1;

pub const SIZE_COLUMN_WIDTH: usize = 12;

pub const ITERATIONS_COLUMN_WIDTH: usize = 12;

pub const BANDWIDTH_COLUMN_WIDTH: usize = 18;

pub const MSG_RATE_COLUMN_WIDTH: usize = 18;

/// Width of the time column of the bandwidth table.
pub const TIME_COLUMN_WIDTH: usize = 16;

/// Width of one column separator (" | ").
pub const SEPARATOR_WIDTH: usize = 3;

/// Columns of the bandwidth table.
pub const COLUMN_COUNT: usize = 5;

pub const LAT_SIZE_COLUMN_WIDTH: usize = 12;

pub const LAT_ITER_COLUMN_WIDTH: usize = 12;

pub const LAT_MIN_COLUMN_WIDTH: usize = 12;

pub const LAT_MAX_COLUMN_WIDTH: usize = 14;

pub const LAT_TYP_COLUMN_WIDTH: usize = 12;

pub const LAT_AVG_COLUMN_WIDTH: usize = 12;

pub const LAT_STDEV_COLUMN_WIDTH: usize = 12;

pub const LAT_P99_COLUMN_WIDTH: usize = 12;

/// Columns of the latency table.
pub const LAT_COLUMN_COUNT: usize = 9;

/// The leading and the trailing space of a table row.
pub const START_AND_END_SPACES_WIDTH: usize = 2;

/// The benchmark a report is about.
#[derive(Debug, Clone, Copy, PartialEq, Eq, Structural)]
pub enum TestType {
    SendBandwidth,
    SendLatency,
    WriteBandwidth,
    WriteLatency,
    ReadBandwidth,
    ReadLatency,
}

impl TestType {
    pub open spec fn spec_is_latency(self) -> bool {
        self is SendLatency || self is WriteLatency || self is ReadLatency
    }

    /// Whether the test measures latency.
    pub fn is_latency(&self) -> (r: bool)
        ensures
            r == self.spec_is_latency(),
    {
        match self {
            TestType::SendLatency | TestType::WriteLatency | TestType::ReadLatency => true,
            _ => false,
        }
    }

    /// Title of the test, as the report prints it.
    pub open spec fn title(self) -> Seq<char> {
        match self {
            TestType::SendBandwidth => "RDMA Send Bandwidth Test"@,
            TestType::SendLatency => "RDMA Send Latency Test"@,
            TestType::WriteBandwidth => "RDMA Write Bandwidth Test"@,
            TestType::WriteLatency => "RDMA Write Latency Test"@,
            TestType::ReadBandwidth => "RDMA Read Bandwidth Test"@,
            TestType::ReadLatency => "RDMA Read Latency Test"@,
        }
    }

    /// The title of the test.
    pub fn to_string(&self) -> (r: String)
        ensures
            r@ == self.title(),
    {
        let s = match self {
            TestType::SendBandwidth => "RDMA Send Bandwidth Test",
            TestType::SendLatency => "RDMA Send Latency Test",
            TestType::WriteBandwidth => "RDMA Write Bandwidth Test",
            TestType::WriteLatency => "RDMA Write Latency Test",
            TestType::ReadBandwidth => "RDMA Read Bandwidth Test",
            TestType::ReadLatency => "RDMA Read Latency Test",
        };
        s.to_owned()
    }

    pub open spec fn spec_for_operation(op: Operation, is_latency: bool) -> TestType {
        match op {
            Operation::Send => if is_latency { TestType::SendLatency } else { TestType::SendBandwidth },
            Operation::Write => if is_latency { TestType::WriteLatency } else { TestType::WriteBandwidth },
            Operation::Read => if is_latency { TestType::ReadLatency } else { TestType::ReadBandwidth },
            Operation::Atomic => TestType::SendBandwidth,
        }
    }

    /// The operation a test type reports on.
    pub open spec fn spec_operation(self) -> Operation {
        match self {
            TestType::SendBandwidth | TestType::SendLatency => Operation::Send,
            TestType::WriteBandwidth | TestType::WriteLatency => Operation::Write,
            TestType::ReadBandwidth | TestType::ReadLatency => Operation::Read,
        }
    }

    /// The report's test type of an operation measured for latency or
    /// bandwidth; atomics are reported as send bandwidth.
    pub fn for_operation(op: Operation, is_latency: bool) -> (r: TestType)
        ensures
            r == Self::spec_for_operation(op, is_latency),
    {
        match (op, is_latency) {
            (Operation::Send, true) => TestType::SendLatency,
            (Operation::Send, false) => TestType::SendBandwidth,
            (Operation::Write, true) => TestType::WriteLatency,
            (Operation::Write, false) => TestType::WriteBandwidth,
            (Operation::Read, true) => TestType::ReadLatency,
            (Operation::Read, false) => TestType::ReadBandwidth,
            _ => TestType::SendBandwidth,
        }
    }

    /// Width of the report's section headers for this test: wider for the
    /// latency table.
    pub fn header_width(&self) -> (r: usize)
        ensures
            r == (if self.spec_is_latency() { DEFAULT_LAT_HEADER_WIDTH } else { DEFAULT_HEADER_WIDTH }),
    {
        if self.is_latency() { DEFAULT_LAT_HEADER_WIDTH } else { DEFAULT_HEADER_WIDTH }
    }
}

/// Smallest width that the bandwidth table fits in: its natural width.
pub fn min_required_table_width() -> (r: usize)
    ensures
        r == SIZE_COLUMN_WIDTH + ITERATIONS_COLUMN_WIDTH + BANDWIDTH_COLUMN_WIDTH + MSG_RATE_COLUMN_WIDTH
            + TIME_COLUMN_WIDTH + SEPARATOR_WIDTH * (COLUMN_COUNT - 1) + START_AND_END_SPACES_WIDTH,
        r == crate::utils::table::natural_width(BandwidthRow::spec_column_widths()),
        r == 90,
{
    proof {
        reveal_with_fuel(crate::utils::table::sum_widths, 6);
    }
    SIZE_COLUMN_WIDTH + ITERATIONS_COLUMN_WIDTH + BANDWIDTH_COLUMN_WIDTH + MSG_RATE_COLUMN_WIDTH + TIME_COLUMN_WIDTH + (
    SEPARATOR_WIDTH * (COLUMN_COUNT - 1)) + START_AND_END_SPACES_WIDTH
}

/// Smallest width that the latency table fits in: its natural width.
pub fn min_required_latency_table_width() -> (r: usize)
    ensures
        r == crate::utils::table::natural_width(LatencyRow::spec_column_widths()),
        r == LAT_SIZE_COLUMN_WIDTH + LAT_ITER_COLUMN_WIDTH + LAT_MIN_COLUMN_WIDTH + LAT_MAX_COLUMN_WIDTH
            + LAT_TYP_COLUMN_WIDTH + LAT_AVG_COLUMN_WIDTH + LAT_STDEV_COLUMN_WIDTH + LAT_P99_COLUMN_WIDTH + 10
            + SEPARATOR_WIDTH * (LAT_COLUMN_COUNT - 1) + START_AND_END_SPACES_WIDTH,
        r == 134,
{
    proof {
        reveal_with_fuel(crate::utils::table::sum_widths, 10);
    }
    LAT_SIZE_COLUMN_WIDTH + LAT_ITER_COLUMN_WIDTH + LAT_MIN_COLUMN_WIDTH + LAT_MAX_COLUMN_WIDTH
        + LAT_TYP_COLUMN_WIDTH + LAT_AVG_COLUMN_WIDTH + LAT_STDEV_COLUMN_WIDTH + LAT_P99_COLUMN_WIDTH + 10 + (
    SEPARATOR_WIDTH * (LAT_COLUMN_COUNT - 1)) + START_AND_END_SPACES_WIDTH
}

/// Dashes to the left of a header's text: half of what the text and its
/// margins leave of the width, rounded down.
pub open spec fn header_left_padding(text: Seq<char>, width: nat, margin: nat) -> nat {
    ((width - byte_len(text) - margin * 2) as nat) / 2
}

/// Dashes to the right of a header's text: the rest.
pub open spec fn header_right_padding(text: Seq<char>, width: nat, margin: nat) -> nat {
    ((width - byte_len(text) - margin * 2) - header_left_padding(text, width, margin)) as nat
}

/// A section header: `text` between `margin` spaces on each side, centred
/// in dashes on a line of `width` (the text's length counted in bytes).
pub open spec fn header_text(text: Seq<char>, width: nat, margin: nat) -> Seq<char> {
    repeat_char('-', header_left_padding(text, width, margin)) + repeat_char(' ', margin) + text
        + repeat_char(' ', margin) + repeat_char('-', header_right_padding(text, width, margin))
}

/// The section header of `text` on a line of `width`.
pub fn create_header(text: &str, width: usize, margin_len: usize) -> (r: String)
    requires
        byte_len(text@) + margin_len * 2 <= width,
    ensures
        r@ == header_text(text@, width as nat, margin_len as nat),
{
    let text_len = text.len();
    let total_padding = width - text_len - margin_len * 2;
    let left_padding = total_padding / 2;
    let right_padding = total_padding - left_padding;
    let mut out = String::new();
    push_repeat(&mut out, '-', left_padding);
    push_repeat(&mut out, ' ', margin_len);
    push_str(&mut out, text);
    push_repeat(&mut out, ' ', margin_len);
    push_repeat(&mut out, '-', right_padding);
    assert(out@ =~= header_text(text@, width as nat, margin_len as nat));
    out
}

/// A header of ASCII text fills its line exactly, and its text sits in the
/// middle: the dashes on the right are as many as on the left, or one more.
pub proof fn lemma_header_fills_width(text: Seq<char>, width: nat, margin: nat)
    requires
        is_ascii_chars(text),
        text.len() <= usize::MAX,
        byte_len(text) + margin * 2 <= width,
    ensures
        header_text(text, width, margin).len() == width,
        header_left_padding(text, width, margin) <= header_right_padding(text, width, margin)
            <= header_left_padding(text, width, margin) + 1,
{
    is_ascii_chars_encode_utf8(text);
    assert(byte_len(text) == text.len());
}

/// One key-value pair of the configuration block.
#[derive(Debug)]
pub struct ConfigField {
    pub key: String,
    pub value: String,
}

impl View for ConfigField {
    type V = (Seq<char>, Seq<char>);

    open spec fn view(&self) -> (Seq<char>, Seq<char>) {
        (self.key@, self.value@)
    }
}

impl ConfigField {
    /// The pair of `key` and `value`.
    pub fn new(key: &str, value: String) -> (r: ConfigField)
        ensures
            r@ == (key@, value@),
    {
        ConfigField { key: key.to_owned(), value }
    }
}

/// The key-value pairs of a sequence of fields.
pub open spec fn fields_view(fs: Seq<ConfigField>) -> Seq<(Seq<char>, Seq<char>)> {
    fs.map_values(|f: ConfigField| f@)
}

/// Longest key, in bytes (0 for no fields).
pub open spec fn max_key_width(fs: Seq<(Seq<char>, Seq<char>)>) -> nat
    decreases fs.len(),
{
    if fs.len() == 0 {
        0
    } else {
        let m = max_key_width(fs.drop_last());
        let l = byte_len(fs.last().0) as nat;
        if l > m { l } else { m }
    }
}

/// Longest value, in bytes (0 for no fields).
pub open spec fn max_value_width(fs: Seq<(Seq<char>, Seq<char>)>) -> nat
    decreases fs.len(),
{
    if fs.len() == 0 {
        0
    } else {
        let m = max_value_width(fs.drop_last());
        let l = byte_len(fs.last().1) as nat;
        if l > m { l } else { m }
    }
}

/// Columns needed for `n` fields at `rows` fields per column (rounded up).
pub open spec fn column_count(n: nat, rows: nat) -> nat {
    if n % rows == 0 { n / rows } else { n / rows + 1 }
}

/// One field: a space, the key padded to `kw`, a colon, a space and the
/// value padded to `vw`.
pub open spec fn field_text(f: (Seq<char>, Seq<char>), kw: nat, vw: nat) -> Seq<char> {
    seq![' '] + pad_right(f.0, kw) + seq![':', ' '] + pad_right(f.1, vw)
}

/// The first `k` columns of row `row`: the field of each column that has
/// one, followed by the column spacing unless it is in the last column.
pub open spec fn row_cells(
    fs: Seq<(Seq<char>, Seq<char>)>,
    rows: nat,
    columns: nat,
    kw: nat,
    vw: nat,
    row: nat,
    k: nat,
) -> Seq<char>
    decreases k,
{
    if k == 0 {
        Seq::empty()
    } else {
        let col = (k - 1) as nat;
        let idx = col * rows + row;
        row_cells(fs, rows, columns, kw, vw, row, col) + (if idx < fs.len() {
            field_text(fs[idx as int], kw, vw) + (if col + 1 < columns {
                repeat_char(' ', DEFAULT_COLUMN_SPACING as nat)
            } else {
                Seq::empty()
            })
        } else {
            Seq::empty()
        })
    }
}

/// The first `r` rows of the block, each that holds a field ending in a
/// newline; rows without fields are left out.
pub open spec fn rows_text(
    fs: Seq<(Seq<char>, Seq<char>)>,
    rows: nat,
    columns: nat,
    kw: nat,
    vw: nat,
    r: nat,
) -> Seq<char>
    decreases r,
{
    if r == 0 {
        Seq::empty()
    } else {
        let row = (r - 1) as nat;
        rows_text(fs, rows, columns, kw, vw, row) + (if row < fs.len() {
            row_cells(fs, rows, columns, kw, vw, row, columns) + seq!['\n']
        } else {
            Seq::empty()
        })
    }
}

/// The configuration block of `fs` laid out column by column, `rows`
/// fields to a column, keys and values padded to the longest of each.
pub open spec fn formatted_fields(fs: Seq<(Seq<char>, Seq<char>)>, rows: nat) -> Seq<char> {
    rows_text(fs, rows, column_count(fs.len(), rows), max_key_width(fs), max_value_width(fs), rows)
}

/// Lays out key-value pairs in columns of a fixed number of rows.
pub struct ColumnFormatter {
    fields: Vec<ConfigField>,
    max_key_width: usize,
    max_value_width: usize,
    rows_per_column: usize,
    total_columns: usize,
    column_spacing: usize,
}

proof fn lemma_max_widths_step(fs: Seq<(Seq<char>, Seq<char>)>, i: int)
    requires
        0 <= i < fs.len(),
    ensures
        max_key_width(fs.take(i + 1)) == (if byte_len(fs[i].0) as nat > max_key_width(fs.take(i)) {
            byte_len(fs[i].0) as nat
        } else {
            max_key_width(fs.take(i))
        }),
        max_value_width(fs.take(i + 1)) == (if byte_len(fs[i].1) as nat > max_value_width(fs.take(i)) {
            byte_len(fs[i].1) as nat
        } else {
            max_value_width(fs.take(i))
        }),
{
    assert(fs.take(i + 1).drop_last() =~= fs.take(i));
}

impl ColumnFormatter {
    #[verifier::type_invariant]
    closed spec fn inv(self) -> bool {
        &&& self.rows_per_column > 0
        &&& self.fields@.len() + self.rows_per_column <= usize::MAX
        &&& self.total_columns == column_count(self.fields@.len(), self.rows_per_column as nat)
        &&& self.max_key_width == max_key_width(fields_view(self.fields@))
        &&& self.max_value_width == max_value_width(fields_view(self.fields@))
        &&& self.column_spacing == DEFAULT_COLUMN_SPACING
    }

    pub closed spec fn spec_fields(self) -> Seq<(Seq<char>, Seq<char>)> {
        fields_view(self.fields@)
    }

    pub closed spec fn spec_rows_per_column(self) -> nat {
        self.rows_per_column as nat
    }

    /// Width of one column: the padding, the longest key, the colon and its
    /// spacing, and the longest value.
    pub open spec fn single_column_width(self) -> int {
        KEY_VALUE_PREFIX_PADDING + max_key_width(self.spec_fields()) + max_value_width(self.spec_fields())
            + DEFAULT_KEY_VALUE_SPACING
    }

    pub open spec fn columns(self) -> nat {
        column_count(self.spec_fields().len(), self.spec_rows_per_column())
    }

    /// Width of the whole block: the columns and the spacing between them.
    pub open spec fn total_width(self) -> int {
        if self.columns() <= 1 {
            self.single_column_width()
        } else {
            self.single_column_width() * self.columns() + DEFAULT_COLUMN_SPACING * (self.columns() - 1)
        }
    }

    /// A formatter of `fields`, `rows_per_column` to a column.
    pub fn new(fields: Vec<ConfigField>, rows_per_column: usize) -> (r: ColumnFormatter)
        requires
            rows_per_column > 0,
            fields@.len() + rows_per_column <= usize::MAX,
        ensures
            r.spec_fields() == fields_view(fields@),
            r.spec_rows_per_column() == rows_per_column,
    {
        let ghost fv = fields_view(fields@);
        let mut max_key: usize = 0;
        let mut max_value: usize = 0;
        let mut i: usize = 0;
        while i < fields.len()
            invariant
                i <= fields@.len(),
                fv == fields_view(fields@),
                max_key == max_key_width(fv.take(i as int)),
                max_value == max_value_width(fv.take(i as int)),
            decreases fields@.len() - i,
        {
            proof {
                lemma_max_widths_step(fv, i as int);
            }
            let kl = fields[i].key.as_str().len();
            let vl = fields[i].value.as_str().len();
            if kl > max_key {
                max_key = kl;
            }
            if vl > max_value {
                max_value = vl;
            }
            i = i + 1;
        }
        assert(fv.take(fields@.len() as int) =~= fv);
        let total_fields = fields.len();
        let total_columns = if total_fields % rows_per_column == 0 {
            total_fields / rows_per_column
        } else {
            total_fields / rows_per_column + 1
        };
        ColumnFormatter {
            fields,
            max_key_width: max_key,
            max_value_width: max_value,
            rows_per_column,
            total_columns,
            column_spacing: DEFAULT_COLUMN_SPACING,
        }
    }

    /// Width of one column.
    pub fn get_single_column_width(&self) -> (r: usize)
        requires
            self.single_column_width() <= usize::MAX,
        ensures
            r == self.single_column_width(),
    {
        proof {
            use_type_invariant(self);
        }
        KEY_VALUE_PREFIX_PADDING + self.max_key_width + self.max_value_width + DEFAULT_KEY_VALUE_SPACING
    }

    /// Width of the whole block.
    pub fn get_total_width(&self) -> (r: usize)
        requires
            self.single_column_width() <= usize::MAX,
            self.total_width() <= usize::MAX,
        ensures
            r == self.total_width(),
    {
        proof {
            use_type_invariant(self);
        }
        let single = self.get_single_column_width();
        if self.total_columns <= 1 {
            single
        } else {
            let c = self.total_columns;
            proof {
                assert(DEFAULT_COLUMN_SPACING * (c - 1) >= 0) by (nonlinear_arith)
                    requires c >= 1;
            }
            single * c + self.column_spacing * (c - 1)
        }
    }

    /// Whether the block fits in `max_width` characters.
    pub fn validates_width(&self, max_width: usize) -> (r: bool)
        requires
            self.single_column_width() <= usize::MAX,
            self.total_width() <= usize::MAX,
        ensures
            r == (self.total_width() <= max_width),
    {
        self.get_total_width() <= max_width
    }

    /// The block's text.
    pub fn format(&self) -> (r: String)
        ensures
            r@ == formatted_fields(self.spec_fields(), self.spec_rows_per_column()),
    {
        proof {
            use_type_invariant(self);
        }
        let ghost fv = self.spec_fields();
        let ghost kw = self.max_key_width as nat;
        let ghost vw = self.max_value_width as nat;
        let rows = self.rows_per_column;
        let columns = self.total_columns;
        let n = self.fields.len();
        let mut result = String::new();
        let mut row: usize = 0;
        while row < rows
            invariant
                row <= rows,
                rows == self.rows_per_column,
                columns == self.total_columns,
                n == self.fields@.len(),
                fv == self.spec_fields(),
                kw == self.max_key_width,
                vw == self.max_value_width,
                rows > 0,
                n + rows <= usize::MAX,
                columns == column_count(n as nat, rows as nat),
                self.column_spacing == DEFAULT_COLUMN_SPACING,
                result@ == rows_text(fv, rows as nat, columns as nat, kw, vw, row as nat),
            decreases rows - row,
        {
            let mut row_str = String::new();
            let mut has_field = false;
            let mut col: usize = 0;
            while col < columns
                invariant
                    col <= columns,
                    row < rows,
                    rows == self.rows_per_column,
                    columns == self.total_columns,
                    n == self.fields@.len(),
                    fv == self.spec_fields(),
                    kw == self.max_key_width,
                    vw == self.max_value_width,
                    rows > 0,
                    n + rows <= usize::MAX,
                    columns == column_count(n as nat, rows as nat),
                    self.column_spacing == DEFAULT_COLUMN_SPACING,
                    has_field == (col > 0 && row < n),
                    row_str@ == row_cells(fv, rows as nat, columns as nat, kw, vw, row as nat, col as nat),
                decreases columns - col,
            {
                proof {
                    lemma_column_index_fits(n as nat, rows as nat, col as nat, row as nat);
                }
                let idx = col * rows + row;
                if idx < n {
                    let field = &self.fields[idx];
                    assert(field@ == fv[idx as int]);
                    push_char(&mut row_str, ' ');
                    push_padded(&mut row_str, field.key.as_str(), self.max_key_width);
                    push_char(&mut row_str, ':');
                    push_char(&mut row_str, ' ');
                    push_padded(&mut row_str, field.value.as_str(), self.max_value_width);
                    if col < columns - 1 {
                        push_repeat(&mut row_str, ' ', self.column_spacing);
                    }
                    has_field = true;
                }
                proof {
                    if col == 0 {
                        assert(idx == row);
                    } else {
                        assert(idx >= row) by (nonlinear_arith)
                            requires idx == col * rows + row, col >= 0, rows >= 0;
                    }
                }
                col = col + 1;
                assert(row_str@ =~= row_cells(fv, rows as nat, columns as nat, kw, vw, row as nat, col as nat));
            }
            proof {
                if row < n {
                    assert(columns >= 1) by (nonlinear_arith)
                        requires columns == column_count(n as nat, rows as nat), n > 0, rows > 0;
                }
            }
            if has_field {
                push_str(&mut result, row_str.as_str());
                push_char(&mut result, '\n');
            }
            row = row + 1;
            assert(result@ =~= rows_text(fv, rows as nat, columns as nat, kw, vw, row as nat));
        }
        result
    }
}

/// A field index `col * rows + row` of a column of the block is below
/// `n + rows`.
proof fn lemma_column_index_fits(n: nat, rows: nat, col: nat, row: nat)
    requires
        rows > 0,
        row < rows,
        col < column_count(n, rows),
    ensures
        col * rows + row < n + rows,
{
    vstd::arithmetic::div_mod::lemma_fundamental_div_mod(n as int, rows as int);
    assert(col * rows + row < n + rows) by (nonlinear_arith)
        requires
            rows > 0,
            row < rows,
            col < (if n % rows == 0 { n / rows } else { n / rows + 1 }),
            n == rows * (n / rows) + n % rows,
            n % rows < rows,
    ;
}

/// The settings a report shows above its results.
pub struct TestConfiguration {
    pub device: String,
    pub transport: String,
    pub qp_count: u32,
    pub connection_type: String,
    pub mtu: u32,
    pub gid_type: String,
    pub rx_depth: u32,
    pub tx_depth: u32,
    pub post_list: u32,
    pub test_type: TestType,
    pub uses_immediate_data: bool,
}

impl TestConfiguration {
    /// Whether the test uses receive queues: sends always do, writes only
    /// with immediate data, reads never.
    pub open spec fn shows_rx_depth(&self) -> bool {
        match self.test_type {
            TestType::SendLatency | TestType::SendBandwidth => true,
            TestType::WriteLatency | TestType::WriteBandwidth => self.uses_immediate_data,
            TestType::ReadLatency | TestType::ReadBandwidth => false,
        }
    }

    /// The fields of the configuration block, in order; the receive depth
    /// only where receive queues are used.
    pub open spec fn config_fields(&self) -> Seq<(Seq<char>, Seq<char>)> {
        seq![
            ("Device"@, self.device@),
            ("Transport"@, self.transport@),
            ("QP Count"@, decimal(self.qp_count as nat)),
            ("Connection Type"@, self.connection_type@),
            ("MTU"@, decimal(self.mtu as nat)),
            ("GID Type"@, self.gid_type@),
        ] + (if self.shows_rx_depth() {
            seq![("Rx Depth"@, decimal(self.rx_depth as nat))]
        } else {
            Seq::empty()
        }) + seq![("Tx Depth"@, decimal(self.tx_depth as nat)), ("Post List"@, decimal(self.post_list as nat))]
    }

    /// The fields of the configuration block.
    pub fn to_config_fields(&self) -> (r: Vec<ConfigField>)
        ensures
            fields_view(r@) == self.config_fields(),
    {
        let mut fields: Vec<ConfigField> = Vec::new();
        fields.push(ConfigField::new("Device", self.device.clone()));
        fields.push(ConfigField::new("Transport", self.transport.clone()));
        fields.push(ConfigField::new("QP Count", u64_to_decimal(self.qp_count as u64)));
        fields.push(ConfigField::new("Connection Type", self.connection_type.clone()));
        fields.push(ConfigField::new("MTU", u64_to_decimal(self.mtu as u64)));
        fields.push(ConfigField::new("GID Type", self.gid_type.clone()));
        let needs_rx = match self.test_type {
            TestType::SendLatency | TestType::SendBandwidth => true,
            TestType::WriteLatency | TestType::WriteBandwidth => self.uses_immediate_data,
            TestType::ReadLatency | TestType::ReadBandwidth => false,
        };
        if needs_rx {
            fields.push(ConfigField::new("Rx Depth", u64_to_decimal(self.rx_depth as u64)));
        }
        fields.push(ConfigField::new("Tx Depth", u64_to_decimal(self.tx_depth as u64)));
        fields.push(ConfigField::new("Post List", u64_to_decimal(self.post_list as u64)));
        assert(fields_view(fields@) =~= self.config_fields());
        fields
    }

    /// The configuration block: one column of key-value pairs.
    pub fn to_string(&self) -> (r: String)
        ensures
            r@ == formatted_fields(self.config_fields(), DEFAULT_ROWS_PER_COLUMN as nat),
    {
        let fields = self.to_config_fields();
        let formatter = ColumnFormatter::new(fields, DEFAULT_ROWS_PER_COLUMN);
        formatter.format()
    }
}

/// The two queue pair numbers and start PSNs of one connected queue pair.
#[derive(Debug, Clone, Copy)]
pub struct QueuePairDetail {
    pub qp_index: u32,
    pub local_qpn: u32,
    pub local_psn: u32,
    pub remote_qpn: u32,
    pub remote_psn: u32,
}

/// The line of one queue pair: its index in eight decimal digits, the
/// queue pair numbers in four hex digits and the PSNs in six, each at
/// least.
pub open spec fn qp_detail_line(d: QueuePairDetail) -> Seq<char> {
    " QP #"@ + pad_left(decimal(d.qp_index as nat), '0', 8) + ": (Local QPN: 0x"@ + pad_left(
        lower_hex(d.local_qpn as nat),
        '0',
        4,
    ) + " PSN: 0x"@ + pad_left(lower_hex(d.local_psn as nat), '0', 6) + ") -> (Remote QPN: 0x"@ + pad_left(
        lower_hex(d.remote_qpn as nat),
        '0',
        4,
    ) + " PSN: 0x"@ + pad_left(lower_hex(d.remote_psn as nat), '0', 6) + ")\n"@
}

/// The lines of the first `k` queue pairs.
pub open spec fn qp_detail_lines(details: Seq<QueuePairDetail>, k: nat) -> Seq<char>
    decreases k,
{
    if k == 0 {
        Seq::empty()
    } else {
        qp_detail_lines(details, (k - 1) as nat) + qp_detail_line(details[k - 1])
    }
}

/// The connection details: a line per queue pair, then the local and the
/// remote GID.
pub open spec fn qp_details_text(details: Seq<QueuePairDetail>, local_gid: Gid, remote_gid: Gid) -> Seq<char> {
    qp_detail_lines(details, details.len()) + " Local  GID: GID: "@ + gid_text(local_gid) + "\n"@
        + " Remote GID: GID: "@ + gid_text(remote_gid)
}

/// The connection details block of a report.
pub fn format_qp_details(details: &[QueuePairDetail], local_gid: &Gid, remote_gid: &Gid) -> (r: String)
    ensures
        r@ == qp_details_text(details@, *local_gid, *remote_gid),
{
    let mut output = String::new();
    let mut i: usize = 0;
    while i < details.len()
        invariant
            i <= details@.len(),
            output@ == qp_detail_lines(details@, i as nat),
        decreases details@.len() - i,
    {
        let d = details[i];
        let ghost before = output@;
        push_str(&mut output, " QP #");
        let index = u64_to_decimal_padded(d.qp_index as u64, 8);
        push_str(&mut output, index.as_str());
        push_str(&mut output, ": (Local QPN: 0x");
        let lq = u64_to_hex_padded(d.local_qpn as u64, 4);
        push_str(&mut output, lq.as_str());
        push_str(&mut output, " PSN: 0x");
        let lp = u64_to_hex_padded(d.local_psn as u64, 6);
        push_str(&mut output, lp.as_str());
        push_str(&mut output, ") -> (Remote QPN: 0x");
        let rq = u64_to_hex_padded(d.remote_qpn as u64, 4);
        push_str(&mut output, rq.as_str());
        push_str(&mut output, " PSN: 0x");
        let rp = u64_to_hex_padded(d.remote_psn as u64, 6);
        push_str(&mut output, rp.as_str());
        push_str(&mut output, ")\n");
        assert(output@ =~= before + qp_detail_line(d));
        i = i + 1;
    }
    push_str(&mut output, " Local  GID: GID: ");
    push_gid(&mut output, local_gid);
    push_str(&mut output, "\n");
    push_str(&mut output, " Remote GID: GID: ");
    push_gid(&mut output, remote_gid);
    assert(output@ =~= qp_details_text(details@, *local_gid, *remote_gid));
    output
}

/// The lines a report prints before its results: the test's header, the
/// configuration block, the connection header and the connection details
/// followed by an empty line.
pub open spec fn headers_only_text(
    config: &TestConfiguration,
    details: Seq<QueuePairDetail>,
    local_gid: Gid,
    remote_gid: Gid,
    header_width: nat,
) -> Seq<Seq<char>> {
    seq![
        header_text(config.test_type.title(), header_width, DEFAULT_HEADER_MARGIN_LEN as nat),
        formatted_fields(config.config_fields(), DEFAULT_ROWS_PER_COLUMN as nat),
        header_text("Connection Details"@, header_width, DEFAULT_HEADER_MARGIN_LEN as nat),
        qp_details_text(details, local_gid, remote_gid) + "\n"@,
    ]
}

/// The lines of a report's headers, configuration and connection details,
/// each to be printed on a line of its own.
pub fn headers_only_lines(
    config: &TestConfiguration,
    details: &[QueuePairDetail],
    local_gid: &Gid,
    remote_gid: &Gid,
    header_width: usize,
) -> (r: Vec<String>)
    requires
        byte_len(config.test_type.title()) + DEFAULT_HEADER_MARGIN_LEN * 2 <= header_width,
        byte_len("Connection Details"@) + DEFAULT_HEADER_MARGIN_LEN * 2 <= header_width,
    ensures
        r@.len() == 4,
        forall|i: int| 0 <= i < 4 ==> #[trigger] r@[i]@ == headers_only_text(
            config,
            details@,
            *local_gid,
            *remote_gid,
            header_width as nat,
        )[i],
{
    let mut lines: Vec<String> = Vec::new();
    let title = config.test_type.to_string();
    lines.push(create_header(title.as_str(), header_width, DEFAULT_HEADER_MARGIN_LEN));
    lines.push(config.to_string());
    lines.push(create_header("Connection Details", header_width, DEFAULT_HEADER_MARGIN_LEN));
    let mut qp = format_qp_details(details, local_gid, remote_gid);
    push_str(&mut qp, "\n");
    lines.push(qp);
    lines
}

/// A row of the bandwidth table, its measured rates already written out
/// (with four decimals).
#[derive(Debug, Clone)]
pub struct BandwidthRow {
    pub size: u32,
    pub iterations: u32,
    pub bandwidth: String,
    pub msg_rate: String,
    pub time: String,
}

impl TableRow for BandwidthRow {
    open spec fn spec_header() -> Seq<Seq<char>> {
        seq!["Size (B)"@, "Iterations"@, "Avg BW (Gb/s)"@, "MsgRate (Mpps)"@, "Time"@]
    }

    open spec fn spec_column_widths() -> Seq<usize> {
        seq![SIZE_COLUMN_WIDTH, ITERATIONS_COLUMN_WIDTH, BANDWIDTH_COLUMN_WIDTH, MSG_RATE_COLUMN_WIDTH, TIME_COLUMN_WIDTH]
    }

    open spec fn spec_values(&self) -> Seq<Seq<char>> {
        seq![
            decimal(self.size as nat),
            decimal(self.iterations as nat),
            self.bandwidth@,
            self.msg_rate@,
            self.time@,
        ]
    }

    fn header() -> (r: Vec<&'static str>) {
        let r = vec!["Size (B)", "Iterations", "Avg BW (Gb/s)", "MsgRate (Mpps)", "Time"];
        assert(strs_view(r@) =~= Self::spec_header());
        r
    }

    fn values(&self) -> (r: Vec<String>) {
        let r = vec![
            u64_to_decimal(self.size as u64),
            u64_to_decimal(self.iterations as u64),
            self.bandwidth.clone(),
            self.msg_rate.clone(),
            self.time.clone(),
        ];
        assert(strings_view(r@) =~= self.spec_values());
        r
    }

    fn column_widths() -> (r: Vec<usize>) {
        let r = vec![SIZE_COLUMN_WIDTH, ITERATIONS_COLUMN_WIDTH, BANDWIDTH_COLUMN_WIDTH, MSG_RATE_COLUMN_WIDTH, TIME_COLUMN_WIDTH];
        assert(r@ =~= Self::spec_column_widths());
        r
    }
}

/// A row of the latency table, its latencies already written out (with
/// three decimals, in microseconds).
#[derive(Debug, Clone)]
pub struct LatencyRow {
    pub size: u32,
    pub iterations: u32,
    pub min_latency: String,
    pub max_latency: String,
    pub typical_latency: String,
    pub avg_latency: String,
    pub stdev_latency: String,
    pub p99_latency: String,
    pub p999_latency: String,
}

impl TableRow for LatencyRow {
    open spec fn spec_header() -> Seq<Seq<char>> {
        seq![
            "Size (B)"@,
            "Iterations"@,
            "Min (us)"@,
            "Max (us)"@,
            "P50 (us)"@,
            "Avg (us)"@,
            "Stdev (us)"@,
            "P99 (us)"@,
            "P999 (us)"@,
        ]
    }

    open spec fn spec_column_widths() -> Seq<usize> {
        seq![
            LAT_SIZE_COLUMN_WIDTH,
            LAT_ITER_COLUMN_WIDTH,
            LAT_MIN_COLUMN_WIDTH,
            LAT_MAX_COLUMN_WIDTH,
            LAT_TYP_COLUMN_WIDTH,
            LAT_AVG_COLUMN_WIDTH,
            LAT_STDEV_COLUMN_WIDTH,
            LAT_P99_COLUMN_WIDTH,
            10,
        ]
    }

    open spec fn spec_values(&self) -> Seq<Seq<char>> {
        seq![
            decimal(self.size as nat),
            decimal(self.iterations as nat),
            self.min_latency@,
            self.max_latency@,
            self.typical_latency@,
            self.avg_latency@,
            self.stdev_latency@,
            self.p99_latency@,
            self.p999_latency@,
        ]
    }

    fn header() -> (r: Vec<&'static str>) {
        let r = vec![
            "Size (B)",
            "Iterations",
            "Min (us)",
            "Max (us)",
            "P50 (us)",
            "Avg (us)",
            "Stdev (us)",
            "P99 (us)",
            "P999 (us)",
        ];
        assert(strs_view(r@) =~= Self::spec_header());
        r
    }

    fn values(&self) -> (r: Vec<String>) {
        let r = vec![
            u64_to_decimal(self.size as u64),
            u64_to_decimal(self.iterations as u64),
            self.min_latency.clone(),
            self.max_latency.clone(),
            self.typical_latency.clone(),
            self.avg_latency.clone(),
            self.stdev_latency.clone(),
            self.p99_latency.clone(),
            self.p999_latency.clone(),
        ];
        assert(strings_view(r@) =~= self.spec_values());
        r
    }

    fn column_widths() -> (r: Vec<usize>) {
        let r = vec![
            LAT_SIZE_COLUMN_WIDTH,
            LAT_ITER_COLUMN_WIDTH,
            LAT_MIN_COLUMN_WIDTH,
            LAT_MAX_COLUMN_WIDTH,
            LAT_TYP_COLUMN_WIDTH,
            LAT_AVG_COLUMN_WIDTH,
            LAT_STDEV_COLUMN_WIDTH,
            LAT_P99_COLUMN_WIDTH,
            10,
        ];
        assert(r@ =~= Self::spec_column_widths());
        r
    }
}

/// Each results table fits in the width of its section headers, so it can
/// be stretched to them.
pub proof fn lemma_tables_fit_headers()
    ensures
        crate::utils::table::natural_width(BandwidthRow::spec_column_widths()) <= DEFAULT_HEADER_WIDTH,
        crate::utils::table::natural_width(LatencyRow::spec_column_widths()) <= DEFAULT_LAT_HEADER_WIDTH,
{
    reveal_with_fuel(crate::utils::table::sum_widths, 10);
}


/// The report's test type of a send, write or read keeps both what was
/// measured and the operation: it is a latency test exactly when latency
/// was measured, and it reports on that operation. Its title therefore
/// names the operation and the measurement.
pub proof fn lemma_test_type_keeps_operation(op: Operation, is_latency: bool)
    requires
        !(op is Atomic),
    ensures
        TestType::spec_for_operation(op, is_latency).spec_is_latency() == is_latency,
        TestType::spec_for_operation(op, is_latency).spec_operation() == op,
        TestType::spec_for_operation(op, is_latency).title() == "RDMA "@ + (match op {
            Operation::Send => "Send"@,
            Operation::Write => "Write"@,
            _ => "Read"@,
        }) + (if is_latency { " Latency Test"@ } else { " Bandwidth Test"@ }),
{
    reveal_strlit("RDMA ");
    reveal_strlit("Send");
    reveal_strlit("Write");
    reveal_strlit("Read");
    reveal_strlit(" Latency Test");
    reveal_strlit(" Bandwidth Test");
    reveal_strlit("RDMA Send Bandwidth Test");
    reveal_strlit("RDMA Send Latency Test");
    reveal_strlit("RDMA Write Bandwidth Test");
    reveal_strlit("RDMA Write Latency Test");
    reveal_strlit("RDMA Read Bandwidth Test");
    reveal_strlit("RDMA Read Latency Test");
    let t = TestType::spec_for_operation(op, is_latency);
    let name = match op {
        Operation::Send => "Send"@,
        Operation::Write => "Write"@,
        _ => "Read"@,
    };
    let kind = if is_latency { " Latency Test"@ } else { " Bandwidth Test"@ };
    assert(t.title() =~= "RDMA "@ + name + kind);
}

} // verus!
