use vstd::prelude::*;
use vstd::utf8::encode_utf8;
use crate::utils::text::{pad_right, push_char, push_padded, push_repeat, push_str, repeat_char};

verus! {

/// The views of a sequence of string slices.
pub open spec fn strs_view(s: Seq<&str>) -> Seq<Seq<char>> {
    s.map_values(|x: &str| x@)
}

/// The views of a sequence of strings.
pub open spec fn strings_view(s: Seq<String>) -> Seq<Seq<char>> {
    s.map_values(|x: String| x@)
}

/// A type whose values are rows of a table: its column headers and widths,
/// and the cell texts of each value.
pub trait TableRow {
    spec fn spec_header() -> Seq<Seq<char>>;

    spec fn spec_column_widths() -> Seq<usize>;

    spec fn spec_values(&self) -> Seq<Seq<char>>;

    fn header() -> (r: Vec<&'static str>)
        ensures
            strs_view(r@) == Self::spec_header(),
    ;

    fn values(&self) -> (r: Vec<String>)
        ensures
            strings_view(r@) == self.spec_values(),
    ;

    fn column_widths() -> (r: Vec<usize>)
        ensures
            r@ == Self::spec_column_widths(),
    ;
}

/// Number of UTF-8 bytes of a text, as `str::len` reports it.
pub open spec fn byte_len(s: Seq<char>) -> usize {
    encode_utf8(s).len() as usize
}

/// Pushing a string pushes its text onto the texts.
pub proof fn lemma_strings_view_push(s: Seq<String>, x: String)
    ensures
        strings_view(s.push(x)) == strings_view(s).push(x@),
{
    assert(strings_view(s.push(x)) =~= strings_view(s).push(x@));
}

/// One more string of a prefix adds its text to the prefix's texts.
pub proof fn lemma_strs_view_take(s: Seq<&str>, i: int)
    requires
        0 <= i < s.len(),
    ensures
        strs_view(s.take(i + 1)) == strs_view(s.take(i)).push(s[i]@),
{
    assert(strs_view(s.take(i + 1)) =~= strs_view(s.take(i)).push(s[i]@));
}

/// A cell: texts longer than the column (in bytes) are cut to the column
/// width in characters, others are padded with spaces to it.
pub open spec fn cell_text(v: Seq<char>, width: nat) -> Seq<char> {
    if byte_len(v) > width {
        v.take(if width <= v.len() { width as int } else { v.len() as int })
    } else {
        pad_right(v, width)
    }
}

/// The first `k` cells of a row, each after " " (first) or " | ".
pub open spec fn row_prefix(values: Seq<Seq<char>>, widths: Seq<usize>, k: nat) -> Seq<char>
    decreases k,
{
    if k == 0 {
        Seq::empty()
    } else {
        let i = (k - 1) as int;
        row_prefix(values, widths, (k - 1) as nat) + (if i == 0 { seq![' '] } else { seq![' ', '|', ' '] }) + cell_text(
            values[i],
            widths[i] as nat,
        )
    }
}

pub open spec fn min_nat(a: nat, b: nat) -> nat {
    if a <= b { a } else { b }
}

/// A table row: one cell per column that has a value, then a trailing space.
pub open spec fn row_text(values: Seq<Seq<char>>, widths: Seq<usize>) -> Seq<char> {
    row_prefix(values, widths, min_nat(values.len(), widths.len())) + seq![' ']
}

/// The first `k` columns of the line under the header: dashes where the
/// row has spaces and cells, and a cross where it has the column bar.
pub open spec fn separator_prefix(widths: Seq<usize>, k: nat) -> Seq<char>
    decreases k,
{
    if k == 0 {
        Seq::empty()
    } else {
        let i = (k - 1) as int;
        separator_prefix(widths, (k - 1) as nat) + (if i == 0 { seq!['-'] } else { seq!['-', '┼', '-'] }) + repeat_char(
            '-',
            widths[i] as nat,
        )
    }
}

pub open spec fn separator_text(widths: Seq<usize>) -> Seq<char> {
    separator_prefix(widths, widths.len()) + seq!['-']
}

/// Values that fit the layout law: one per column, each as many bytes as
/// characters (ASCII text, say), none holding a column bar.
pub open spec fn plain_cells(values: Seq<Seq<char>>, widths: Seq<usize>) -> bool {
    &&& values.len() == widths.len()
    &&& forall|i: int| 0 <= i < values.len() ==> byte_len(#[trigger] values[i]) == values[i].len()
    &&& forall|i: int, t: int| 0 <= i < values.len() && 0 <= t < values[i].len() ==> #[trigger] values[i][t] != '|'
}

proof fn lemma_cell_plain(v: Seq<char>, w: nat)
    requires
        byte_len(v) == v.len(),
        forall|t: int| 0 <= t < v.len() ==> v[t] != '|',
    ensures
        cell_text(v, w).len() == w,
        forall|t: int| 0 <= t < cell_text(v, w).len() ==> cell_text(v, w)[t] != '|',
{
    if byte_len(v) > w {
        assert(cell_text(v, w) == v.take(w as int));
    } else {
        let c = cell_text(v, w);
        assert forall|t: int| 0 <= t < c.len() implies c[t] != '|' by {
            if t >= v.len() {
                assert(c[t] == ' ');
            } else {
                assert(c[t] == v[t]);
            }
        }
    }
}

proof fn lemma_prefix_under_row(values: Seq<Seq<char>>, widths: Seq<usize>, k: nat)
    requires
        plain_cells(values, widths),
        k <= widths.len(),
    ensures
        separator_prefix(widths, k).len() == row_prefix(values, widths, k).len(),
        forall|j: int|
            0 <= j < separator_prefix(widths, k).len() ==> {
                &&& (separator_prefix(widths, k)[j] == '┼') == (row_prefix(values, widths, k)[j] == '|')
                &&& separator_prefix(widths, k)[j] != '┼' ==> separator_prefix(widths, k)[j] == '-'
            },
    decreases k,
{
    if k > 0 {
        let i = (k - 1) as int;
        lemma_prefix_under_row(values, widths, (k - 1) as nat);
        lemma_cell_plain(values[i], widths[i] as nat);
        let sp0 = separator_prefix(widths, (k - 1) as nat);
        let rp0 = row_prefix(values, widths, (k - 1) as nat);
        let ss: Seq<char> = if i == 0 { seq!['-'] } else { seq!['-', '┼', '-'] };
        let rs: Seq<char> = if i == 0 { seq![' '] } else { seq![' ', '|', ' '] };
        let cell = cell_text(values[i], widths[i] as nat);
        let dashes = repeat_char('-', widths[i] as nat);
        assert(cell.len() == dashes.len());
        let sp = separator_prefix(widths, k);
        let rp = row_prefix(values, widths, k);
        assert(sp == sp0 + ss + dashes);
        assert(rp == rp0 + rs + cell);
        assert forall|j: int| 0 <= j < sp.len() implies {
            &&& (sp[j] == '┼') == (rp[j] == '|')
            &&& sp[j] != '┼' ==> sp[j] == '-'
        } by {
            if j < sp0.len() {
                assert(sp[j] == sp0[j]);
                assert(rp[j] == rp0[j]);
            } else if j < sp0.len() + ss.len() {
                assert(sp[j] == ss[j - sp0.len()]);
                assert(rp[j] == rs[j - sp0.len()]);
            } else {
                let t = j - sp0.len() - ss.len();
                assert(sp[j] == dashes[t]);
                assert(rp[j] == cell[t]);
            }
        }
    }
}

/// The line under the header lies under the header row: as long as it,
/// with a cross under each column bar and a dash everywhere else, when the
/// headers are one per column, as many bytes as characters (so no cell is
/// cut short) and hold no bar themselves.
pub proof fn lemma_separator_under_row(values: Seq<Seq<char>>, widths: Seq<usize>)
    requires
        plain_cells(values, widths),
    ensures
        separator_text(widths).len() == row_text(values, widths).len(),
        forall|j: int|
            0 <= j < separator_text(widths).len() ==> {
                &&& (separator_text(widths)[j] == '┼') == (row_text(values, widths)[j] == '|')
                &&& separator_text(widths)[j] != '┼' ==> separator_text(widths)[j] == '-'
            },
{
    lemma_prefix_under_row(values, widths, widths.len());
    let sp = separator_prefix(widths, widths.len());
    let rp = row_prefix(values, widths, widths.len());
    assert(min_nat(values.len(), widths.len()) == widths.len());
    let st = separator_text(widths);
    let rt = row_text(values, widths);
    assert(st == sp + seq!['-']);
    assert(rt == rp + seq![' ']);
    assert forall|j: int| 0 <= j < st.len() implies {
        &&& (st[j] == '┼') == (rt[j] == '|')
        &&& st[j] != '┼' ==> st[j] == '-'
    } by {
        if j < sp.len() {
            assert(st[j] == sp[j]);
            assert(rt[j] == rp[j]);
        }
    }
}

/// Sum of the first `k` widths.
pub open spec fn sum_widths(widths: Seq<usize>, k: nat) -> int
    decreases k,
{
    if k == 0 {
        0
    } else {
        sum_widths(widths, (k - 1) as nat) + widths[k - 1]
    }
}

/// Width of the leading and trailing space and the " | " between columns.
pub open spec fn separators_width(columns: nat) -> int {
    2 + (columns - 1) * 3
}

/// Width of the natural table: all columns and their separators.
pub open spec fn natural_width(widths: Seq<usize>) -> int {
    sum_widths(widths, widths.len()) + separators_width(widths.len())
}

/// Width of the closing line of a table without a target width: that of
/// its header row.
pub open spec fn computed_bottom_width(widths: Seq<usize>) -> int {
    sum_widths(widths, widths.len()) + (widths.len() - 1) * 3 + 2
}

/// Column widths stretched to `total_width`: the last column takes what the
/// others and the separators leave.
pub open spec fn stretched_widths(widths: Seq<usize>, total_width: usize) -> Seq<usize> {
    let n = widths.len();
    widths.update(
        n - 1,
        (total_width - sum_widths(widths, (n - 1) as nat) - separators_width(n)) as usize,
    )
}

/// Streaming table printer: it remembers whether the header was printed and
/// the width the table is stretched to. Its `print_*` functions give the
/// lines to print, in order.
pub struct TableFormatter {
    column_widths: Vec<usize>,
    headers: Vec<String>,
    header_printed: bool,
    target_width: Option<usize>,
}

fn strs_to_strings(v: &Vec<&'static str>) -> (r: Vec<String>)
    ensures
        strings_view(r@) == strs_view(v@),
{
    let mut r: Vec<String> = Vec::new();
    let mut i: usize = 0;
    while i < v.len()
        invariant
            i <= v.len(),
            strings_view(r@) == strs_view(v@.take(i as int)),
        decreases v.len() - i,
    {
        let s: String = v[i].to_owned();
        proof {
            lemma_strings_view_push(r@, s);
            lemma_strs_view_take(v@, i as int);
        }
        r.push(s);
        i = i + 1;
    }
    assert(v@.take(v.len() as int) =~= v@);
    r
}

proof fn lemma_sum_widths_bound(widths: Seq<usize>, k: nat, j: nat)
    requires
        j <= k <= widths.len(),
    ensures
        0 <= sum_widths(widths, j) <= sum_widths(widths, k),
    decreases k,
{
    if k > j {
        lemma_sum_widths_bound(widths, (k - 1) as nat, j);
    } else if k > 0 {
        lemma_sum_widths_bound(widths, (k - 1) as nat, (k - 1) as nat);
    }
}

proof fn lemma_sum_widths_update(widths: Seq<usize>, k: nat, i: int, v: usize)
    requires
        k <= widths.len(),
        0 <= i < widths.len(),
    ensures
        sum_widths(widths.update(i, v), k) == sum_widths(widths, k) + (if i < k { v - widths[i] } else { 0 }),
    decreases k,
{
    if k > 0 {
        lemma_sum_widths_update(widths, (k - 1) as nat, i, v);
    }
}

/// Sum of the first `k` widths, without overflow when the whole sum fits.
fn sum_prefix(widths: &Vec<usize>, k: usize) -> (r: usize)
    requires
        k <= widths.len(),
        sum_widths(widths@, widths@.len()) <= usize::MAX,
    ensures
        r == sum_widths(widths@, k as nat),
{
    let mut s: usize = 0;
    let mut i: usize = 0;
    while i < k
        invariant
            i <= k <= widths.len(),
            sum_widths(widths@, widths@.len()) <= usize::MAX,
            s == sum_widths(widths@, i as nat),
        decreases k - i,
    {
        proof {
            lemma_sum_widths_bound(widths@, widths@.len(), (i + 1) as nat);
        }
        s = s + widths[i];
        i = i + 1;
    }
    s
}

impl TableFormatter {
    pub closed spec fn spec_column_widths(&self) -> Seq<usize> {
        self.column_widths@
    }

    pub closed spec fn spec_headers(&self) -> Seq<Seq<char>> {
        strings_view(self.headers@)
    }

    pub closed spec fn spec_header_printed(&self) -> bool {
        self.header_printed
    }

    pub closed spec fn spec_target_width(&self) -> Option<usize> {
        self.target_width
    }

    /// The two header lines: the header row and the line under it.
    pub open spec fn header_lines(&self) -> Seq<Seq<char>> {
        seq![row_text(self.spec_headers(), self.spec_column_widths()), separator_text(self.spec_column_widths())]
    }

    /// The header lines if the header was not printed yet.
    pub open spec fn pending_header_lines(&self) -> Seq<Seq<char>> {
        if self.spec_header_printed() { Seq::empty() } else { self.header_lines() }
    }

    /// The closing line: dashes as wide as the target width, or as the
    /// table's own width.
    pub open spec fn bottom_line(&self) -> Seq<char> {
        match self.spec_target_width() {
            Some(t) => repeat_char('-', t as nat),
            None => repeat_char('-', computed_bottom_width(self.spec_column_widths()) as nat),
        }
    }

    /// The bottom line can be computed.
    pub open spec fn bottom_defined(&self) -> bool {
        self.spec_target_width() is None ==> {
            &&& self.spec_column_widths().len() >= 1
            &&& computed_bottom_width(self.spec_column_widths()) <= usize::MAX
        }
    }

    /// The column widths in use.
    pub fn get_column_widths(&self) -> (r: &[usize])
        ensures
            r@ == self.spec_column_widths(),
    {
        self.column_widths.as_slice()
    }

    /// A formatter with the natural column widths of `T`.
    pub fn new<T: TableRow>() -> (r: Self)
        ensures
            r.spec_headers() == T::spec_header(),
            r.spec_column_widths() == T::spec_column_widths(),
            !r.spec_header_printed(),
            r.spec_target_width() is None,
    {
        let h = T::header();
        let headers = strs_to_strings(&h);
        let column_widths = T::column_widths();
        TableFormatter { column_widths, headers, header_printed: false, target_width: None }
    }

    /// A formatter stretched to `total_width` characters: the last column
    /// takes the room the other columns and the separators leave. The
    /// target width must be at least the natural width of the table.
    pub fn with_total_width<T: TableRow>(total_width: usize) -> (r: Self)
        requires
            T::spec_column_widths().len() >= 1,
            natural_width(T::spec_column_widths()) <= usize::MAX,
            natural_width(T::spec_column_widths()) <= total_width,
        ensures
            r.spec_headers() == T::spec_header(),
            r.spec_column_widths() == stretched_widths(T::spec_column_widths(), total_width),
            natural_width(r.spec_column_widths()) == total_width,
            !r.spec_header_printed(),
            r.spec_target_width() == Some(total_width),
    {
        let h = T::header();
        let headers = strs_to_strings(&h);
        let mut column_widths = T::column_widths();
        let n = column_widths.len();
        let ghost w0 = column_widths@;
        proof {
            lemma_sum_widths_bound(w0, n as nat, (n - 1) as nat);
        }
        let separators = 2 + (n - 1) * 3;
        let used_width = sum_prefix(&column_widths, n - 1);
        if total_width > used_width + separators {
            let remaining = total_width - used_width - separators;
            column_widths.set(n - 1, remaining);
        }
        proof {
            let v = (total_width - sum_widths(w0, (n - 1) as nat) - separators_width(n as nat)) as usize;
            assert(sum_widths(w0, n as nat) == sum_widths(w0, (n - 1) as nat) + w0[n - 1]);
            assert(column_widths@ =~= w0.update(n - 1, v));
            lemma_sum_widths_update(w0, n as nat, n - 1, v);
            lemma_sum_widths_update(w0, (n - 1) as nat, n - 1, v);
        }
        TableFormatter { column_widths, headers, header_printed: false, target_width: Some(total_width) }
    }

    fn render_row(&self, values: &Vec<String>) -> (r: String)
        ensures
            r@ == row_text(strings_view(values@), self.spec_column_widths()),
    {
        let mut out = String::new();
        let k = if values.len() < self.column_widths.len() { values.len() } else { self.column_widths.len() };
        let ghost vs = strings_view(values@);
        let mut i: usize = 0;
        while i < k
            invariant
                i <= k,
                k == min_nat(values@.len(), self.column_widths@.len()),
                vs == strings_view(values@),
                out@ == row_prefix(vs, self.column_widths@, i as nat),
            decreases k - i,
        {
            if i == 0 {
                push_char(&mut out, ' ');
            } else {
                push_char(&mut out, ' ');
                push_char(&mut out, '|');
                push_char(&mut out, ' ');
            }
            let value = values[i].as_str();
            let width = self.column_widths[i];
            assert(value@ == vs[i as int]);
            if value.len() > width {
                let n = char_count_of(value);
                let take = if width <= n { width } else { n };
                let cut = value.substring_char(0, take);
                push_str(&mut out, cut);
            } else {
                push_padded(&mut out, value, width);
            }
            i = i + 1;
            proof {
                let j = (i - 1) as int;
                assert(out@ =~= row_prefix(vs, self.column_widths@, i as nat));
            }
        }
        push_char(&mut out, ' ');
        assert(out@ =~= row_text(vs, self.column_widths@));
        out
    }

    fn render_separator(&self) -> (r: String)
        ensures
            r@ == separator_text(self.spec_column_widths()),
    {
        let mut out = String::new();
        let n = self.column_widths.len();
        let mut i: usize = 0;
        while i < n
            invariant
                i <= n,
                n == self.column_widths@.len(),
                out@ == separator_prefix(self.column_widths@, i as nat),
            decreases n - i,
        {
            if i == 0 {
                push_char(&mut out, '-');
            } else {
                push_char(&mut out, '-');
                push_char(&mut out, '┼');
                push_char(&mut out, '-');
            }
            push_repeat(&mut out, '-', self.column_widths[i]);
            i = i + 1;
            assert(out@ =~= separator_prefix(self.column_widths@, i as nat));
        }
        push_char(&mut out, '-');
        out
    }

    /// The header lines (header row and the line under it) the first time,
    /// nothing afterwards; the header then counts as printed.
    pub fn print_header(&mut self) -> (r: Vec<String>)
        ensures
            strings_view(r@) == old(self).pending_header_lines(),
            final(self).spec_header_printed(),
            final(self).spec_headers() == old(self).spec_headers(),
            final(self).spec_column_widths() == old(self).spec_column_widths(),
            final(self).spec_target_width() == old(self).spec_target_width(),
    {
        let mut lines: Vec<String> = Vec::new();
        if self.header_printed {
            assert(strings_view(lines@) =~= Seq::<Seq<char>>::empty());
            return lines;
        }
        let h = self.render_row(&self.headers);
        proof {
            lemma_strings_view_push(lines@, h);
        }
        lines.push(h);
        let s = self.render_separator();
        proof {
            lemma_strings_view_push(lines@, s);
        }
        lines.push(s);
        self.header_printed = true;
        assert(strings_view(lines@) =~= old(self).header_lines());
        lines
    }

    /// The pending header lines, then the row of `data`.
    pub fn print_row_data<T: TableRow>(&mut self, data: &T) -> (r: Vec<String>)
        ensures
            strings_view(r@) == old(self).pending_header_lines().push(
                row_text(data.spec_values(), old(self).spec_column_widths()),
            ),
            final(self).spec_header_printed(),
            final(self).spec_headers() == old(self).spec_headers(),
            final(self).spec_column_widths() == old(self).spec_column_widths(),
            final(self).spec_target_width() == old(self).spec_target_width(),
    {
        let mut lines = self.print_header();
        let values = data.values();
        let row = self.render_row(&values);
        proof {
            lemma_strings_view_push(lines@, row);
        }
        lines.push(row);
        assert(strings_view(lines@) =~= old(self).pending_header_lines().push(
            row_text(data.spec_values(), old(self).spec_column_widths()),
        ));
        lines
    }

    /// The pending header lines, one row per item, then the closing line.
    pub fn print_collection<T: TableRow>(&mut self, data: &[T]) -> (r: Vec<String>)
        requires
            old(self).bottom_defined(),
        ensures
            strings_view(r@) == old(self).pending_header_lines() + Seq::new(
                data@.len(),
                |i: int| row_text(data@[i].spec_values(), old(self).spec_column_widths()),
            ) + seq![old(self).bottom_line()],
            final(self).spec_header_printed(),
            final(self).spec_headers() == old(self).spec_headers(),
            final(self).spec_column_widths() == old(self).spec_column_widths(),
            final(self).spec_target_width() == old(self).spec_target_width(),
    {
        let mut lines = self.print_header();
        let ghost head = strings_view(lines@);
        let mut i: usize = 0;
        while i < data.len()
            invariant
                i <= data@.len(),
                self.spec_header_printed(),
                self.spec_headers() == old(self).spec_headers(),
                self.spec_column_widths() == old(self).spec_column_widths(),
                self.spec_target_width() == old(self).spec_target_width(),
                head == old(self).pending_header_lines(),
                strings_view(lines@) == head + Seq::new(
                    i as nat,
                    |j: int| row_text(data@[j].spec_values(), old(self).spec_column_widths()),
                ),
            decreases data@.len() - i,
        {
            let values = data[i].values();
            let row = self.render_row(&values);
            proof {
                lemma_strings_view_push(lines@, row);
            }
            lines.push(row);
            i = i + 1;
            assert(strings_view(lines@) =~= head + Seq::new(
                i as nat,
                |j: int| row_text(data@[j].spec_values(), old(self).spec_column_widths()),
            ));
        }
        let bottom = self.print_bottom_separator();
        proof {
            lemma_strings_view_push(lines@, bottom);
        }
        lines.push(bottom);
        assert(strings_view(lines@) =~= head + Seq::new(
            data@.len(),
            |j: int| row_text(data@[j].spec_values(), old(self).spec_column_widths()),
        ) + seq![old(self).bottom_line()]);
        lines
    }

    /// The closing line of the table.
    pub fn print_bottom_separator(&self) -> (r: String)
        requires
            self.bottom_defined(),
        ensures
            r@ == self.bottom_line(),
    {
        let separator_width = match self.target_width {
            Some(target) => target,
            None => {
                let n = self.column_widths.len();
                proof {
                    lemma_sum_widths_bound(self.column_widths@, n as nat, n as nat);
                }
                let s = sum_prefix(&self.column_widths, n);
                s + (n - 1) * 3 + 2
            },
        };
        let mut out = String::new();
        push_repeat(&mut out, '-', separator_width);
        assert(out@ =~= self.bottom_line());
        out
    }
}

/// Width of the table of `T` with its natural column widths: the least
/// width it can be stretched to.
pub fn natural_table_width<T: TableRow>() -> (r: usize)
    requires
        T::spec_column_widths().len() >= 1,
        natural_width(T::spec_column_widths()) <= usize::MAX,
    ensures
        r == natural_width(T::spec_column_widths()),
{
    let widths = T::column_widths();
    let n = widths.len();
    proof {
        lemma_sum_widths_bound(widths@, n as nat, n as nat);
    }
    let total = sum_prefix(&widths, n);
    total + 2 + (n - 1) * 3
}

fn char_count_of(s: &str) -> (r: usize)
    ensures
        r == s@.len(),
{
    s.unicode_len()
}

/// The lines of a table of `data` with natural widths (nothing for no data).
pub fn print_table<T: TableRow>(data: &[T]) -> (r: Vec<String>)
    requires
        T::spec_column_widths().len() >= 1,
        computed_bottom_width(T::spec_column_widths()) <= usize::MAX,
    ensures
        data@.len() == 0 ==> r@.len() == 0,
        data@.len() > 0 ==> strings_view(r@) == seq![
            row_text(T::spec_header(), T::spec_column_widths()),
            separator_text(T::spec_column_widths()),
        ] + Seq::new(data@.len(), |i: int| row_text(data@[i].spec_values(), T::spec_column_widths())) + seq![
            repeat_char('-', computed_bottom_width(T::spec_column_widths()) as nat),
        ],
{
    if data.len() == 0 {
        return Vec::new();
    }
    let mut formatter = TableFormatter::new::<T>();
    formatter.print_collection(data)
}

/// The lines of a one-row table of `data` with natural widths (no closing line).
pub fn print_single_row<T: TableRow>(data: &T) -> (r: Vec<String>)
    ensures
        strings_view(r@) == seq![
            row_text(T::spec_header(), T::spec_column_widths()),
            separator_text(T::spec_column_widths()),
            row_text(data.spec_values(), T::spec_column_widths()),
        ],
{
    let mut formatter = TableFormatter::new::<T>();
    let r = formatter.print_row_data(data);
    assert(strings_view(r@) =~= seq![
        row_text(T::spec_header(), T::spec_column_widths()),
        separator_text(T::spec_column_widths()),
        row_text(data.spec_values(), T::spec_column_widths()),
    ]);
    r
}

/// The lines of a table of `data` stretched to `total_width` (nothing for no data).
pub fn print_table_with_width<T: TableRow>(data: &[T], total_width: usize) -> (r: Vec<String>)
    requires
        data@.len() > 0 ==> T::spec_column_widths().len() >= 1,
        data@.len() > 0 ==> natural_width(T::spec_column_widths()) <= usize::MAX,
        data@.len() > 0 ==> natural_width(T::spec_column_widths()) <= total_width,
    ensures
        data@.len() == 0 ==> r@.len() == 0,
        data@.len() > 0 ==> ({
            let w = stretched_widths(T::spec_column_widths(), total_width);
            strings_view(r@) == seq![row_text(T::spec_header(), w), separator_text(w)] + Seq::new(
                data@.len(),
                |i: int| row_text(data@[i].spec_values(), w),
            ) + seq![repeat_char('-', total_width as nat)]
        }),
{
    if data.len() == 0 {
        return Vec::new();
    }
    let mut formatter = TableFormatter::with_total_width::<T>(total_width);
    formatter.print_collection(data)
}

/// The lines of a one-row table of `data` stretched to `total_width`, with its closing line.
pub fn print_single_row_with_width<T: TableRow>(data: &T, total_width: usize) -> (r: Vec<String>)
    requires
        T::spec_column_widths().len() >= 1,
        natural_width(T::spec_column_widths()) <= usize::MAX,
        natural_width(T::spec_column_widths()) <= total_width,
    ensures
        ({
            let w = stretched_widths(T::spec_column_widths(), total_width);
            strings_view(r@) == seq![
                row_text(T::spec_header(), w),
                separator_text(w),
                row_text(data.spec_values(), w),
                repeat_char('-', total_width as nat),
            ]
        }),
{
    let mut formatter = TableFormatter::with_total_width::<T>(total_width);
    let mut r = formatter.print_row_data(data);
    let bottom = formatter.print_bottom_separator();
    proof {
        lemma_strings_view_push(r@, bottom);
    }
    r.push(bottom);
    let ghost w = stretched_widths(T::spec_column_widths(), total_width);
    assert(strings_view(r@) =~= seq![
        row_text(T::spec_header(), w),
        separator_text(w),
        row_text(data.spec_values(), w),
        repeat_char('-', total_width as nat),
    ]);
    r
}

} // verus!
