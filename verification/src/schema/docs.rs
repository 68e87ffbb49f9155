//! Documentation of the supported configuration keys: Markdown tables of keys, documentation
//! blocks, and references to the issues that track them.

use std::collections::BTreeMap;

use vstd::prelude::*;

use crate::config_system::validate::{Pipeline, PipelineAffinity};
use crate::schema::overlay::{Investigate, OverlaySupportLevel, SchemaOverlay, Supported, Unsupported};
use crate::text::{owned, push_char, push_str, trim, trimmed};
use vstd::std_specs::iter::IteratorSpec;

verus! {

/// The documentation section a key's pipelines put it in: `cross_cutting` for several pipelines
/// or all of them, and otherwise its pipeline's own.
pub open spec fn section_of(pa: PipelineAffinity) -> Seq<char> {
    match pa {
        PipelineAffinity::CrossCutting => "cross_cutting"@,
        PipelineAffinity::Pipelines(ps) => if ps@.len() > 1 {
            "cross_cutting"@
        } else {
            match ps@[0] {
                Pipeline::DogStatsD => "dogstatsd"@,
                Pipeline::Checks => "checks"@,
                Pipeline::Otlp => "otlp"@,
                Pipeline::Traces => "traces"@,
            }
        },
    }
}

/// Returns the documentation section a key's pipelines put it in.
pub fn classify_pipeline(pa: &PipelineAffinity) -> (r: &'static str)
    requires
        pa matches PipelineAffinity::Pipelines(ps) ==> ps@.len() > 0,
    ensures
        r@ == section_of(*pa),
{
    match pa {
        PipelineAffinity::CrossCutting => "cross_cutting",
        PipelineAffinity::Pipelines(ps) => {
            if ps.len() > 1 {
                "cross_cutting"
            } else {
                match ps[0] {
                    Pipeline::DogStatsD => "dogstatsd",
                    Pipeline::Checks => "checks",
                    Pipeline::Otlp => "otlp",
                    Pipeline::Traces => "traces",
                }
            }
        },
    }
}

/// The length of a text in UTF-8 bytes, as a `usize` holds it.
pub open spec fn byte_len(s: Seq<char>) -> nat {
    (vstd::utf8::encode_utf8(s).len() as usize) as nat
}

/// `s` filled up with `fill` to `w` characters; unchanged when it is at least that long.
pub open spec fn padded(s: Seq<char>, w: nat, fill: char) -> Seq<char> {
    if s.len() < w {
        s + Seq::new((w - s.len()) as nat, |i: int| fill)
    } else {
        s
    }
}

/// The cells of a table line, each padded to its column's width: `| a | b |` and a newline.
pub open spec fn cells_text(cells: Seq<Seq<char>>, widths: Seq<nat>, fill: char) -> Seq<char>
    decreases cells.len(),
{
    if cells.len() == 0 {
        Seq::empty()
    } else {
        cells_text(cells.drop_last(), widths, fill) + " "@ + padded(cells.last(), widths[cells.len() - 1], fill)
            + " |"@
    }
}

/// A table line.
pub open spec fn line_text(cells: Seq<Seq<char>>, widths: Seq<nat>, fill: char) -> Seq<char> {
    "|"@ + cells_text(cells, widths, fill) + "\n"@
}

/// The width of a column: the longest of its header and cells, in UTF-8 bytes.
pub open spec fn column_width(header: Seq<char>, rows: Seq<Seq<Seq<char>>>, c: int) -> nat
    decreases rows.len(),
{
    if rows.len() == 0 {
        byte_len(header)
    } else {
        let w = column_width(header, rows.drop_last(), c);
        let x = byte_len(rows.last()[c]);
        if x > w {
            x
        } else {
            w
        }
    }
}

/// The widths of every column.
pub open spec fn widths_of(headers: Seq<Seq<char>>, rows: Seq<Seq<Seq<char>>>) -> Seq<nat> {
    Seq::new(headers.len(), |c: int| column_width(headers[c], rows, c))
}

/// The lines of the rows.
pub open spec fn rows_text(rows: Seq<Seq<Seq<char>>>, widths: Seq<nat>) -> Seq<char>
    decreases rows.len(),
{
    if rows.len() == 0 {
        Seq::empty()
    } else {
        rows_text(rows.drop_last(), widths) + line_text(rows.last(), widths, ' ')
    }
}

/// A Markdown table: nothing without rows; otherwise the header line, a rule of dashes, and a
/// line per row, every column as wide as its widest entry.
pub open spec fn table_text(headers: Seq<Seq<char>>, rows: Seq<Seq<Seq<char>>>) -> Seq<char> {
    if rows.len() == 0 {
        Seq::empty()
    } else {
        let widths = widths_of(headers, rows);
        line_text(headers, widths, ' ') + line_text(Seq::new(headers.len(), |c: int| Seq::<char>::empty()), widths, '-')
            + rows_text(rows, widths)
    }
}

/// The texts of a row's cells.
pub open spec fn row_view(row: Seq<String>) -> Seq<Seq<char>> {
    row.map_values(|c: String| c@)
}

/// The texts of every row's cells.
pub open spec fn rows_view(rows: Seq<Vec<String>>) -> Seq<Seq<Seq<char>>> {
    rows.map_values(|r: Vec<String>| row_view(r@))
}

fn push_padded(out: &mut String, s: &str, w: usize, fill: char)
    ensures
        final(out)@ == old(out)@ + padded(s@, w as nat, fill),
{
    let n = s.unicode_len();
    push_str(out, s);
    let ghost base = out@;
    let mut k: usize = n;
    while k < w
        invariant
            n == s@.len(),
            n <= k <= w || (k == n && n >= w),
            base == old(out)@ + s@,
            out@ == base + Seq::new((k - n) as nat, |i: int| fill),
        decreases w - k,
    {
        push_char(out, fill);
        proof {
            assert(base + Seq::new((k + 1 - n) as nat, |i: int| fill) =~= (base + Seq::new((k - n) as nat, |i: int| fill)).push(fill));
        }
        k = k + 1;
    }
    proof {
        if n < w {
            assert(out@ =~= old(out)@ + padded(s@, w as nat, fill));
        } else {
            assert(out@ =~= old(out)@ + padded(s@, w as nat, fill));
        }
    }
}

fn push_line(out: &mut String, cells: &Vec<&str>, widths: &Vec<usize>, fill: char)
    requires
        cells@.len() <= widths@.len(),
    ensures
        final(out)@ == old(out)@ + line_text(
            cells@.map_values(|c: &str| c@),
            widths@.map_values(|w: usize| w as nat),
            fill,
        ),
{
    let ghost cv = cells@.map_values(|c: &str| c@);
    let ghost wv = widths@.map_values(|w: usize| w as nat);
    push_str(out, "|");
    let ghost base = out@;
    let mut i: usize = 0;
    while i < cells.len()
        invariant
            i <= cells.len(),
            cells@.len() <= widths@.len(),
            cv == cells@.map_values(|c: &str| c@),
            wv == widths@.map_values(|w: usize| w as nat),
            out@ == base + cells_text(cv.take(i as int), wv, fill),
        decreases cells.len() - i,
    {
        push_str(out, " ");
        push_padded(out, cells[i], widths[i], fill);
        push_str(out, " |");
        proof {
            let next = cv.take(i + 1);
            assert(next.drop_last() =~= cv.take(i as int));
            assert(next.last() == cells@[i as int]@);
            assert(wv[i as int] == widths@[i as int] as nat);
            assert(out@ =~= base + cells_text(next, wv, fill));
        }
        i = i + 1;
    }
    assert(cv.take(i as int) =~= cv);
    push_str(out, "\n");
}

/// Renders a Markdown table of `rows` under `headers`; each row has a cell per header.
pub fn render_table(headers: &Vec<&str>, rows: &Vec<Vec<String>>) -> (r: String)
    requires
        forall|k: int| 0 <= k < rows@.len() ==> (#[trigger] rows@[k])@.len() == headers@.len(),
    ensures
        r@ == table_text(headers@.map_values(|h: &str| h@), rows_view(rows@)),
{
    let ghost hv = headers@.map_values(|h: &str| h@);
    let ghost rv = rows_view(rows@);
    let mut out = String::new();
    if rows.len() == 0 {
        return out;
    }
    let mut widths: Vec<usize> = Vec::new();
    let mut c: usize = 0;
    while c < headers.len()
        invariant
            c <= headers.len(),
            widths@.len() == c,
            hv == headers@.map_values(|h: &str| h@),
            rv == rows_view(rows@),
            forall|k: int| 0 <= k < rows@.len() ==> (#[trigger] rows@[k])@.len() == headers@.len(),
            forall|j: int| 0 <= j < c ==> #[trigger] widths@[j] as nat == column_width(hv[j], rv, j),
        decreases headers.len() - c,
    {
        let mut w: usize = headers[c].len();
        let mut k: usize = 0;
        assert(rv.take(0) =~= Seq::<Seq<Seq<char>>>::empty());
        assert(hv[c as int] == headers@[c as int]@);
        while k < rows.len()
            invariant
                c < headers.len(),
                k <= rows.len(),
                hv == headers@.map_values(|h: &str| h@),
                rv == rows_view(rows@),
                forall|q: int| 0 <= q < rows@.len() ==> (#[trigger] rows@[q])@.len() == headers@.len(),
                w as nat == column_width(hv[c as int], rv.take(k as int), c as int),
            decreases rows.len() - k,
        {
            let x = rows[k][c].as_str().len();
            proof {
                let next = rv.take(k + 1);
                assert(next.drop_last() =~= rv.take(k as int));
                assert(next.last() == rv[k as int]);
                assert(rv[k as int][c as int] == rows@[k as int]@[c as int]@);
            }
            if x > w {
                w = x;
            }
            k = k + 1;
        }
        proof {
            assert(rv.take(k as int) =~= rv);
        }
        widths.push(w);
        c = c + 1;
    }
    let ghost wv = widths@.map_values(|w: usize| w as nat);
    assert(wv =~= widths_of(hv, rv));
    push_line(&mut out, headers, &widths, ' ');
    let mut empties: Vec<&str> = Vec::new();
    let mut e: usize = 0;
    while e < headers.len()
        invariant
            e <= headers.len(),
            empties@.len() == e,
            forall|j: int| 0 <= j < e ==> (#[trigger] empties@[j])@ == Seq::<char>::empty(),
        decreases headers.len() - e,
    {
        proof {
            reveal_strlit("");
        }
        empties.push("");
        e = e + 1;
    }
    assert(empties@.map_values(|c: &str| c@) =~= Seq::new(hv.len(), |c: int| Seq::<char>::empty()));
    push_line(&mut out, &empties, &widths, '-');
    let ghost head = out@;
    let mut k: usize = 0;
    while k < rows.len()
        invariant
            k <= rows.len(),
            widths@.len() == headers@.len(),
            wv == widths@.map_values(|w: usize| w as nat),
            rv == rows_view(rows@),
            forall|q: int| 0 <= q < rows@.len() ==> (#[trigger] rows@[q])@.len() == headers@.len(),
            out@ == head + rows_text(rv.take(k as int), wv),
        decreases rows.len() - k,
    {
        let mut cells: Vec<&str> = Vec::new();
        let mut j: usize = 0;
        while j < rows[k].len()
            invariant
                k < rows.len(),
                j <= rows@[k as int]@.len(),
                cells@.len() == j,
                forall|q: int| 0 <= q < j ==> (#[trigger] cells@[q])@ == rows@[k as int]@[q]@,
            decreases rows@[k as int]@.len() - j,
        {
            cells.push(rows[k][j].as_str());
            j = j + 1;
        }
        push_line(&mut out, &cells, &widths, ' ');
        proof {
            assert(cells@.map_values(|c: &str| c@) =~= rv[k as int]);
            let next = rv.take(k + 1);
            assert(next.drop_last() =~= rv.take(k as int));
            assert(next.last() == rv[k as int]);
        }
        k = k + 1;
    }
    assert(rv.take(k as int) =~= rv);
    out
}

/// The value of a decimal digit, or -1 for any other character.
pub open spec fn digit_of(c: char) -> int {
    match c {
        '0' => 0,
        '1' => 1,
        '2' => 2,
        '3' => 3,
        '4' => 4,
        '5' => 5,
        '6' => 6,
        '7' => 7,
        '8' => 8,
        '9' => 9,
        _ => -1,
    }
}

fn digit_value(c: char) -> (r: Option<u64>)
    ensures
        digit_of(c) >= 0 ==> r == Some(digit_of(c) as u64),
        digit_of(c) < 0 ==> r is None,
{
    match c {
        '0' => Some(0),
        '1' => Some(1),
        '2' => Some(2),
        '3' => Some(3),
        '4' => Some(4),
        '5' => Some(5),
        '6' => Some(6),
        '7' => Some(7),
        '8' => Some(8),
        '9' => Some(9),
        _ => None,
    }
}

/// The value of a run of decimal digits.
pub open spec fn digits_value(s: Seq<char>) -> int
    decreases s.len(),
{
    if s.len() == 0 {
        0
    } else {
        digits_value(s.drop_last()) * 10 + digit_of(s.last())
    }
}

/// Whether every character is a decimal digit.
pub open spec fn all_digits(s: Seq<char>) -> bool {
    forall|i: int| 0 <= i < s.len() ==> digit_of(#[trigger] s[i]) >= 0
}

/// The unsigned 64-bit integer a text writes (`str::parse::<u64>`): an optional `+` and at least
/// one decimal digit, of a value that fits.
pub open spec fn parsed_u64(s: Seq<char>) -> Option<u64> {
    let d = if s.len() > 0 && s[0] == '+' {
        s.drop_first()
    } else {
        s
    };
    if d.len() > 0 && all_digits(d) && digits_value(d) <= u64::MAX {
        Some(digits_value(d) as u64)
    } else {
        None
    }
}

proof fn lemma_digits_value_grows(s: Seq<char>, i: int)
    requires
        all_digits(s),
        0 <= i <= s.len(),
    ensures
        digits_value(s.take(i)) <= digits_value(s),
        digits_value(s.take(i)) >= 0,
    decreases s.len() - i,
{
    if i < s.len() {
        lemma_digits_value_grows(s, i + 1);
        let t = s.take(i + 1);
        assert(t.drop_last() =~= s.take(i));
        assert(digit_of(t.last()) >= 0);
        lemma_digits_value_nonneg(s.take(i));
    } else {
        assert(s.take(i) =~= s);
        lemma_digits_value_nonneg(s);
    }
}

proof fn lemma_digits_value_nonneg(s: Seq<char>)
    requires
        all_digits(s),
    ensures
        digits_value(s) >= 0,
    decreases s.len(),
{
    if s.len() > 0 {
        lemma_digits_value_nonneg(s.drop_last());
        assert(digit_of(s.last()) >= 0);
    }
}

/// Returns the unsigned 64-bit integer `s` writes, if any.
pub fn parse_u64(s: &str) -> (r: Option<u64>)
    ensures
        r == parsed_u64(s@),
{
    let chars = crate::text::chars_of(s);
    let start: usize = if chars.len() > 0 && chars[0] == '+' {
        1
    } else {
        0
    };
    let ghost d = if s@.len() > 0 && s@[0] == '+' {
        s@.drop_first()
    } else {
        s@
    };
    assert(d =~= s@.subrange(start as int, s@.len() as int));
    if start == chars.len() {
        return None;
    }
    let mut i: usize = start;
    while i < chars.len()
        invariant
            start <= i <= chars.len(),
            chars@ == s@,
            d == s@.subrange(start as int, s@.len() as int),
            d == (if s@.len() > 0 && s@[0] == '+' { s@.drop_first() } else { s@ }),
            d.len() > 0,
            forall|k: int| 0 <= k < i - start ==> digit_of(#[trigger] d[k]) >= 0,
        decreases chars.len() - i,
    {
        match digit_value(chars[i]) {
            Some(_) => {},
            None => {
                assert(d[i - start] == chars@[i as int]);
                assert(digit_of(d[i - start]) < 0);
                assert(!all_digits(d));
                return None;
            },
        }
        assert(d[i - start] == chars@[i as int]);
        i = i + 1;
    }
    assert(all_digits(d));
    let mut value: u64 = 0;
    let mut j: usize = start;
    assert(d.take(0) =~= Seq::<char>::empty());
    while j < chars.len()
        invariant
            start <= j <= chars.len(),
            chars@ == s@,
            d == s@.subrange(start as int, s@.len() as int),
            d == (if s@.len() > 0 && s@[0] == '+' { s@.drop_first() } else { s@ }),
            d.len() > 0,
            all_digits(d),
            value == digits_value(d.take(j - start)),
        decreases chars.len() - j,
    {
        let digit = match digit_value(chars[j]) {
            Some(v) => v,
            None => 0,
        };
        proof {
            let t = d.take(j - start + 1);
            assert(t.drop_last() =~= d.take(j - start));
            assert(t.last() == chars@[j as int]);
            assert(digit_of(d[j - start]) >= 0);
            assert(d[j - start] == chars@[j as int]);
            lemma_digits_value_grows(d, j - start + 1);
        }
        let ghost next = d.take(j - start + 1);
        assert(digits_value(next) == value * 10 + digit);
        let scaled = value.checked_mul(10);
        match scaled {
            Some(m) => match m.checked_add(digit) {
                Some(v) => {
                    value = v;
                },
                None => {
                    assert(digits_value(next) > u64::MAX);
                    assert(digits_value(d) > u64::MAX);
                    return None;
                },
            },
            None => {
                assert(digits_value(next) > u64::MAX);
                assert(digits_value(d) > u64::MAX);
                return None;
            },
        }
        j = j + 1;
    }
    assert(d.take(j - start) =~= d);
    Some(value)
}

/// The issue number an issue reference such as `#0001` names.
pub open spec fn issue_number(issue: Seq<char>) -> Option<u64> {
    if issue.len() > 0 && issue[0] == '#' {
        parsed_u64(issue.drop_first())
    } else {
        None
    }
}

/// Returns the issue number an issue reference names, if any.
pub fn parse_issue_number(issue: &str) -> (r: Option<u64>)
    ensures
        r == issue_number(issue@),
{
    let chars = crate::text::chars_of(issue);
    if chars.len() == 0 || chars[0] != '#' {
        return None;
    }
    let mut rest = String::new();
    let mut i: usize = 1;
    while i < chars.len()
        invariant
            1 <= i <= chars.len(),
            chars@ == issue@,
            rest@ == issue@.subrange(1, i as int),
        decreases chars.len() - i,
    {
        push_char(&mut rest, chars[i]);
        assert(issue@.subrange(1, i + 1) =~= issue@.subrange(1, i as int).push(chars@[i as int]));
        i = i + 1;
    }
    assert(issue@.drop_first() =~= issue@.subrange(1, issue@.len() as int));
    parse_u64(rest.as_str())
}

/// The issues seen so far, after recording `issue`: the first reference to each number is kept.
pub open spec fn issues_after(issues: Map<u64, Seq<char>>, issue: Option<Seq<char>>) -> Map<u64, Seq<char>> {
    match issue {
        Some(i) => match issue_number(i) {
            Some(n) => if issues.contains_key(n) {
                issues
            } else {
                issues.insert(n, i)
            },
            None => issues,
        },
        None => issues,
    }
}

/// The texts of a map's values.
pub open spec fn issues_view(m: Map<u64, String>) -> Map<u64, Seq<char>> {
    m.map_values(|v: String| v@)
}

/// Records an issue reference, keeping the first reference to each issue number.
pub fn record_issue(issue: &Option<String>, issues: &mut BTreeMap<u64, String>)
    ensures
        issues_view(final(issues)@) == issues_after(
            issues_view(old(issues)@),
            match issue {
                Some(i) => Some(i@),
                None => None,
            },
        ),
{
    broadcast use vstd::laws_cmp::group_laws_cmp;
    broadcast use vstd::std_specs::btree::axiom_contains_deref_key;

    match issue {
        Some(i) => {
            match parse_issue_number(i.as_str()) {
                Some(n) => {
                    if !issues.contains_key(&n) {
                        issues.insert(n, i.clone());
                        assert(issues_view(issues@) =~= issues_view(old(issues)@).insert(n, i@));
                    }
                },
                None => {},
            }
        },
        None => {},
    }
}

/// The link text of an issue reference: the reference in brackets, or nothing.
pub open spec fn issue_link(issue: Option<Seq<char>>) -> Seq<char> {
    match issue {
        Some(i) => "["@ + i + "]"@,
        None => Seq::empty(),
    }
}

/// Records an issue reference and returns its Markdown link text.
pub fn collect_issue(issue: &Option<String>, issues: &mut BTreeMap<u64, String>) -> (r: String)
    ensures
        r@ == issue_link(match issue {
            Some(i) => Some(i@),
            None => None,
        }),
        issues_view(final(issues)@) == issues_after(
            issues_view(old(issues)@),
            match issue {
                Some(i) => Some(i@),
                None => None,
            },
        ),
{
    record_issue(issue, issues);
    match issue {
        Some(i) => {
            let mut r = owned("[");
            push_str(&mut r, i.as_str());
            push_str(&mut r, "]");
            r
        },
        None => String::new(),
    }
}

/// A documentation block: for each key, a heading naming it, then its documentation with
/// surrounding whitespace removed.
pub open spec fn docs_text(entries: Seq<(Seq<char>, Seq<char>)>) -> Seq<char>
    decreases entries.len(),
{
    if entries.len() == 0 {
        Seq::empty()
    } else {
        docs_text(entries.drop_last()) + "### `"@ + entries.last().0 + "`\n"@ + "\n"@ + trimmed(
            entries.last().1,
        ) + "\n"@ + "\n"@
    }
}

/// Renders a documentation block.
pub fn render_docs_block(entries: &Vec<(&str, &str)>) -> (r: String)
    ensures
        r@ == docs_text(entries@.map_values(|e: (&str, &str)| (e.0@, e.1@))),
{
    let ghost ev = entries@.map_values(|e: (&str, &str)| (e.0@, e.1@));
    let mut out = String::new();
    let mut i: usize = 0;
    while i < entries.len()
        invariant
            i <= entries.len(),
            ev == entries@.map_values(|e: (&str, &str)| (e.0@, e.1@)),
            out@ == docs_text(ev.take(i as int)),
        decreases entries.len() - i,
    {
        let (key, doc) = entries[i];
        push_str(&mut out, "### `");
        push_str(&mut out, key);
        push_str(&mut out, "`\n");
        push_str(&mut out, "\n");
        let t = trim(doc);
        push_str(&mut out, t.as_str());
        push_str(&mut out, "\n");
        push_str(&mut out, "\n");
        proof {
            let next = ev.take(i + 1);
            assert(next.drop_last() =~= ev.take(i as int));
            assert(next.last() == (key@, doc@));
            assert(out@ =~= docs_text(next));
        }
        i = i + 1;
    }
    assert(ev.take(i as int) =~= ev);
    out
}

/// A row of a two-column table.
#[derive(Debug)]
pub struct TwoColRow {
    /// The first cell.
    pub key: String,
    /// The second cell.
    pub description: String,
}

/// A row of a three-column table.
#[derive(Debug)]
pub struct ThreeColRow {
    /// The first cell.
    pub key: String,
    /// The second cell.
    pub description: String,
    /// The third cell.
    pub extra: String,
}

/// Renders a two-column Markdown table.
pub fn render_two_col_table(headers: [&str; 2], rows: &Vec<TwoColRow>) -> (r: String)
    ensures
        r@ == table_text(
            seq![headers[0]@, headers[1]@],
            rows@.map_values(|x: TwoColRow| seq![x.key@, x.description@]),
        ),
{
    let hs: Vec<&str> = vec![headers[0], headers[1]];
    let mut cells: Vec<Vec<String>> = Vec::new();
    let mut i: usize = 0;
    while i < rows.len()
        invariant
            i <= rows.len(),
            cells@.len() == i,
            forall|k: int| 0 <= k < i ==> (#[trigger] cells@[k])@.len() == 2,
            forall|k: int| 0 <= k < i ==> row_view((#[trigger] cells@[k])@) == seq![rows@[k].key@, rows@[k].description@],
        decreases rows.len() - i,
    {
        let row: Vec<String> = vec![rows[i].key.clone(), rows[i].description.clone()];
        assert(row_view(row@) =~= seq![rows@[i as int].key@, rows@[i as int].description@]);
        cells.push(row);
        i = i + 1;
    }
    assert(hs@.map_values(|h: &str| h@) =~= seq![headers[0]@, headers[1]@]);
    assert(rows_view(cells@) =~= rows@.map_values(|x: TwoColRow| seq![x.key@, x.description@]));
    render_table(&hs, &cells)
}

/// Renders a three-column Markdown table.
pub fn render_three_col_table(headers: [&str; 3], rows: &Vec<ThreeColRow>) -> (r: String)
    ensures
        r@ == table_text(
            seq![headers[0]@, headers[1]@, headers[2]@],
            rows@.map_values(|x: ThreeColRow| seq![x.key@, x.description@, x.extra@]),
        ),
{
    let hs: Vec<&str> = vec![headers[0], headers[1], headers[2]];
    let mut cells: Vec<Vec<String>> = Vec::new();
    let mut i: usize = 0;
    while i < rows.len()
        invariant
            i <= rows.len(),
            cells@.len() == i,
            forall|k: int| 0 <= k < i ==> (#[trigger] cells@[k])@.len() == 3,
            forall|k: int| 0 <= k < i ==> row_view((#[trigger] cells@[k])@) == seq![rows@[k].key@, rows@[k].description@, rows@[k].extra@],
        decreases rows.len() - i,
    {
        let row: Vec<String> = vec![rows[i].key.clone(), rows[i].description.clone(), rows[i].extra.clone()];
        assert(row_view(row@) =~= seq![rows@[i as int].key@, rows@[i as int].description@, rows@[i as int].extra@]);
        cells.push(row);
        i = i + 1;
    }
    assert(hs@.map_values(|h: &str| h@) =~= seq![headers[0]@, headers[1]@, headers[2]@]);
    assert(rows_view(cells@) =~= rows@.map_values(|x: ThreeColRow| seq![x.key@, x.description@, x.extra@]));
    render_table(&hs, &cells)
}

/// An optional string's text.
pub open spec fn opt_text(o: Option<String>) -> Option<Seq<char>> {
    match o {
        Some(t) => Some(t@),
        None => None,
    }
}

/// A key as inline code.
pub open spec fn code_key(k: Seq<char>) -> Seq<char> {
    "`"@ + k + "`"@
}

/// The issues after recording each of `refs` in turn.
pub open spec fn fold_issues(issues: Map<u64, Seq<char>>, refs: Seq<Option<Seq<char>>>) -> Map<u64, Seq<char>>
    decreases refs.len(),
{
    if refs.len() == 0 {
        issues
    } else {
        issues_after(fold_issues(issues, refs.drop_last()), refs.last())
    }
}

/// The supported entries at `level`, in order.
pub open spec fn at_level<'a>(es: Seq<(&'a String, &'a Supported)>, level: OverlaySupportLevel) -> Seq<(&'a String, &'a Supported)>
    decreases es.len(),
{
    if es.len() == 0 {
        es
    } else {
        let r = at_level(es.drop_last(), level);
        if es.last().1.support_level == level {
            r.push(es.last())
        } else {
            r
        }
    }
}

/// The documented entries' keys and documentation, in order.
pub open spec fn documented_supported(es: Seq<(&String, &Supported)>) -> Seq<(Seq<char>, Seq<char>)>
    decreases es.len(),
{
    if es.len() == 0 {
        Seq::empty()
    } else {
        let r = documented_supported(es.drop_last());
        match es.last().1.documentation {
            Some(d) => r.push((es.last().0@, d@)),
            None => r,
        }
    }
}

/// The table, the documentation block and the issues of the supported keys at `level`.
pub open spec fn supported_slice(
    es: Seq<(&String, &Supported)>,
    level: OverlaySupportLevel,
    issues: Map<u64, Seq<char>>,
) -> (Seq<char>, Seq<char>, Map<u64, Seq<char>>) {
    let f = at_level(es, level);
    (
        table_text(
            seq!["Config Key"@, "Description"@],
            f.map_values(|e: (&String, &Supported)| seq![code_key(e.0@), e.1.description@]),
        ),
        docs_text(documented_supported(f)),
        fold_issues(issues, f.map_values(|e: (&String, &Supported)| opt_text(e.1.issue))),
    )
}

fn code_key_string(key: &str) -> (r: String)
    ensures
        r@ == code_key(key@),
{
    let mut r = owned("`");
    push_str(&mut r, key);
    push_str(&mut r, "`");
    r
}

/// Builds the table and documentation block of the supported keys at `level`, recording their
/// issues.
pub fn build_supported_slice(
    entries: &Vec<(&String, &Supported)>,
    level: OverlaySupportLevel,
    issues: &mut BTreeMap<u64, String>,
) -> (r: (String, String))
    ensures
        (r.0@, r.1@, issues_view(final(issues)@)) == supported_slice(entries@, level, issues_view(old(issues)@)),
{
    let mut filtered: Vec<(&String, &Supported)> = Vec::new();
    let mut i: usize = 0;
    while i < entries.len()
        invariant
            i <= entries.len(),
            filtered@ == at_level(entries@.take(i as int), level),
        decreases entries.len() - i,
    {
        proof {
            assert(entries@.take(i + 1).drop_last() =~= entries@.take(i as int));
        }
        if entries[i].1.support_level == level {
            filtered.push(entries[i]);
        }
        i = i + 1;
    }
    assert(entries@.take(i as int) =~= entries@);
    let ghost f = filtered@;
    let mut rows: Vec<TwoColRow> = Vec::new();
    let mut docs: Vec<(&str, &str)> = Vec::new();
    let mut k: usize = 0;
    while k < filtered.len()
        invariant
            k <= filtered.len(),
            f == filtered@,
            rows@.map_values(|x: TwoColRow| seq![x.key@, x.description@]) == f.take(k as int).map_values(
                |e: (&String, &Supported)| seq![code_key(e.0@), e.1.description@],
            ),
            docs@.map_values(|e: (&str, &str)| (e.0@, e.1@)) == documented_supported(f.take(k as int)),
            issues_view(issues@) == fold_issues(
                issues_view(old(issues)@),
                f.take(k as int).map_values(|e: (&String, &Supported)| opt_text(e.1.issue)),
            ),
        decreases filtered.len() - k,
    {
        let (key, entry) = filtered[k];
        let ghost before_rows = rows@;
        let row = TwoColRow { key: code_key_string(key.as_str()), description: entry.description.clone() };
        assert(seq![row.key@, row.description@] == seq![code_key(f[k as int].0@), f[k as int].1.description@]);
        rows.push(row);
        proof {
            assert(rows@ == before_rows.push(row));
            assert(rows@.map_values(|x: TwoColRow| seq![x.key@, x.description@]) =~= before_rows.map_values(
                |x: TwoColRow| seq![x.key@, x.description@],
            ).push(seq![row.key@, row.description@]));
            assert(f.take(k + 1).map_values(|e: (&String, &Supported)| seq![code_key(e.0@), e.1.description@])
                =~= f.take(k as int).map_values(|e: (&String, &Supported)| seq![code_key(e.0@), e.1.description@]).push(
                seq![code_key(f[k as int].0@), f[k as int].1.description@],
            ));
        }
        let ghost before_docs = docs@;
        match &entry.documentation {
            Some(d) => {
                docs.push((key.as_str(), d.as_str()));
            },
            None => {},
        }
        record_issue(&entry.issue, issues);
        proof {
            let next = f.take(k + 1);
            assert(next.drop_last() =~= f.take(k as int));
            assert(next.last() == f[k as int]);
            assert(rows@.map_values(|x: TwoColRow| seq![x.key@, x.description@]) =~= next.map_values(
                |e: (&String, &Supported)| seq![code_key(e.0@), e.1.description@],
            ));
            assert(docs@.map_values(|e: (&str, &str)| (e.0@, e.1@)) =~= documented_supported(next));
            assert(next.map_values(|e: (&String, &Supported)| opt_text(e.1.issue)).drop_last() =~= f.take(k as int).map_values(
                |e: (&String, &Supported)| opt_text(e.1.issue),
            ));
        }
        k = k + 1;
    }
    assert(f.take(k as int) =~= f);
    let table = render_two_col_table(["Config Key", "Description"], &rows);
    let block = render_docs_block(&docs);
    (table, block)
}

/// The unsupported entries whose support is planned (or not), in order.
pub open spec fn with_plan<'a>(es: Seq<(&'a String, &'a Unsupported)>, planned: bool) -> Seq<(&'a String, &'a Unsupported)>
    decreases es.len(),
{
    if es.len() == 0 {
        es
    } else {
        let r = with_plan(es.drop_last(), planned);
        if es.last().1.planned == planned {
            r.push(es.last())
        } else {
            r
        }
    }
}

/// The documented unsupported entries' keys and documentation, in order.
pub open spec fn documented_unsupported(es: Seq<(&String, &Unsupported)>) -> Seq<(Seq<char>, Seq<char>)>
    decreases es.len(),
{
    if es.len() == 0 {
        Seq::empty()
    } else {
        let r = documented_unsupported(es.drop_last());
        match es.last().1.documentation {
            Some(d) => r.push((es.last().0@, d@)),
            None => r,
        }
    }
}

/// The table, the documentation block and the issues of the unsupported keys whose support is
/// planned, or not: a planned key's row links its issue.
pub open spec fn unsupported_slice(
    es: Seq<(&String, &Unsupported)>,
    planned: bool,
    issues: Map<u64, Seq<char>>,
) -> (Seq<char>, Seq<char>, Map<u64, Seq<char>>) {
    let f = with_plan(es, planned);
    (
        if planned {
            table_text(
                seq!["Config Key"@, "Description"@, "Issue"@],
                f.map_values(|e: (&String, &Unsupported)| seq![code_key(e.0@), e.1.description@, issue_link(opt_text(e.1.issue))]),
            )
        } else {
            table_text(
                seq!["Config Key"@, "Description"@],
                f.map_values(|e: (&String, &Unsupported)| seq![code_key(e.0@), e.1.description@]),
            )
        },
        docs_text(documented_unsupported(f)),
        fold_issues(issues, f.map_values(|e: (&String, &Unsupported)| opt_text(e.1.issue))),
    )
}

/// Builds the table and documentation block of the unsupported keys whose support is planned,
/// or not, recording their issues.
pub fn build_unsupported_slice(
    entries: &Vec<(&String, &Unsupported)>,
    planned: bool,
    issues: &mut BTreeMap<u64, String>,
) -> (r: (String, String))
    ensures
        (r.0@, r.1@, issues_view(final(issues)@)) == unsupported_slice(entries@, planned, issues_view(old(issues)@)),
{
    let mut filtered: Vec<(&String, &Unsupported)> = Vec::new();
    let mut i: usize = 0;
    while i < entries.len()
        invariant
            i <= entries.len(),
            filtered@ == with_plan(entries@.take(i as int), planned),
        decreases entries.len() - i,
    {
        proof {
            assert(entries@.take(i + 1).drop_last() =~= entries@.take(i as int));
        }
        if entries[i].1.planned == planned {
            filtered.push(entries[i]);
        }
        i = i + 1;
    }
    assert(entries@.take(i as int) =~= entries@);
    let ghost f = filtered@;
    let mut rows2: Vec<TwoColRow> = Vec::new();
    let mut rows3: Vec<ThreeColRow> = Vec::new();
    let mut docs: Vec<(&str, &str)> = Vec::new();
    let mut k: usize = 0;
    while k < filtered.len()
        invariant
            k <= filtered.len(),
            f == filtered@,
            rows2@.map_values(|x: TwoColRow| seq![x.key@, x.description@]) == f.take(k as int).map_values(
                |e: (&String, &Unsupported)| seq![code_key(e.0@), e.1.description@],
            ),
            rows3@.map_values(|x: ThreeColRow| seq![x.key@, x.description@, x.extra@]) == f.take(k as int).map_values(
                |e: (&String, &Unsupported)| seq![code_key(e.0@), e.1.description@, issue_link(opt_text(e.1.issue))],
            ),
            docs@.map_values(|e: (&str, &str)| (e.0@, e.1@)) == documented_unsupported(f.take(k as int)),
            issues_view(issues@) == fold_issues(
                issues_view(old(issues)@),
                f.take(k as int).map_values(|e: (&String, &Unsupported)| opt_text(e.1.issue)),
            ),
        decreases filtered.len() - k,
    {
        let (key, entry) = filtered[k];
        let link = collect_issue(&entry.issue, issues);
        let ghost before2 = rows2@;
        let ghost before3 = rows3@;
        let row2 = TwoColRow { key: code_key_string(key.as_str()), description: entry.description.clone() };
        let row3 = ThreeColRow { key: code_key_string(key.as_str()), description: entry.description.clone(), extra: link };
        rows2.push(row2);
        rows3.push(row3);
        match &entry.documentation {
            Some(d) => {
                docs.push((key.as_str(), d.as_str()));
            },
            None => {},
        }
        proof {
            let next = f.take(k + 1);
            assert(next.drop_last() =~= f.take(k as int));
            assert(next.last() == f[k as int]);
            assert(rows2@.map_values(|x: TwoColRow| seq![x.key@, x.description@]) =~= before2.map_values(
                |x: TwoColRow| seq![x.key@, x.description@],
            ).push(seq![row2.key@, row2.description@]));
            assert(next.map_values(|e: (&String, &Unsupported)| seq![code_key(e.0@), e.1.description@])
                =~= f.take(k as int).map_values(|e: (&String, &Unsupported)| seq![code_key(e.0@), e.1.description@]).push(
                seq![code_key(f[k as int].0@), f[k as int].1.description@],
            ));
            assert(rows3@.map_values(|x: ThreeColRow| seq![x.key@, x.description@, x.extra@]) =~= before3.map_values(
                |x: ThreeColRow| seq![x.key@, x.description@, x.extra@],
            ).push(seq![row3.key@, row3.description@, row3.extra@]));
            assert(next.map_values(|e: (&String, &Unsupported)| seq![code_key(e.0@), e.1.description@, issue_link(opt_text(e.1.issue))])
                =~= f.take(k as int).map_values(|e: (&String, &Unsupported)| seq![code_key(e.0@), e.1.description@, issue_link(opt_text(e.1.issue))]).push(
                seq![code_key(f[k as int].0@), f[k as int].1.description@, issue_link(opt_text(f[k as int].1.issue))],
            ));
            assert(docs@.map_values(|e: (&str, &str)| (e.0@, e.1@)) =~= documented_unsupported(next));
            assert(next.map_values(|e: (&String, &Unsupported)| opt_text(e.1.issue)).drop_last() =~= f.take(k as int).map_values(
                |e: (&String, &Unsupported)| opt_text(e.1.issue),
            ));
        }
        k = k + 1;
    }
    assert(f.take(k as int) =~= f);
    let table = if planned {
        render_three_col_table(["Config Key", "Description", "Issue"], &rows3)
    } else {
        render_two_col_table(["Config Key", "Description"], &rows2)
    };
    let block = render_docs_block(&docs);
    (table, block)
}

/// The table and the issues of the keys under investigation.
pub open spec fn investigate_slice(
    es: Seq<(&String, &Investigate)>,
    issues: Map<u64, Seq<char>>,
) -> (Seq<char>, Map<u64, Seq<char>>) {
    (
        table_text(
            seq!["Config Key"@, "Description"@, "Issue"@],
            es.map_values(|e: (&String, &Investigate)| seq![code_key(e.0@), e.1.description@, issue_link(opt_text(e.1.issue))]),
        ),
        fold_issues(issues, es.map_values(|e: (&String, &Investigate)| opt_text(e.1.issue))),
    )
}

/// Builds the table of the keys under investigation, recording their issues; they have no
/// documentation block.
pub fn build_investigate_slice(entries: &Vec<(&String, &Investigate)>, issues: &mut BTreeMap<u64, String>) -> (r: (
    String,
    String,
))
    ensures
        (r.0@, issues_view(final(issues)@)) == investigate_slice(entries@, issues_view(old(issues)@)),
        r.1@ == Seq::<char>::empty(),
{
    let ghost f = entries@;
    let mut rows: Vec<ThreeColRow> = Vec::new();
    let mut k: usize = 0;
    while k < entries.len()
        invariant
            k <= entries.len(),
            f == entries@,
            rows@.map_values(|x: ThreeColRow| seq![x.key@, x.description@, x.extra@]) == f.take(k as int).map_values(
                |e: (&String, &Investigate)| seq![code_key(e.0@), e.1.description@, issue_link(opt_text(e.1.issue))],
            ),
            issues_view(issues@) == fold_issues(
                issues_view(old(issues)@),
                f.take(k as int).map_values(|e: (&String, &Investigate)| opt_text(e.1.issue)),
            ),
        decreases entries.len() - k,
    {
        let (key, entry) = entries[k];
        let link = collect_issue(&entry.issue, issues);
        let ghost before = rows@;
        let row = ThreeColRow { key: code_key_string(key.as_str()), description: entry.description.clone(), extra: link };
        rows.push(row);
        proof {
            assert(rows@.map_values(|x: ThreeColRow| seq![x.key@, x.description@, x.extra@]) =~= before.map_values(
                |x: ThreeColRow| seq![x.key@, x.description@, x.extra@],
            ).push(seq![row.key@, row.description@, row.extra@]));
            assert(f.take(k + 1).map_values(|e: (&String, &Investigate)| seq![code_key(e.0@), e.1.description@, issue_link(opt_text(e.1.issue))])
                =~= f.take(k as int).map_values(|e: (&String, &Investigate)| seq![code_key(e.0@), e.1.description@, issue_link(opt_text(e.1.issue))]).push(
                seq![code_key(f[k as int].0@), f[k as int].1.description@, issue_link(opt_text(f[k as int].1.issue))],
            ));
            assert(f.take(k + 1).map_values(|e: (&String, &Investigate)| opt_text(e.1.issue)).drop_last() =~= f.take(k as int).map_values(
                |e: (&String, &Investigate)| opt_text(e.1.issue),
            ));
        }
        k = k + 1;
    }
    assert(f.take(k as int) =~= f);
    let table = render_three_col_table(["Config Key", "Description", "Issue"], &rows);
    (table, String::new())
}

/// The reference definitions of issues: for each, `[raw]: ` and its URL, on a line of its own.
pub open spec fn refs_text(pairs: Seq<(u64, Seq<char>)>) -> Seq<char>
    decreases pairs.len(),
{
    if pairs.len() == 0 {
        Seq::empty()
    } else {
        refs_text(pairs.drop_last()) + "["@ + pairs.last().1 + "]: https://github.com/DataDog/saluki/issues/"@
            + crate::text::decimal(pairs.last().0 as nat) + "\n"@
    }
}

/// Whether `pairs` lists the issues of `m` in ascending number order.
pub open spec fn lists_issues(pairs: Seq<(u64, Seq<char>)>, m: Map<u64, Seq<char>>) -> bool {
    &&& forall|i: int, j: int| 0 <= i < j < pairs.len() ==> #[trigger] pairs[i].0 < #[trigger] pairs[j].0
    &&& forall|i: int| 0 <= i < pairs.len() ==> m.contains_key(#[trigger] pairs[i].0) && m[pairs[i].0] == pairs[i].1
    &&& forall|n: u64| #[trigger] m.contains_key(n) ==> exists|i: int| 0 <= i < pairs.len() && #[trigger] pairs[i].0 == n
}

/// Renders the reference definitions of the recorded issues, in ascending number order.
pub fn issue_references(issues: &BTreeMap<u64, String>) -> (r: String)
    ensures
        exists|pairs: Seq<(u64, Seq<char>)>| #[trigger] lists_issues(pairs, issues_view(issues@)) && r@ == refs_text(pairs),
{
    broadcast use vstd::laws_cmp::group_laws_cmp;
    broadcast use vstd::std_specs::btree::group_btree_axioms;

    let mut out = String::new();
    let ghost mut pairs: Seq<(u64, Seq<char>)> = Seq::empty();
    let ghost all = vstd::std_specs::btree::spec_btree_map_iter(issues).remaining();
    let items = issues.iter();
    assert(items.remaining() == all);
    for item in it: items
        invariant
            it.seq() == all,
            pairs.len() == it.index(),
            forall|i: int| 0 <= i < it.index() ==> #[trigger] pairs[i] == (*all[i].0, (*all[i].1)@),
            out@ == refs_text(pairs),
    {
        let (n, raw) = item;
        push_str(&mut out, "[");
        push_str(&mut out, raw.as_str());
        push_str(&mut out, "]: https://github.com/DataDog/saluki/issues/");
        let num = crate::text::decimal_string(*n);
        push_str(&mut out, num.as_str());
        push_str(&mut out, "\n");
        proof {
            let before = pairs;
            pairs = pairs.push((*n, raw@));
            assert(pairs.drop_last() =~= before);
        }
    }
    proof {
        assert(pairs.len() == all.len());
        let keys = all.map_values(|kv: (&u64, &String)| *kv.0);
        assert(vstd::std_specs::btree::increasing_seq(keys));
        assert forall|i: int, j: int| 0 <= i < j < pairs.len() implies #[trigger] pairs[i].0 < #[trigger] pairs[j].0 by {
            assert(keys[i] == pairs[i].0 && keys[j] == pairs[j].0);
            assert(vstd::std_specs::cmp::OrdSpec::cmp_spec(&keys[i], &keys[j]) is Less);
        }
        assert forall|i: int| 0 <= i < pairs.len() implies issues_view(issues@).contains_key(#[trigger] pairs[i].0)
            && issues_view(issues@)[pairs[i].0] == pairs[i].1 by {
            assert(issues@.contains_key(*all[i].0) && issues@[*all[i].0] == *all[i].1);
        }
        assert forall|n: u64| #[trigger] issues_view(issues@).contains_key(n) implies exists|i: int|
            0 <= i < pairs.len() && #[trigger] pairs[i].0 == n by {
            assert(issues@.contains_key(n));
            assert(all.contains((&n, &issues@[n])));
            let i = choose|i: int| 0 <= i < all.len() && all[i] == (&n, &issues@[n]);
            assert(pairs[i].0 == n);
        }
        assert(lists_issues(pairs, issues_view(issues@)));
    }
    out
}

/// The documentation's sections, in order.
pub open spec fn section_names() -> Seq<Seq<char>> {
    seq!["cross_cutting"@, "dogstatsd"@, "checks"@, "otlp"@, "traces"@]
}

/// The supported keys of a section, in order.
pub open spec fn supported_in<'a>(es: Seq<(String, Supported)>, section: Seq<char>) -> Seq<(&'a String, &'a Supported)>
    decreases es.len(),
{
    if es.len() == 0 {
        Seq::empty()
    } else {
        let r = supported_in(es.drop_last(), section);
        if section_of(es.last().1.pipelines) == section {
            r.push((&es.last().0, &es.last().1))
        } else {
            r
        }
    }
}

/// The unsupported keys of a section, in order.
pub open spec fn unsupported_in<'a>(es: Seq<(String, Unsupported)>, section: Seq<char>) -> Seq<(&'a String, &'a Unsupported)>
    decreases es.len(),
{
    if es.len() == 0 {
        Seq::empty()
    } else {
        let r = unsupported_in(es.drop_last(), section);
        if section_of(es.last().1.pipelines) == section {
            r.push((&es.last().0, &es.last().1))
        } else {
            r
        }
    }
}

/// The context entries of a section, and the issues after it: for supported keys fully and
/// partially supported (`transparent`, `behavioral`), and for unsupported keys planned and not
/// (`working_on`, `not_planned`), a table and a documentation block each.
pub open spec fn section_context(o: SchemaOverlay, section: Seq<char>, issues: Map<u64, Seq<char>>) -> (
    Seq<(Seq<char>, Seq<char>)>,
    Map<u64, Seq<char>>,
) {
    let sup = supported_in(o.supported@, section);
    let un = unsupported_in(o.unsupported@, section);
    let a = supported_slice(sup, OverlaySupportLevel::Full, issues);
    let b = supported_slice(sup, OverlaySupportLevel::Partial, a.2);
    let c = unsupported_slice(un, true, b.2);
    let d = unsupported_slice(un, false, c.2);
    (
        seq![
            (section + "_transparent_table"@, a.0),
            (section + "_transparent_docs"@, a.1),
            (section + "_behavioral_table"@, b.0),
            (section + "_behavioral_docs"@, b.1),
            (section + "_working_on_table"@, c.0),
            (section + "_working_on_docs"@, c.1),
            (section + "_not_planned_table"@, d.0),
            (section + "_not_planned_docs"@, d.1),
        ],
        d.2,
    )
}

/// The context entries of the given sections, in order, and the issues after them.
pub open spec fn sections_context(o: SchemaOverlay, sections: Seq<Seq<char>>) -> (
    Seq<(Seq<char>, Seq<char>)>,
    Map<u64, Seq<char>>,
)
    decreases sections.len(),
{
    if sections.len() == 0 {
        (Seq::empty(), Map::empty())
    } else {
        let before = sections_context(o, sections.drop_last());
        let this = section_context(o, sections.last(), before.1);
        (before.0 + this.0, this.1)
    }
}

/// The keys under investigation.
pub open spec fn investigated<'a>(es: Seq<(String, Investigate)>) -> Seq<(&'a String, &'a Investigate)> {
    es.map_values(|e: (String, Investigate)| (&e.0, &e.1))
}

/// Whether `ctx` is the documentation's context: each section's entries, then the table of keys
/// under investigation, then the reference definitions of every issue recorded, in ascending
/// number order.
pub open spec fn is_documentation_context(o: SchemaOverlay, ctx: Seq<(Seq<char>, Seq<char>)>) -> bool {
    let s = sections_context(o, section_names());
    let inv = investigate_slice(investigated(o.investigate@), s.1);
    exists|pairs: Seq<(u64, Seq<char>)>|
        #[trigger] lists_issues(pairs, inv.1) && ctx == s.0 + seq![
            ("investigate_table"@, inv.0),
            ("issue_references"@, refs_text(pairs)),
        ]
}

/// Whether a key's pipelines, where listed, name at least one pipeline.
pub open spec fn pipelines_nonempty(pa: PipelineAffinity) -> bool {
    pa matches PipelineAffinity::Pipelines(ps) ==> ps@.len() > 0
}

/// Whether every key's pipelines name at least one pipeline.
pub open spec fn pipelines_named(o: SchemaOverlay) -> bool {
    &&& forall|i: int| 0 <= i < o.supported@.len() ==> pipelines_nonempty((#[trigger] o.supported@[i]).1.pipelines)
    &&& forall|i: int| 0 <= i < o.unsupported@.len() ==> pipelines_nonempty((#[trigger] o.unsupported@[i]).1.pipelines)
}

/// A context as plain values.
pub open spec fn context_view(ctx: Seq<(String, String)>) -> Seq<(Seq<char>, Seq<char>)> {
    ctx.map_values(|e: (String, String)| (e.0@, e.1@))
}

fn suffixed(section: &str, suffix: &str) -> (r: String)
    ensures
        r@ == section@ + suffix@,
{
    let mut r = owned(section);
    push_str(&mut r, suffix);
    r
}

fn supported_of_section<'a>(es: &'a Vec<(String, Supported)>, section: &str) -> (r: Vec<(&'a String, &'a Supported)>)
    requires
        forall|i: int| 0 <= i < es@.len() ==> pipelines_nonempty((#[trigger] es@[i]).1.pipelines),
    ensures
        r@ == supported_in(es@, section@),
{
    let mut r: Vec<(&String, &Supported)> = Vec::new();
    let mut i: usize = 0;
    while i < es.len()
        invariant
            i <= es.len(),
            forall|k: int| 0 <= k < es@.len() ==> pipelines_nonempty((#[trigger] es@[k]).1.pipelines),
            r@ == supported_in(es@.take(i as int), section@),
        decreases es.len() - i,
    {
        proof {
            assert(es@.take(i + 1).drop_last() =~= es@.take(i as int));
        }
        let name = classify_pipeline(&es[i].1.pipelines);
        if crate::text::str_eq(name, section) {
            r.push((&es[i].0, &es[i].1));
        }
        i = i + 1;
    }
    assert(es@.take(i as int) =~= es@);
    r
}

fn unsupported_of_section<'a>(es: &'a Vec<(String, Unsupported)>, section: &str) -> (r: Vec<(&'a String, &'a Unsupported)>)
    requires
        forall|i: int| 0 <= i < es@.len() ==> pipelines_nonempty((#[trigger] es@[i]).1.pipelines),
    ensures
        r@ == unsupported_in(es@, section@),
{
    let mut r: Vec<(&String, &Unsupported)> = Vec::new();
    let mut i: usize = 0;
    while i < es.len()
        invariant
            i <= es.len(),
            forall|k: int| 0 <= k < es@.len() ==> pipelines_nonempty((#[trigger] es@[k]).1.pipelines),
            r@ == unsupported_in(es@.take(i as int), section@),
        decreases es.len() - i,
    {
        proof {
            assert(es@.take(i + 1).drop_last() =~= es@.take(i as int));
        }
        let name = classify_pipeline(&es[i].1.pipelines);
        if crate::text::str_eq(name, section) {
            r.push((&es[i].0, &es[i].1));
        }
        i = i + 1;
    }
    assert(es@.take(i as int) =~= es@);
    r
}

fn section_names_vec() -> (v: Vec<&'static str>)
    ensures
        v@.map_values(|s: &str| s@) == section_names(),
{
    let v: Vec<&'static str> = vec!["cross_cutting", "dogstatsd", "checks", "otlp", "traces"];
    assert(v@.map_values(|s: &str| s@) =~= section_names());
    v
}

/// Builds the documentation's context: the named tables and documentation blocks the template
/// renders.
pub fn documentation_context(overlay: &SchemaOverlay) -> (r: Vec<(String, String)>)
    requires
        pipelines_named(*overlay),
    ensures
        is_documentation_context(*overlay, context_view(r@)),
{
    let sections = section_names_vec();
    let ghost names = sections@.map_values(|s: &str| s@);
    let mut issues: BTreeMap<u64, String> = BTreeMap::new();
    let mut ctx: Vec<(String, String)> = Vec::new();
    let mut k: usize = 0;
    assert(names.take(0) =~= Seq::<Seq<char>>::empty());
    assert(context_view(ctx@) =~= Seq::<(Seq<char>, Seq<char>)>::empty());
    assert(issues_view(issues@) =~= Map::<u64, Seq<char>>::empty());
    while k < sections.len()
        invariant
            k <= sections.len(),
            names == sections@.map_values(|s: &str| s@),
            names == section_names(),
            pipelines_named(*overlay),
            context_view(ctx@) == sections_context(*overlay, names.take(k as int)).0,
            issues_view(issues@) == sections_context(*overlay, names.take(k as int)).1,
        decreases sections.len() - k,
    {
        let section = sections[k];
        let sup = supported_of_section(&overlay.supported, section);
        let un = unsupported_of_section(&overlay.unsupported, section);
        let ghost before = ctx@;
        let (t1, d1) = build_supported_slice(&sup, OverlaySupportLevel::Full, &mut issues);
        let (t2, d2) = build_supported_slice(&sup, OverlaySupportLevel::Partial, &mut issues);
        let (t3, d3) = build_unsupported_slice(&un, true, &mut issues);
        let (t4, d4) = build_unsupported_slice(&un, false, &mut issues);
        ctx.push((suffixed(section, "_transparent_table"), t1));
        ctx.push((suffixed(section, "_transparent_docs"), d1));
        ctx.push((suffixed(section, "_behavioral_table"), t2));
        ctx.push((suffixed(section, "_behavioral_docs"), d2));
        ctx.push((suffixed(section, "_working_on_table"), t3));
        ctx.push((suffixed(section, "_working_on_docs"), d3));
        ctx.push((suffixed(section, "_not_planned_table"), t4));
        ctx.push((suffixed(section, "_not_planned_docs"), d4));
        proof {
            let next = names.take(k + 1);
            assert(next.drop_last() =~= names.take(k as int));
            assert(next.last() == section@);
            assert(context_view(ctx@) =~= context_view(before) + section_context(
                *overlay,
                section@,
                sections_context(*overlay, names.take(k as int)).1,
            ).0);
        }
        k = k + 1;
    }
    assert(names.take(k as int) =~= section_names());
    let mut inv: Vec<(&String, &Investigate)> = Vec::new();
    let mut j: usize = 0;
    while j < overlay.investigate.len()
        invariant
            j <= overlay.investigate.len(),
            inv@ == investigated(overlay.investigate@.take(j as int)),
        decreases overlay.investigate.len() - j,
    {
        inv.push((&overlay.investigate[j].0, &overlay.investigate[j].1));
        assert(inv@ =~= investigated(overlay.investigate@.take(j + 1)));
        j = j + 1;
    }
    assert(overlay.investigate@.take(j as int) =~= overlay.investigate@);
    let (it, _) = build_investigate_slice(&inv, &mut issues);
    let refs = issue_references(&issues);
    let ghost before = ctx@;
    ctx.push((owned("investigate_table"), it));
    ctx.push((owned("issue_references"), refs));
    proof {
        let s = sections_context(*overlay, section_names());
        let iv = investigate_slice(investigated(overlay.investigate@), s.1);
        assert(it@ == iv.0 && issues_view(issues@) == iv.1);
        let pairs = choose|pairs: Seq<(u64, Seq<char>)>|
            #[trigger] lists_issues(pairs, issues_view(issues@)) && refs@ == refs_text(pairs);
        assert(context_view(ctx@) =~= context_view(before) + seq![
            ("investigate_table"@, it@),
            ("issue_references"@, refs@),
        ]);
        assert(lists_issues(pairs, iv.1) && context_view(ctx@) == s.0 + seq![
            ("investigate_table"@, iv.0),
            ("issue_references"@, refs_text(pairs)),
        ]);
    }
    ctx
}

/// What rendering `template` with the context `context` gives (`TinyTemplate::render`, with
/// values inserted unescaped): the rendered text, or the parse or render error's message.
pub uninterp spec fn template_output(template: Seq<char>, context: Seq<(Seq<char>, Seq<char>)>) -> Result<
    Seq<char>,
    Seq<char>,
>;

/// Renders `template` with the context `context` (`tinytemplate`, values inserted unescaped);
/// the result is named by `template_output`.
#[verifier::external_body]
fn render_template(template: &str, context: &Vec<(String, String)>) -> (r: Result<String, String>)
    ensures
        match r {
            Ok(s) => template_output(template@, context_view(context@)) == Ok::<Seq<char>, Seq<char>>(s@),
            Err(e) => template_output(template@, context_view(context@)) == Err::<Seq<char>, Seq<char>>(e@),
        },
{
    let mut tt = tinytemplate::TinyTemplate::new();
    tt.set_default_formatter(&tinytemplate::format_unescaped);
    tt.add_template("doc", template).map_err(|e| e.to_string())?;
    let ctx: std::collections::HashMap<&str, &str> =
        context.iter().map(|(k, v)| (k.as_str(), v.as_str())).collect();
    tt.render("doc", &ctx).map_err(|e| e.to_string())
}

/// Renders the documentation of the overlay's keys with `template`: the rendered text, or the
/// template's parse or render error.
pub fn render_documentation(template: &str, overlay: &SchemaOverlay) -> (r: Result<String, String>)
    requires
        pipelines_named(*overlay),
    ensures
        exists|ctx: Seq<(Seq<char>, Seq<char>)>| #[trigger] is_documentation_context(*overlay, ctx) && match r {
            Ok(s) => template_output(template@, ctx) == Ok::<Seq<char>, Seq<char>>(s@),
            Err(e) => template_output(template@, ctx) == Err::<Seq<char>, Seq<char>>(e@),
        },
{
    let ctx = documentation_context(overlay);
    render_template(template, &ctx)
}

} // verus!
