use vstd::prelude::*;

use crate::row::{Row, RowEntryView};
use crate::text::{dec_int, digit_char, i64_to_dec, push_char};
use crate::value::{lemma_values_view, value_view, values_view, DataValue, ValueView};

verus! {

/// The echo of the dataset: each table's name with that table's rows, in
/// document order, ready to be serialized without any SQL transformation.
pub struct JsonRawModel {
    pub data: Vec<JsonTableEntry>,
}

/// One table of the echo: its name and its rows, in document order.
pub struct JsonTableEntry {
    pub name: String,
    pub rows: Vec<Row>,
}

#[verifier::ext_equal]
pub struct JsonTableView {
    pub name: Seq<char>,
    pub rows: Seq<Seq<RowEntryView>>,
}

impl View for JsonTableEntry {
    type V = JsonTableView;

    open spec fn view(&self) -> JsonTableView {
        JsonTableView { name: self.name@, rows: crate::row::rows_view(self.rows@) }
    }
}

impl View for JsonRawModel {
    type V = Seq<JsonTableView>;

    open spec fn view(&self) -> Seq<JsonTableView> {
        Seq::new(self.data@.len(), |i: int| self.data@[i]@)
    }
}

/// The lower-case hexadecimal digit character for `d` (`0 <= d <= 15`).
pub open spec fn hex_char(d: int) -> char {
    if d < 10 {
        digit_char(d)
    } else {
        ((87 + d) as u8) as char
    }
}

/// The escape of one character inside a JSON string: quote and backslash
/// are escaped, control characters become their short escape or a
/// `\u00..` group, everything else stands as it is.
pub open spec fn esc_json_char(c: char) -> Seq<char> {
    if c == '"' {
        seq!['\\', '"']
    } else if c == '\\' {
        seq!['\\', '\\']
    } else if c == '\u{8}' {
        seq!['\\', 'b']
    } else if c == '\t' {
        seq!['\\', 't']
    } else if c == '\n' {
        seq!['\\', 'n']
    } else if c == '\u{c}' {
        seq!['\\', 'f']
    } else if c == '\r' {
        seq!['\\', 'r']
    } else if (c as int) < 32 {
        seq!['\\', 'u', '0', '0', hex_char(c as int / 16), hex_char(c as int % 16)]
    } else {
        seq![c]
    }
}

pub open spec fn spec_escape_json(s: Seq<char>) -> Seq<char>
    decreases s.len(),
{
    if s.len() == 0 {
        Seq::empty()
    } else {
        spec_escape_json(s.drop_last()) + esc_json_char(s.last())
    }
}

/// A double-quoted JSON string with its content escaped.
pub open spec fn spec_json_str(s: Seq<char>) -> Seq<char> {
    seq!['"'] + spec_escape_json(s) + seq!['"']
}

/// The JSON text of one value, exactly as the input document spelled it;
/// a value of the `Other` kind has no echo text.
pub open spec fn spec_json_value(v: ValueView) -> Option<Seq<char>>
    decreases v, 1int,
{
    match v {
        ValueView::Bool(b) => Some(if b { "true"@ } else { "false"@ }),
        ValueView::Int(i) => Some(dec_int(i)),
        ValueView::Str(s) => Some(spec_json_str(s)),
        ValueView::Null => Some("null"@),
        ValueView::List(elems) => spec_json_list(elems),
        ValueView::Other => None,
    }
}

/// The first `n` elements of a JSON array body, comma-joined.
pub open spec fn spec_json_elems_upto(elems: Seq<ValueView>, n: int) -> Option<Seq<char>>
    decreases elems, n,
{
    if n <= 0 || n > elems.len() {
        Some(Seq::empty())
    } else {
        match spec_json_elems_upto(elems, n - 1) {
            None => None,
            Some(acc) => match spec_json_value(elems[n - 1]) {
                None => None,
                Some(t) => Some(if n == 1 { t } else { acc + seq![','] + t }),
            },
        }
    }
}

/// The bracket-delimited JSON text of a list value.
pub open spec fn spec_json_list(elems: Seq<ValueView>) -> Option<Seq<char>>
    decreases elems, elems.len() + 1,
{
    match spec_json_elems_upto(elems, elems.len() as int) {
        None => None,
        Some(t) => Some(seq!['['] + t + seq![']']),
    }
}

/// The first `n` entries of a JSON object body: quoted key, colon, value,
/// comma-joined, in entry order.
pub open spec fn spec_json_entries_upto(row: Seq<RowEntryView>, n: int) -> Option<Seq<char>>
    decreases n,
{
    if n <= 0 || n > row.len() {
        Some(Seq::empty())
    } else {
        match spec_json_entries_upto(row, n - 1) {
            None => None,
            Some(acc) => match spec_json_value(row[n - 1].value) {
                None => None,
                Some(t) => {
                    let entry = spec_json_str(row[n - 1].key) + seq![':'] + t;
                    Some(if n == 1 { entry } else { acc + seq![','] + entry })
                },
            },
        }
    }
}

/// The brace-delimited JSON text of one row, entries in row order.
pub open spec fn spec_json_row(row: Seq<RowEntryView>) -> Option<Seq<char>> {
    match spec_json_entries_upto(row, row.len() as int) {
        None => None,
        Some(t) => Some(seq!['{'] + t + seq!['}']),
    }
}

/// The first `n` rows of a JSON array of rows, comma-joined.
pub open spec fn spec_json_rows_upto(rows: Seq<Seq<RowEntryView>>, n: int) -> Option<Seq<char>>
    decreases n,
{
    if n <= 0 || n > rows.len() {
        Some(Seq::empty())
    } else {
        match spec_json_rows_upto(rows, n - 1) {
            None => None,
            Some(acc) => match spec_json_row(rows[n - 1]) {
                None => None,
                Some(t) => Some(if n == 1 { t } else { acc + seq![','] + t }),
            },
        }
    }
}

/// The bracket-delimited JSON text of one table's rows, in row order.
pub open spec fn spec_json_rows(rows: Seq<Seq<RowEntryView>>) -> Option<Seq<char>> {
    match spec_json_rows_upto(rows, rows.len() as int) {
        None => None,
        Some(t) => Some(seq!['['] + t + seq![']']),
    }
}

/// The first `n` tables of the echo document body: quoted table name,
/// colon, that table's rows, comma-joined, in table order.
pub open spec fn spec_json_tables_upto(data: Seq<JsonTableView>, n: int) -> Option<Seq<char>>
    decreases n,
{
    if n <= 0 || n > data.len() {
        Some(Seq::empty())
    } else {
        match spec_json_tables_upto(data, n - 1) {
            None => None,
            Some(acc) => match spec_json_rows(data[n - 1].rows) {
                None => None,
                Some(t) => {
                    let entry = spec_json_str(data[n - 1].name) + seq![':'] + t;
                    Some(if n == 1 { entry } else { acc + seq![','] + entry })
                },
            },
        }
    }
}

/// The whole echo document: one JSON object from table name to row list,
/// in table order.
pub open spec fn spec_json_model(data: Seq<JsonTableView>) -> Option<Seq<char>> {
    match spec_json_tables_upto(data, data.len() as int) {
        None => None,
        Some(t) => Some(seq!['{'] + t + seq!['}']),
    }
}

/// Escapes `s` for use inside a double-quoted JSON string.
fn escape_json(s: &str) -> (r: String)
    ensures
        r@ == spec_escape_json(s@),
{
    let mut out = String::new();
    let n = s.unicode_len();
    let mut i: usize = 0;
    proof {
        assert(s@.take(0) =~= Seq::<char>::empty());
    }
    while i < n
        invariant
            n as nat == s@.len(),
            i <= n,
            out@ == spec_escape_json(s@.take(i as int)),
        decreases n - i,
    {
        let c = s.get_char(i);
        if c == '"' {
            push_char(&mut out, '\\');
            push_char(&mut out, '"');
        } else if c == '\\' {
            push_char(&mut out, '\\');
            push_char(&mut out, '\\');
        } else if c == '\u{8}' {
            push_char(&mut out, '\\');
            push_char(&mut out, 'b');
        } else if c == '\t' {
            push_char(&mut out, '\\');
            push_char(&mut out, 't');
        } else if c == '\n' {
            push_char(&mut out, '\\');
            push_char(&mut out, 'n');
        } else if c == '\u{c}' {
            push_char(&mut out, '\\');
            push_char(&mut out, 'f');
        } else if c == '\r' {
            push_char(&mut out, '\\');
            push_char(&mut out, 'r');
        } else if (c as u32) < 32 {
            let code = c as u32;
            push_char(&mut out, '\\');
            push_char(&mut out, 'u');
            push_char(&mut out, '0');
            push_char(&mut out, '0');
            let hi = code / 16;
            let lo = code % 16;
            push_char(&mut out, if hi < 10 { (48 + hi as u8) as char } else { (87 + hi as u8) as char });
            push_char(&mut out, if lo < 10 { (48 + lo as u8) as char } else { (87 + lo as u8) as char });
        } else {
            push_char(&mut out, c);
        }
        proof {
            assert(s@.take(i as int + 1).drop_last() =~= s@.take(i as int));
            assert(s@.take(i as int + 1).last() == s@[i as int]);
            assert(out@ =~= spec_escape_json(s@.take(i as int + 1)));
        }
        i = i + 1;
    }
    proof {
        assert(s@.take(n as int) =~= s@);
    }
    out
}

/// The double-quoted, escaped JSON text of `s`.
fn json_quote(s: &str) -> (r: String)
    ensures
        r@ == spec_json_str(s@),
{
    let mut out = String::new();
    push_char(&mut out, '"');
    let esc = escape_json(s);
    out.append(esc.as_str());
    push_char(&mut out, '"');
    proof {
        assert(out@ =~= spec_json_str(s@));
    }
    out
}

/// An element without echo text fails every longer array prefix.
proof fn lemma_json_elems_none(elems: Seq<ValueView>, k: int, n: int)
    requires
        0 <= k < n <= elems.len(),
        spec_json_value(elems[k]) is None,
    ensures
        spec_json_elems_upto(elems, n) is None,
    decreases n,
{
    if n - 1 > k {
        lemma_json_elems_none(elems, k, n - 1);
    }
}

/// An entry without echo text fails every longer object prefix.
proof fn lemma_json_entries_none(row: Seq<RowEntryView>, k: int, n: int)
    requires
        0 <= k < n <= row.len(),
        spec_json_value(row[k].value) is None,
    ensures
        spec_json_entries_upto(row, n) is None,
    decreases n,
{
    if n - 1 > k {
        lemma_json_entries_none(row, k, n - 1);
    }
}

/// A row without echo text fails every longer row-list prefix.
proof fn lemma_json_rows_none(rows: Seq<Seq<RowEntryView>>, k: int, n: int)
    requires
        0 <= k < n <= rows.len(),
        spec_json_row(rows[k]) is None,
    ensures
        spec_json_rows_upto(rows, n) is None,
    decreases n,
{
    if n - 1 > k {
        lemma_json_rows_none(rows, k, n - 1);
    }
}

/// A table without echo text fails every longer document prefix.
proof fn lemma_json_tables_none(data: Seq<JsonTableView>, k: int, n: int)
    requires
        0 <= k < n <= data.len(),
        spec_json_rows(data[k].rows) is None,
    ensures
        spec_json_tables_upto(data, n) is None,
    decreases n,
{
    if n - 1 > k {
        lemma_json_tables_none(data, k, n - 1);
    }
}

/// The JSON echo text of one value; `None` for a value of the `Other`
/// kind, which has no faithful echo.
pub fn json_value(v: &DataValue) -> (r: Option<String>)
    ensures
        match r {
            Some(s) => spec_json_value(v@) == Some(s@),
            None => spec_json_value(v@) is None,
        },
    decreases *v, 1int,
{
    match v {
        DataValue::Bool(b) => {
            if *b {
                Some("true".to_owned())
            } else {
                Some("false".to_owned())
            }
        },
        DataValue::Int(i) => Some(i64_to_dec(*i)),
        DataValue::Str(s) => Some(json_quote(s.as_str())),
        DataValue::Null => Some("null".to_owned()),
        DataValue::List(elems) => json_list(elems),
        DataValue::Other => None,
    }
}

/// The JSON echo text of a list value.
fn json_list(elems: &Vec<DataValue>) -> (r: Option<String>)
    ensures
        match r {
            Some(s) => spec_json_list(values_view(elems@)) == Some(s@),
            None => spec_json_list(values_view(elems@)) is None,
        },
    decreases elems@, elems@.len() + 2,
{
    let ghost vv = values_view(elems@);
    proof {
        lemma_values_view(elems@);
    }
    let mut out = String::new();
    push_char(&mut out, '[');
    let n = elems.len();
    let mut k: usize = 0;
    while k < n
        invariant
            n == elems@.len(),
            vv == values_view(elems@),
            vv.len() == n,
            forall|j: int| 0 <= j < n ==> vv[j] == value_view(elems@[j]),
            k <= n,
            spec_json_elems_upto(vv, k as int) is Some,
            out@ == seq!['['] + spec_json_elems_upto(vv, k as int).unwrap(),
        decreases elems@, n - k,
    {
        match json_value(&elems[k]) {
            None => {
                proof {
                    lemma_json_elems_none(vv, k as int, vv.len() as int);
                }
                return None;
            },
            Some(t) => {
                if k > 0 {
                    push_char(&mut out, ',');
                }
                out.append(t.as_str());
                proof {
                    assert(out@ =~= seq!['['] + spec_json_elems_upto(vv, k as int + 1).unwrap());
                }
            },
        }
        k = k + 1;
    }
    push_char(&mut out, ']');
    proof {
        assert(out@ =~= seq!['['] + spec_json_elems_upto(vv, n as int).unwrap() + seq![']']);
    }
    Some(out)
}

/// The JSON echo text of one row: its entries in row order, keys and
/// values exactly as the input document held them.
pub fn json_row(row: &Row) -> (r: Option<String>)
    ensures
        match r {
            Some(s) => spec_json_row(row@) == Some(s@),
            None => spec_json_row(row@) is None,
        },
{
    let ghost rv = row@;
    let mut out = String::new();
    push_char(&mut out, '{');
    let n = row.entries.len();
    let mut k: usize = 0;
    while k < n
        invariant
            n == row.entries@.len(),
            rv == row@,
            rv.len() == n,
            k <= n,
            spec_json_entries_upto(rv, k as int) is Some,
            out@ == seq!['{'] + spec_json_entries_upto(rv, k as int).unwrap(),
        decreases n - k,
    {
        match json_value(&row.entries[k].value) {
            None => {
                proof {
                    assert(rv[k as int].value == row.entries@[k as int].value@);
                    lemma_json_entries_none(rv, k as int, rv.len() as int);
                }
                return None;
            },
            Some(t) => {
                if k > 0 {
                    push_char(&mut out, ',');
                }
                let key = json_quote(row.entries[k].key.as_str());
                out.append(key.as_str());
                push_char(&mut out, ':');
                out.append(t.as_str());
                proof {
                    assert(rv[k as int] == row.entries@[k as int]@);
                    assert(out@ =~= seq!['{'] + spec_json_entries_upto(rv, k as int + 1).unwrap());
                }
            },
        }
        k = k + 1;
    }
    push_char(&mut out, '}');
    proof {
        assert(out@ =~= seq!['{'] + spec_json_entries_upto(rv, n as int).unwrap() + seq!['}']);
    }
    Some(out)
}

/// The JSON echo text of one table's rows, in row order.
pub fn json_rows(rows: &Vec<Row>) -> (r: Option<String>)
    ensures
        match r {
            Some(s) => spec_json_rows(crate::row::rows_view(rows@)) == Some(s@),
            None => spec_json_rows(crate::row::rows_view(rows@)) is None,
        },
{
    let ghost rsv = crate::row::rows_view(rows@);
    let mut out = String::new();
    push_char(&mut out, '[');
    let n = rows.len();
    let mut k: usize = 0;
    while k < n
        invariant
            n == rows@.len(),
            rsv == crate::row::rows_view(rows@),
            rsv.len() == n,
            k <= n,
            spec_json_rows_upto(rsv, k as int) is Some,
            out@ == seq!['['] + spec_json_rows_upto(rsv, k as int).unwrap(),
        decreases n - k,
    {
        match json_row(&rows[k]) {
            None => {
                proof {
                    assert(rsv[k as int] == rows@[k as int]@);
                    lemma_json_rows_none(rsv, k as int, rsv.len() as int);
                }
                return None;
            },
            Some(t) => {
                if k > 0 {
                    push_char(&mut out, ',');
                }
                out.append(t.as_str());
                proof {
                    assert(rsv[k as int] == rows@[k as int]@);
                    assert(out@ =~= seq!['['] + spec_json_rows_upto(rsv, k as int + 1).unwrap());
                }
            },
        }
        k = k + 1;
    }
    push_char(&mut out, ']');
    proof {
        assert(out@ =~= seq!['['] + spec_json_rows_upto(rsv, n as int).unwrap() + seq![']']);
    }
    Some(out)
}

/// The JSON echo text of the whole document, tables in document order.
pub fn json_model(m: &JsonRawModel) -> (r: Option<String>)
    ensures
        match r {
            Some(s) => spec_json_model(m@) == Some(s@),
            None => spec_json_model(m@) is None,
        },
{
    let ghost dv = m@;
    let mut out = String::new();
    push_char(&mut out, '{');
    let n = m.data.len();
    let mut k: usize = 0;
    while k < n
        invariant
            n == m.data@.len(),
            dv == m@,
            dv.len() == n,
            k <= n,
            spec_json_tables_upto(dv, k as int) is Some,
            out@ == seq!['{'] + spec_json_tables_upto(dv, k as int).unwrap(),
        decreases n - k,
    {
        match json_rows(&m.data[k].rows) {
            None => {
                proof {
                    assert(dv[k as int] == m.data@[k as int]@);
                    lemma_json_tables_none(dv, k as int, dv.len() as int);
                }
                return None;
            },
            Some(t) => {
                if k > 0 {
                    push_char(&mut out, ',');
                }
                let key = json_quote(m.data[k].name.as_str());
                out.append(key.as_str());
                push_char(&mut out, ':');
                out.append(t.as_str());
                proof {
                    assert(dv[k as int] == m.data@[k as int]@);
                    assert(out@ =~= seq!['{'] + spec_json_tables_upto(dv, k as int + 1).unwrap());
                }
            },
        }
        k = k + 1;
    }
    push_char(&mut out, '}');
    proof {
        assert(out@ =~= seq!['{'] + spec_json_tables_upto(dv, n as int).unwrap() + seq!['}']);
    }
    Some(out)
}

} // verus!
