use vstd::prelude::*;

use crate::row::{spec_lookup, Row, RowEntryView};
use crate::text::{dec_int, i64_to_dec, push_char};
use crate::value::{lemma_values_view, value_view, values_view, DataValue, ValueView};

verus! {

/// The column types the composer knows.
#[derive(Clone, Copy, PartialEq, Eq, Structural, Debug)]
pub enum SqlType {
    UUID,
    Text,
    Array,
}

/// One column of a table insert set: its name and its type.
pub struct SqlColumn {
    pub name: String,
    pub sql_type: SqlType,
}

#[verifier::ext_equal]
pub struct SqlColumnView {
    pub name: Seq<char>,
    pub sql_type: SqlType,
}

impl View for SqlColumn {
    type V = SqlColumnView;

    open spec fn view(&self) -> SqlColumnView {
        SqlColumnView { name: self.name@, sql_type: self.sql_type }
    }
}

impl Clone for SqlColumn {
    fn clone(&self) -> (r: Self)
        ensures
            r@ == self@,
    {
        let r = SqlColumn { name: self.name.clone(), sql_type: self.sql_type };
        proof {
            assert(r@ =~= self@);
        }
        r
    }
}

/// One table's insert set: the table name, the declared columns in output
/// order, and the rows in output order.
pub struct SqlInsertModel {
    pub table_name: String,
    pub columns: Vec<SqlColumn>,
    pub inserts: Vec<Row>,
}

#[verifier::ext_equal]
pub struct SqlModelView {
    pub table_name: Seq<char>,
    pub columns: Seq<SqlColumnView>,
    pub inserts: Seq<Seq<RowEntryView>>,
}

impl View for SqlInsertModel {
    type V = SqlModelView;

    open spec fn view(&self) -> SqlModelView {
        SqlModelView {
            table_name: self.table_name@,
            columns: Seq::new(self.columns@.len(), |i: int| self.columns@[i]@),
            inserts: crate::row::rows_view(self.inserts@),
        }
    }
}

/// Why a statement could not be composed: a declared column without an
/// entry in some row, or a value of an unsupported kind.
#[derive(Debug)]
pub enum StringifyInsertError {
    ValueNotFoundForColumn(String),
    Invalid,
}

#[verifier::ext_equal]
pub enum StringifyErrorView {
    ValueNotFoundForColumn(Seq<char>),
    Invalid,
}

impl View for StringifyInsertError {
    type V = StringifyErrorView;

    open spec fn view(&self) -> StringifyErrorView {
        match self {
            StringifyInsertError::ValueNotFoundForColumn(s) => StringifyErrorView::ValueNotFoundForColumn(
                s@,
            ),
            StringifyInsertError::Invalid => StringifyErrorView::Invalid,
        }
    }
}

/// The escape of one character inside a single-quoted SQL literal: a
/// single quote is doubled, everything else stands as it is.
pub open spec fn esc_sql_char(c: char) -> Seq<char> {
    if c == '\'' {
        seq!['\'', '\'']
    } else {
        seq![c]
    }
}

pub open spec fn spec_escape_sql(s: Seq<char>) -> Seq<char>
    decreases s.len(),
{
    if s.len() == 0 {
        Seq::empty()
    } else {
        spec_escape_sql(s.drop_last()) + esc_sql_char(s.last())
    }
}

/// A single-quoted SQL string literal with its content escaped.
pub open spec fn spec_quote_sql(s: Seq<char>) -> Seq<char> {
    seq!['\''] + spec_escape_sql(s) + seq!['\'']
}

/// The SQL literal of one value standing directly in a column slot.
/// Booleans are unquoted, strings are quoted and escaped, null becomes the
/// `NULL` keyword, and a list becomes a brace-delimited group. A bare
/// integer and every `Other` kind have no literal here.
pub open spec fn spec_encode_cell(v: ValueView) -> Option<Seq<char>>
    decreases v, 1int,
{
    match v {
        ValueView::Bool(b) => Some(if b { "true"@ } else { "false"@ }),
        ValueView::Int(_) => None,
        ValueView::Str(s) => Some(spec_quote_sql(s)),
        ValueView::Null => Some("NULL"@),
        ValueView::List(elems) => spec_encode_list(elems),
        ValueView::Other => None,
    }
}

/// The SQL literal of one element inside a list: as in a column slot, and
/// an integer additionally becomes its decimal text.
pub open spec fn spec_encode_elem(v: ValueView) -> Option<Seq<char>>
    decreases v, 1int,
{
    match v {
        ValueView::Bool(b) => Some(if b { "true"@ } else { "false"@ }),
        ValueView::Int(i) => Some(dec_int(i)),
        ValueView::Str(s) => Some(spec_quote_sql(s)),
        ValueView::Null => Some("NULL"@),
        ValueView::List(elems) => spec_encode_list(elems),
        ValueView::Other => None,
    }
}

/// The first `n` elements of `elems` encoded and joined with `", "`, or
/// `None` as soon as one of them has no literal.
pub open spec fn spec_encode_elems_upto(elems: Seq<ValueView>, n: int) -> Option<Seq<char>>
    decreases elems, n,
{
    if n <= 0 || n > elems.len() {
        Some(Seq::empty())
    } else {
        match spec_encode_elems_upto(elems, n - 1) {
            None => None,
            Some(acc) => match spec_encode_elem(elems[n - 1]) {
                None => None,
                Some(t) => Some(if n == 1 { t } else { acc + ", "@ + t }),
            },
        }
    }
}

/// The brace-delimited SQL literal of a whole list.
pub open spec fn spec_encode_list(elems: Seq<ValueView>) -> Option<Seq<char>>
    decreases elems, elems.len() + 1,
{
    match spec_encode_elems_upto(elems, elems.len() as int) {
        None => None,
        Some(t) => Some(seq!['{'] + t + seq!['}']),
    }
}

/// Escapes `s` for use inside a single-quoted SQL literal.
fn escape_sql(s: &str) -> (r: String)
    ensures
        r@ == spec_escape_sql(s@),
{
    let mut out = String::new();
    let n = s.unicode_len();
    let mut i: usize = 0;
    proof {
        assert(s@.take(0) =~= Seq::<char>::empty());
    }
    while i < n
        invariant
            n as nat == s@.len(),
            i <= n,
            out@ == spec_escape_sql(s@.take(i as int)),
        decreases n - i,
    {
        let c = s.get_char(i);
        if c == '\'' {
            push_char(&mut out, '\'');
            push_char(&mut out, '\'');
        } else {
            push_char(&mut out, c);
        }
        proof {
            assert(s@.take(i as int + 1).drop_last() =~= s@.take(i as int));
            assert(s@.take(i as int + 1).last() == s@[i as int]);
            assert(out@ =~= spec_escape_sql(s@.take(i as int + 1)));
        }
        i = i + 1;
    }
    proof {
        assert(s@.take(n as int) =~= s@);
    }
    out
}

/// The single-quoted, escaped SQL literal of `s`.
fn quote_sql(s: &str) -> (r: String)
    ensures
        r@ == spec_quote_sql(s@),
{
    let mut out = String::new();
    push_char(&mut out, '\'');
    let esc = escape_sql(s);
    out.append(esc.as_str());
    push_char(&mut out, '\'');
    proof {
        assert(out@ =~= spec_quote_sql(s@));
    }
    out
}

/// If one element of `elems` has no literal, neither has any longer prefix.
proof fn lemma_elems_upto_none(elems: Seq<ValueView>, k: int, n: int)
    requires
        0 <= k < n <= elems.len(),
        spec_encode_elem(elems[k]) is None,
    ensures
        spec_encode_elems_upto(elems, n) is None,
    decreases n,
{
    if n - 1 > k {
        lemma_elems_upto_none(elems, k, n - 1);
    }
}

/// Encodes one element of a list.
fn encode_elem(v: &DataValue) -> (r: Result<String, StringifyInsertError>)
    ensures
        match r {
            Ok(s) => spec_encode_elem(v@) == Some(s@),
            Err(e) => spec_encode_elem(v@) is None && e@ == StringifyErrorView::Invalid,
        },
    decreases *v, 1int,
{
    match v {
        DataValue::Bool(b) => {
            if *b {
                Ok("true".to_owned())
            } else {
                Ok("false".to_owned())
            }
        },
        DataValue::Int(i) => Ok(i64_to_dec(*i)),
        DataValue::Str(s) => Ok(quote_sql(s.as_str())),
        DataValue::Null => Ok("NULL".to_owned()),
        DataValue::List(elems) => stringify_vec(elems),
        DataValue::Other => Err(StringifyInsertError::Invalid),
    }
}

/// The brace-delimited SQL literal of a list of values, every element
/// encoded recursively; fails on the first element of an unsupported kind.
pub fn stringify_vec(elems: &Vec<DataValue>) -> (r: Result<String, StringifyInsertError>)
    ensures
        match r {
            Ok(s) => spec_encode_list(values_view(elems@)) == Some(s@),
            Err(e) => spec_encode_list(values_view(elems@)) is None && e@
                == StringifyErrorView::Invalid,
        },
    decreases elems@, elems@.len() + 2,
{
    let ghost vv = values_view(elems@);
    proof {
        lemma_values_view(elems@);
    }
    let mut out = String::new();
    push_char(&mut out, '{');
    let n = elems.len();
    let mut k: usize = 0;
    while k < n
        invariant
            n == elems@.len(),
            vv == values_view(elems@),
            vv.len() == n,
            forall|j: int| 0 <= j < n ==> vv[j] == value_view(elems@[j]),
            k <= n,
            spec_encode_elems_upto(vv, k as int) is Some,
            out@ == seq!['{'] + spec_encode_elems_upto(vv, k as int).unwrap(),
        decreases elems@, n - k,
    {
        match encode_elem(&elems[k]) {
            Err(e) => {
                proof {
                    lemma_elems_upto_none(vv, k as int, vv.len() as int);
                }
                return Err(e);
            },
            Ok(t) => {
                if k > 0 {
                    out.append(", ");
                }
                out.append(t.as_str());
                proof {
                    assert(out@ =~= seq!['{'] + spec_encode_elems_upto(vv, k as int + 1).unwrap());
                }
            },
        }
        k = k + 1;
    }
    push_char(&mut out, '}');
    proof {
        assert(out@ =~= seq!['{'] + spec_encode_elems_upto(vv, n as int).unwrap() + seq!['}']);
    }
    Ok(out)
}

/// The SQL literal of one value standing directly in a column slot.
pub fn encode_value(v: &DataValue) -> (r: Result<String, StringifyInsertError>)
    ensures
        match r {
            Ok(s) => spec_encode_cell(v@) == Some(s@),
            Err(e) => spec_encode_cell(v@) is None && e@ == StringifyErrorView::Invalid,
        },
{
    match v {
        DataValue::Bool(b) => {
            if *b {
                Ok("true".to_owned())
            } else {
                Ok("false".to_owned())
            }
        },
        DataValue::Int(_) => Err(StringifyInsertError::Invalid),
        DataValue::Str(s) => Ok(quote_sql(s.as_str())),
        DataValue::Null => Ok("NULL".to_owned()),
        DataValue::List(elems) => stringify_vec(elems),
        DataValue::Other => Err(StringifyInsertError::Invalid),
    }
}

/// The declared column names, in declared order.
pub open spec fn spec_col_names(cols: Seq<SqlColumnView>) -> Seq<Seq<char>> {
    Seq::new(cols.len(), |i: int| cols[i].name)
}

/// `parts` concatenated with `sep` between consecutive parts, and nowhere
/// else.
pub open spec fn spec_join(parts: Seq<Seq<char>>, sep: Seq<char>) -> Seq<char>
    decreases parts.len(),
{
    if parts.len() == 0 {
        Seq::empty()
    } else if parts.len() == 1 {
        parts[0]
    } else {
        spec_join(parts.drop_last(), sep) + sep + parts.last()
    }
}

/// The header of one statement: table name double-quoted, column names
/// comma-joined in declared order.
pub open spec fn spec_header(m: SqlModelView) -> Seq<char> {
    "INSERT INTO \""@ + m.table_name + "\" ("@ + spec_join(spec_col_names(m.columns), ", "@)
        + ")\nVALUES "@
}

/// The literal slot of one declared column in one row: the row must hold
/// an entry under the column's name, and the entry's value must have a
/// cell literal.
pub open spec fn spec_cell(row: Seq<RowEntryView>, col: SqlColumnView) -> Result<
    Seq<char>,
    StringifyErrorView,
> {
    match spec_lookup(row, col.name) {
        None => Err(StringifyErrorView::ValueNotFoundForColumn(col.name)),
        Some(v) => match spec_encode_cell(v) {
            Some(t) => Ok(t),
            None => Err(StringifyErrorView::Invalid),
        },
    }
}

/// The literal slots of the first `n` declared columns in one row, in
/// declared order; the first failing column decides the error.
pub open spec fn spec_row_cells_upto(
    row: Seq<RowEntryView>,
    cols: Seq<SqlColumnView>,
    n: int,
) -> Result<Seq<Seq<char>>, StringifyErrorView>
    decreases n,
{
    if n <= 0 || n > cols.len() {
        Ok(Seq::empty())
    } else {
        match spec_row_cells_upto(row, cols, n - 1) {
            Err(e) => Err(e),
            Ok(cs) => match spec_cell(row, cols[n - 1]) {
                Err(e) => Err(e),
                Ok(t) => Ok(cs.push(t)),
            },
        }
    }
}

/// The literal slots of all declared columns in one row.
pub open spec fn spec_row_cells(row: Seq<RowEntryView>, cols: Seq<SqlColumnView>) -> Result<
    Seq<Seq<char>>,
    StringifyErrorView,
> {
    spec_row_cells_upto(row, cols, cols.len() as int)
}

/// One parenthesized value tuple; the last row's tuple closes the
/// statement with `);`, every other one continues with `), `.
pub open spec fn spec_tuple(
    row: Seq<RowEntryView>,
    cols: Seq<SqlColumnView>,
    last: bool,
) -> Result<Seq<char>, StringifyErrorView> {
    match spec_row_cells(row, cols) {
        Err(e) => Err(e),
        Ok(cs) => Ok(
            seq!['('] + spec_join(cs, ", "@) + (if last {
                ");"@
            } else {
                "), "@
            }),
        ),
    }
}

/// The concatenated tuples of the first `n` rows, in row order; the first
/// failing row decides the error.
pub open spec fn spec_tuples_upto(
    rows: Seq<Seq<RowEntryView>>,
    cols: Seq<SqlColumnView>,
    n: int,
) -> Result<Seq<char>, StringifyErrorView>
    decreases n,
{
    if n <= 0 || n > rows.len() {
        Ok(Seq::empty())
    } else {
        match spec_tuples_upto(rows, cols, n - 1) {
            Err(e) => Err(e),
            Ok(acc) => match spec_tuple(rows[n - 1], cols, n == rows.len()) {
                Err(e) => Err(e),
                Ok(t) => Ok(acc + t),
            },
        }
    }
}

/// The complete statement of one table: header, then all value tuples in
/// row order. A table without rows keeps the bare header.
pub open spec fn spec_statement_res(m: SqlModelView) -> Result<Seq<char>, StringifyErrorView> {
    match spec_tuples_upto(m.inserts, m.columns, m.inserts.len() as int) {
        Err(e) => Err(e),
        Ok(body) => Ok(spec_header(m) + body),
    }
}

/// A failing column fails every longer slot prefix with the same error.
proof fn lemma_row_cells_upto_err(
    row: Seq<RowEntryView>,
    cols: Seq<SqlColumnView>,
    k: int,
    n: int,
)
    requires
        0 <= k < n <= cols.len(),
        spec_row_cells_upto(row, cols, k) is Ok,
        spec_cell(row, cols[k]) is Err,
    ensures
        spec_row_cells_upto(row, cols, n) is Err,
        spec_row_cells_upto(row, cols, n)->Err_0 == spec_cell(row, cols[k])->Err_0,
    decreases n,
{
    if n - 1 > k {
        lemma_row_cells_upto_err(row, cols, k, n - 1);
    }
}

/// A failing row fails every longer tuple prefix with the same error.
proof fn lemma_tuples_upto_err(
    rows: Seq<Seq<RowEntryView>>,
    cols: Seq<SqlColumnView>,
    k: int,
    n: int,
)
    requires
        0 <= k < n <= rows.len(),
        spec_tuples_upto(rows, cols, k) is Ok,
        spec_tuple(rows[k], cols, k + 1 == rows.len()) is Err,
    ensures
        spec_tuples_upto(rows, cols, n) is Err,
        spec_tuples_upto(rows, cols, n)->Err_0 == spec_tuple(rows[k], cols, k + 1 == rows.len())->Err_0,
    decreases n,
{
    if n - 1 > k {
        lemma_tuples_upto_err(rows, cols, k, n - 1);
    }
}

/// Composes the complete `INSERT` statement of one table: header with the
/// columns in declared order, then one parenthesized tuple per row in row
/// order, the whole text buffered and returned only on success. The first
/// missing column or unsupported value, in row-major order, decides the
/// error, and no partial text is handed out.
pub fn sqlize_insert(m: &SqlInsertModel) -> (r: Result<String, StringifyInsertError>)
    ensures
        match r {
            Ok(s) => spec_statement_res(m@) == Ok::<Seq<char>, StringifyErrorView>(s@),
            Err(e) => spec_statement_res(m@) == Err::<Seq<char>, StringifyErrorView>(e@),
        },
{
    let ghost mv = m@;
    let mut sql = String::from_str("INSERT INTO \"");
    sql.append(m.table_name.as_str());
    sql.append("\" (");
    let ncols = m.columns.len();
    let mut j: usize = 0;
    proof {
        assert(spec_col_names(mv.columns).take(0) =~= Seq::<Seq<char>>::empty());
    }
    while j < ncols
        invariant
            mv == m@,
            ncols == m.columns@.len(),
            j <= ncols,
            sql@ == "INSERT INTO \""@ + mv.table_name + "\" ("@ + spec_join(
                spec_col_names(mv.columns).take(j as int),
                ", "@,
            ),
        decreases ncols - j,
    {
        if j > 0 {
            sql.append(", ");
        }
        sql.append(m.columns[j].name.as_str());
        proof {
            let names = spec_col_names(mv.columns);
            assert(names.take(j as int + 1).drop_last() =~= names.take(j as int));
            assert(names.take(j as int + 1).last() == names[j as int]);
            assert(sql@ =~= "INSERT INTO \""@ + mv.table_name + "\" ("@ + spec_join(
                names.take(j as int + 1),
                ", "@,
            ));
        }
        j = j + 1;
    }
    sql.append(")\nVALUES ");
    proof {
        assert(spec_col_names(mv.columns).take(ncols as int) =~= spec_col_names(mv.columns));
        assert(sql@ =~= spec_header(mv));
    }
    let nrows = m.inserts.len();
    let mut i: usize = 0;
    while i < nrows
        invariant
            mv == m@,
            ncols == m.columns@.len(),
            nrows == m.inserts@.len(),
            i <= nrows,
            spec_tuples_upto(mv.inserts, mv.columns, i as int) is Ok,
            sql@ == spec_header(mv) + spec_tuples_upto(mv.inserts, mv.columns, i as int)->Ok_0,
        decreases nrows - i,
    {
        let ghost rowv = mv.inserts[i as int];
        let mut values = String::new();
        push_char(&mut values, '(');
        let mut j: usize = 0;
        proof {
            assert(spec_row_cells_upto(rowv, mv.columns, 0) == Ok::<
                Seq<Seq<char>>,
                StringifyErrorView,
            >(Seq::empty()));
            assert(values@ =~= seq!['('] + spec_join(Seq::empty(), ", "@));
        }
        while j < ncols
            invariant
                mv == m@,
                ncols == m.columns@.len(),
                nrows == m.inserts@.len(),
                i < nrows,
                rowv == mv.inserts[i as int],
                spec_tuples_upto(mv.inserts, mv.columns, i as int) is Ok,
                sql@ == spec_header(mv) + spec_tuples_upto(
                    mv.inserts,
                    mv.columns,
                    i as int,
                )->Ok_0,
                j <= ncols,
                spec_row_cells_upto(rowv, mv.columns, j as int) is Ok,
                values@ == seq!['('] + spec_join(
                    spec_row_cells_upto(rowv, mv.columns, j as int)->Ok_0,
                    ", "@,
                ),
            decreases ncols - j,
        {
            match m.inserts[i].get(m.columns[j].name.as_str()) {
                None => {
                    proof {
                        lemma_row_cells_upto_err(rowv, mv.columns, j as int, ncols as int);
                        lemma_tuples_upto_err(mv.inserts, mv.columns, i as int, nrows as int);
                    }
                    return Err(
                        StringifyInsertError::ValueNotFoundForColumn(m.columns[j].name.clone()),
                    );
                },
                Some(val) => match encode_value(val) {
                    Err(e) => {
                        proof {
                            lemma_row_cells_upto_err(rowv, mv.columns, j as int, ncols as int);
                            lemma_tuples_upto_err(mv.inserts, mv.columns, i as int, nrows as int);
                        }
                        return Err(e);
                    },
                    Ok(t) => {
                        if j > 0 {
                            values.append(", ");
                        }
                        values.append(t.as_str());
                        proof {
                            let cs = spec_row_cells_upto(rowv, mv.columns, j as int)->Ok_0;
                            let cs1 = spec_row_cells_upto(rowv, mv.columns, j as int + 1)->Ok_0;
                            assert(cs1 == cs.push(t@));
                            assert(cs1.drop_last() =~= cs);
                            assert(cs1.last() == t@);
                            assert(values@ =~= seq!['('] + spec_join(cs1, ", "@));
                        }
                    },
                },
            }
            j = j + 1;
        }
        if i + 1 == nrows {
            values.append(");");
        } else {
            values.append("), ");
        }
        sql.append(values.as_str());
        proof {
            assert(spec_row_cells_upto(rowv, mv.columns, ncols as int) == spec_row_cells(
                rowv,
                mv.columns,
            ));
            assert(spec_tuple(rowv, mv.columns, i + 1 == nrows) is Ok);
            assert(sql@ =~= spec_header(mv) + spec_tuples_upto(
                mv.inserts,
                mv.columns,
                i as int + 1,
            )->Ok_0);
        }
        i = i + 1;
    }
    proof {
        assert(spec_statement_res(mv) == Ok::<Seq<char>, StringifyErrorView>(sql@));
    }
    Ok(sql)
}

/// Models of a sequence of insert sets, in order.
pub open spec fn models_view(s: Seq<SqlInsertModel>) -> Seq<SqlModelView> {
    Seq::new(s.len(), |i: int| s[i]@)
}

/// The statements of the first `n` insert sets, in table order, separated
/// by one blank line between consecutive statements; the first failing
/// table decides the error.
pub open spec fn spec_compose_upto(ms: Seq<SqlModelView>, n: int) -> Result<
    Seq<char>,
    StringifyErrorView,
>
    decreases n,
{
    if n <= 0 || n > ms.len() {
        Ok(Seq::empty())
    } else {
        match spec_compose_upto(ms, n - 1) {
            Err(e) => Err(e),
            Ok(acc) => match spec_statement_res(ms[n - 1]) {
                Err(e) => Err(e),
                Ok(s) => Ok(
                    if n == 1 {
                        s
                    } else {
                        acc + "\n\n"@ + s
                    },
                ),
            },
        }
    }
}

/// The combined text of all insert sets.
pub open spec fn spec_compose(ms: Seq<SqlModelView>) -> Result<Seq<char>, StringifyErrorView> {
    spec_compose_upto(ms, ms.len() as int)
}

/// A failing table fails every longer composition prefix with the same
/// error.
proof fn lemma_compose_upto_err(ms: Seq<SqlModelView>, k: int, n: int)
    requires
        0 <= k < n <= ms.len(),
        spec_compose_upto(ms, k) is Ok,
        spec_statement_res(ms[k]) is Err,
    ensures
        spec_compose_upto(ms, n) is Err,
        spec_compose_upto(ms, n)->Err_0 == spec_statement_res(ms[k])->Err_0,
    decreases n,
{
    if n - 1 > k {
        lemma_compose_upto_err(ms, k, n - 1);
    }
}

/// A slot prefix that composes has exactly one literal per column.
proof fn lemma_row_cells_upto_len(row: Seq<RowEntryView>, cols: Seq<SqlColumnView>, n: int)
    requires
        0 <= n <= cols.len(),
        spec_row_cells_upto(row, cols, n) is Ok,
    ensures
        spec_row_cells_upto(row, cols, n)->Ok_0.len() == n,
    decreases n,
{
    if n > 0 {
        lemma_row_cells_upto_len(row, cols, n - 1);
    }
}

/// A tuple prefix that composes has every row's tuple composed.
proof fn lemma_tuples_upto_all_ok(rows: Seq<Seq<RowEntryView>>, cols: Seq<SqlColumnView>, n: int)
    requires
        0 <= n <= rows.len(),
        spec_tuples_upto(rows, cols, n) is Ok,
    ensures
        forall|k: int| #![trigger rows[k]]
            0 <= k < n ==> spec_tuple(rows[k], cols, k + 1 == rows.len()) is Ok,
    decreases n,
{
    if n > 0 {
        lemma_tuples_upto_all_ok(rows, cols, n - 1);
    }
}

/// Rows whose tuples all compose make a composed tuple prefix.
proof fn lemma_tuples_upto_ok(rows: Seq<Seq<RowEntryView>>, cols: Seq<SqlColumnView>, n: int)
    requires
        0 <= n <= rows.len(),
        forall|k: int| 0 <= k < n ==> (#[trigger] spec_row_cells(rows[k], cols)) is Ok,
    ensures
        spec_tuples_upto(rows, cols, n) is Ok,
    decreases n,
{
    if n > 0 {
        lemma_tuples_upto_ok(rows, cols, n - 1);
    }
}

/// The statement of a table with N declared columns and M rows, when it
/// composes, consists of the header followed by the M row tuples in row
/// order; every tuple is built from exactly N literal slots; and with at
/// least one row the statement's last character is `;`.
pub proof fn lemma_statement_shape(m: SqlModelView)
    requires
        spec_statement_res(m) is Ok,
    ensures
        spec_statement_res(m)->Ok_0 == spec_header(m) + spec_tuples_upto(
            m.inserts,
            m.columns,
            m.inserts.len() as int,
        )->Ok_0,
        forall|i: int|
            0 <= i < m.inserts.len() ==> (#[trigger] spec_row_cells(m.inserts[i], m.columns)) is Ok
                && spec_row_cells(m.inserts[i], m.columns)->Ok_0.len() == m.columns.len(),
        forall|i: int| #![trigger m.inserts[i]]
            0 <= i < m.inserts.len() ==> spec_tuple(
                m.inserts[i],
                m.columns,
                i + 1 == m.inserts.len(),
            ) is Ok,
        m.inserts.len() > 0 ==> spec_statement_res(m)->Ok_0.last() == ';',
{
    let rows = m.inserts;
    let cols = m.columns;
    let n = rows.len() as int;
    lemma_tuples_upto_all_ok(rows, cols, n);
    assert forall|i: int| 0 <= i < n implies (#[trigger] spec_row_cells(rows[i], cols)) is Ok
        && spec_row_cells(rows[i], cols)->Ok_0.len() == cols.len() by {
        assert(spec_tuple(rows[i], cols, i + 1 == rows.len()) is Ok);
        lemma_row_cells_upto_len(rows[i], cols, cols.len() as int);
    }
    if n > 0 {
        let t = spec_tuple(rows[n - 1], cols, true)->Ok_0;
        reveal_strlit(");");
        assert(t.last() == ';');
        assert(spec_tuples_upto(rows, cols, n)->Ok_0.last() == ';');
    }
}

/// If, taking the rows in order and each row's declared columns in
/// declared order, the first failure of the whole compose is that row `i`
/// has no entry under column `j`'s name, then composing the table fails
/// with `ValueNotFoundForColumn` naming exactly that column — and, the
/// result being an error, no statement text is produced at all.
pub proof fn lemma_missing_column(m: SqlModelView, i: int, j: int)
    requires
        0 <= i < m.inserts.len(),
        0 <= j < m.columns.len(),
        forall|k: int| 0 <= k < i ==> (#[trigger] spec_row_cells(m.inserts[k], m.columns)) is Ok,
        spec_row_cells_upto(m.inserts[i], m.columns, j) is Ok,
        spec_lookup(m.inserts[i], m.columns[j].name) is None,
    ensures
        spec_statement_res(m) == Err::<Seq<char>, StringifyErrorView>(
            StringifyErrorView::ValueNotFoundForColumn(m.columns[j].name),
        ),
{
    lemma_row_cells_upto_err(m.inserts[i], m.columns, j, m.columns.len() as int);
    lemma_tuples_upto_ok(m.inserts, m.columns, i);
    lemma_tuples_upto_err(m.inserts, m.columns, i, m.inserts.len() as int);
}

/// Composing exactly one table yields that table's statement alone, with
/// no separator anywhere; every further table appends exactly one blank
/// line and then its own statement.
pub proof fn lemma_compose_separator(ms: Seq<SqlModelView>, n: int)
    requires
        0 <= n <= ms.len(),
        forall|k: int| 0 <= k < n ==> (#[trigger] spec_statement_res(ms[k])) is Ok,
    ensures
        spec_compose_upto(ms, n) is Ok,
        n == 1 ==> spec_compose_upto(ms, n)->Ok_0 == spec_statement_res(ms[0])->Ok_0,
        n >= 2 ==> spec_compose_upto(ms, n)->Ok_0 == spec_compose_upto(ms, n - 1)->Ok_0 + "\n\n"@
            + spec_statement_res(ms[n - 1])->Ok_0,
    decreases n,
{
    if n > 0 {
        lemma_compose_separator(ms, n - 1);
    }
}

/// Composes every table's statement, in table order, into one text, with
/// one blank line between consecutive statements and none around a single
/// statement.
pub fn compose_inserts(sql_models: Vec<SqlInsertModel>) -> (r: Result<
    String,
    StringifyInsertError,
>)
    ensures
        match r {
            Ok(s) => spec_compose(models_view(sql_models@)) == Ok::<Seq<char>, StringifyErrorView>(
                s@,
            ),
            Err(e) => spec_compose(models_view(sql_models@)) == Err::<
                Seq<char>,
                StringifyErrorView,
            >(e@),
        },
{
    let ghost ms = models_view(sql_models@);
    let mut out = String::new();
    let n = sql_models.len();
    let mut i: usize = 0;
    while i < n
        invariant
            ms == models_view(sql_models@),
            n == sql_models@.len(),
            i <= n,
            spec_compose_upto(ms, i as int) is Ok,
            out@ == spec_compose_upto(ms, i as int)->Ok_0,
        decreases n - i,
    {
        match sqlize_insert(&sql_models[i]) {
            Err(e) => {
                proof {
                    lemma_compose_upto_err(ms, i as int, n as int);
                }
                return Err(e);
            },
            Ok(s) => {
                if i > 0 {
                    out.append("\n\n");
                }
                out.append(s.as_str());
                proof {
                    assert(out@ =~= spec_compose_upto(ms, i as int + 1)->Ok_0);
                }
            },
        }
        i = i + 1;
    }
    Ok(out)
}

} // verus!
