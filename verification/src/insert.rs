//! The `INSERT` statement.
use vstd::prelude::*;

use crate::ast::{
    Expr, ExprKind, ExprKindView, ExprView, ObjectName, SetExpr, Statement, StatementView,
    UnaryOperator, Value, ValueView,
};
use crate::error::{Error, ParserError};

verus! {

/// The literal that an expression of a row stands for, or the text that reports why there
/// is none.
///
/// A literal stands for itself, and a bare word for a quoted string. A sign is accepted in
/// front of a number only: `+` changes nothing, `-` becomes the first of the number's digits.
/// Behind a sign it is the operand that the report shows, otherwise the whole expression.
pub open spec fn expr_value(expr: ExprView) -> Result<ValueView, Seq<char>> {
    match expr.kind {
        ExprKindView::Value(value) => Ok(value),
        ExprKindView::Identifier(ident) => Ok(ValueView::SingleQuotedString(ident.value)),
        ExprKindView::UnaryOp { op: UnaryOperator::Plus, expr: operand } => match operand.kind {
            ExprKindView::Value(ValueView::Number(digits, long)) => Ok(
                ValueView::Number(digits, long),
            ),
            _ => Err(operand.debug),
        },
        ExprKindView::UnaryOp { op: UnaryOperator::Minus, expr: operand } => match operand.kind {
            ExprKindView::Value(ValueView::Number(digits, long)) => Ok(
                ValueView::Number(seq!['-'] + digits, long),
            ),
            _ => Err(operand.debug),
        },
        _ => Err(expr.debug),
    }
}

/// Whether every expression in front of column `j` of row `i`, row by row, has a value.
pub open spec fn readable_before(rows: Seq<Seq<ExprView>>, i: int, j: int) -> bool {
    forall|k: int, l: int|
        #![trigger rows[k][l]]
        0 <= k < rows.len() && 0 <= l < rows[k].len() && (k < i || k == i && l < j)
            ==> expr_value(rows[k][l]) is Ok
}

/// Whether column `j` of row `i` holds the first expression that has no value, and `msg`
/// reports it.
pub open spec fn first_unreadable(
    rows: Seq<Seq<ExprView>>,
    i: int,
    j: int,
    msg: Seq<char>,
) -> bool {
    &&& 0 <= i < rows.len()
    &&& 0 <= j < rows[i].len()
    &&& expr_value(rows[i][j]) == Err::<ValueView, Seq<char>>(msg)
    &&& readable_before(rows, i, j)
}

/// Whether `values` holds the values of all expressions of `rows`, each in its place.
pub open spec fn rows_values(rows: Seq<Seq<ExprView>>, values: Seq<Seq<ValueView>>) -> bool {
    &&& values.len() == rows.len()
    &&& forall|i: int| 0 <= i < rows.len() ==> (#[trigger] values[i]).len() == rows[i].len()
    &&& forall|i: int, j: int|
        #![trigger rows[i][j]]
        #![trigger values[i][j]]
        0 <= i < rows.len() && 0 <= j < rows[i].len() ==> expr_value(rows[i][j]) == Ok::<
            ValueView,
            Seq<char>,
        >(values[i][j])
}

/// Whether `msg` reports the first expression of `rows` that has no value.
pub open spec fn rows_report(rows: Seq<Seq<ExprView>>, msg: Seq<char>) -> bool {
    exists|i: int, j: int| #[trigger] first_unreadable(rows, i, j, msg)
}

/// The views of rows of values.
pub open spec fn value_views(rows: Seq<Vec<Value>>) -> Seq<Seq<ValueView>> {
    rows.map_values(|row: Vec<Value>| row@.map_values(|value: Value| value@))
}

fn sql_expr_to_value(expr: &Expr) -> (r: Result<Value, Error>)
    ensures
        match r {
            Ok(value) => expr_value(expr@) == Ok::<ValueView, Seq<char>>(value@),
            Err(error) => expr_value(expr@) == Err::<ValueView, Seq<char>>(error.msg()),
        },
{
    proof {
        reveal_with_fuel(Expr::view, 2);
    }
    match &expr.kind {
        ExprKind::Value(value) => Ok(value.clone()),
        ExprKind::Identifier(ident) => Ok(Value::SingleQuotedString(ident.value.clone())),
        ExprKind::UnaryOp { op, expr: operand } if *op == UnaryOperator::Minus || *op
            == UnaryOperator::Plus => {
            if let ExprKind::Value(Value::Number(digits, long)) = &operand.kind {
                if *op == UnaryOperator::Minus {
                    proof {
                        reveal_strlit("-");
                        assert("-"@ =~= seq!['-']);
                    }
                    Ok(Value::Number("-".to_string().concat(digits.as_str()), *long))
                } else {
                    Ok(Value::Number(digits.clone(), *long))
                }
            } else {
                Err(Error::ParseSqlValue { msg: operand.debug.clone() })
            }
        },
        _ => Err(Error::ParseSqlValue { msg: expr.debug.clone() }),
    }
}

/// Reads the values of the rows of a `VALUES` list.
pub fn sql_exprs_to_values(exprs: &Vec<Vec<Expr>>) -> (r: Result<Vec<Vec<Value>>, Error>)
    ensures
        match r {
            Ok(values) => rows_values(crate::ast::row_views(exprs@), value_views(values@)),
            Err(error) => rows_report(crate::ast::row_views(exprs@), error.msg()),
        },
{
    let ghost rows = crate::ast::row_views(exprs@);
    let mut values: Vec<Vec<Value>> = Vec::with_capacity(exprs.len());
    for i in 0..exprs.len()
        invariant
            rows == crate::ast::row_views(exprs@),
            rows_values(rows.take(i as int), value_views(values@)),
            readable_before(rows, i as int, 0),
    {
        let es = &exprs[i];
        let mut vs: Vec<Value> = Vec::with_capacity(es.len());
        for j in 0..es.len()
            invariant
                rows == crate::ast::row_views(exprs@),
                i < exprs.len(),
                *es == exprs[i as int],
                vs.len() == j,
                forall|l: int|
                    0 <= l < j ==> expr_value(#[trigger] rows[i as int][l]) == Ok::<
                        ValueView,
                        Seq<char>,
                    >(vs[l]@),
                readable_before(rows, i as int, j as int),
        {
            assert(rows[i as int][j as int] == es[j as int]@);
            match sql_expr_to_value(&es[j]) {
                Ok(value) => vs.push(value),
                Err(error) => {
                    assert(first_unreadable(rows, i as int, j as int, error.msg()));
                    return Err(error);
                },
            }
        }
        let ghost before = value_views(values@);
        values.push(vs);
        proof {
            let after = value_views(values@);
            let last = vs@.map_values(|value: Value| value@);
            assert(after =~= before.push(last));
            assert forall|k: int, l: int| 0 <= k <= i && 0 <= l < rows[k].len() implies expr_value(
                #[trigger] rows[k][l],
            ) == Ok::<ValueView, Seq<char>>(after[k][l]) by {
                if k < i {
                    assert(rows.take(i as int)[k][l] == rows[k][l]);
                    assert(after[k] == before[k]);
                }
            }
        }
    }
    assert(rows.take(exprs.len() as int) =~= rows);
    Ok(values)
}

/// An `INSERT` statement.
#[derive(Debug, PartialEq, Eq)]
pub struct Insert {
    /// The statement. It is of the kind `Statement::Insert`.
    pub inner: Statement,
}

impl View for Insert {
    type V = StatementView;

    open spec fn view(&self) -> StatementView {
        self.inner@
    }
}

impl Clone for Insert {
    /// The clone of a statement is the same statement.
    fn clone(&self) -> (r: Self)
        ensures
            r@ == self@,
    {
        Insert { inner: self.inner.clone() }
    }
}

impl Insert {
    /// Whether the statement is an `INSERT`, as every one that [`Insert::try_from`] lets
    /// through is.
    pub open spec fn wf(self) -> bool {
        self.inner is Insert
    }

    /// The catalog, the schema and the table that the statement inserts into, as `resolve`
    /// makes them out of the table's name.
    pub fn full_table_name<E, F: Fn(&ObjectName) -> Result<(String, String, String), E>>(
        &self,
        resolve: F,
    ) -> (r: Result<(String, String, String), E>)
        requires
            self.wf(),
            call_requires(resolve, (&self.inner->table_name,)),
        ensures
            call_ensures(resolve, (&self.inner->table_name,), r),
    {
        resolve(self.table_name())
    }

    /// The name of the table, as it was written.
    pub fn table_name(&self) -> (r: &ObjectName)
        requires
            self.wf(),
        ensures
            *r == self.inner->table_name,
    {
        match &self.inner {
            Statement::Insert { table_name, .. } => table_name,
            Statement::Other(_) => vstd::pervasive::unreached(),
        }
    }

    /// The names of the columns that the statement lists, in its order.
    pub fn columns(&self) -> (r: Vec<&String>)
        requires
            self.wf(),
        ensures
            r@.len() == self.inner->columns@.len(),
            forall|i: int| 0 <= i < r@.len() ==> *(#[trigger] r@[i]) == self.inner->columns@[i].value,
    {
        let mut names: Vec<&String> = Vec::new();
        if let Statement::Insert { columns, .. } = &self.inner {
            for i in 0..columns.len()
                invariant
                    names@.len() == i,
                    forall|k: int| 0 <= k < i ==> *(#[trigger] names@[k]) == columns@[k].value,
            {
                names.push(&columns[i].value);
            }
        }
        names
    }

    /// The rows of literals that the statement inserts. It must take them from a `VALUES`
    /// list.
    pub fn values(&self) -> (r: Result<Vec<Vec<Value>>, Error>)
        requires
            self.wf(),
            self.inner->source.body is Values,
        ensures
            match r {
                Ok(values) => rows_values(self@->source.body->Values_0, value_views(values@)),
                Err(error) => rows_report(self@->source.body->Values_0, error.msg()),
            },
    {
        match &self.inner {
            Statement::Insert { source, .. } => match &source.body {
                SetExpr::Values(exprs) => sql_exprs_to_values(exprs),
                SetExpr::Other => vstd::pervasive::unreached(),
            },
            Statement::Other(_) => vstd::pervasive::unreached(),
        }
    }
}

impl TryFrom<Statement> for Insert {
    type Error = ParserError;

    /// Takes an `INSERT` statement as it is, and refuses any other with a message that quotes
    /// it.
    fn try_from(value: Statement) -> (r: Result<Self, ParserError>)
        ensures
            match r {
                Ok(insert) => insert.wf() && insert.inner == value,
                Err(error) => {
                    &&& value is Other
                    &&& error.msg() == "Not expected to be "@ + value->Other_0@
                },
            },
    {
        match value {
            Statement::Insert { .. } => Ok(Insert { inner: value }),
            Statement::Other(text) => Err(
                ParserError::ParserError("Not expected to be ".to_string().concat(text.as_str())),
            ),
        }
    }
}

/// The message of a refusal is a fresh string, which is known by its characters only. So the
/// result is not said to be equal to a given one: the contract of `try_from` says what it is.
impl vstd::std_specs::convert::TryFromSpecImpl<Statement> for Insert {
    open spec fn obeys_try_from_spec() -> bool {
        false
    }

    open spec fn try_from_spec(value: Statement) -> Result<Self, ParserError> {
        arbitrary()
    }
}

/// Whether every expression has a value.
pub open spec fn all_readable(rows: Seq<Seq<ExprView>>) -> bool {
    forall|i: int, j: int|
        #![trigger rows[i][j]]
        0 <= i < rows.len() && 0 <= j < rows[i].len() ==> expr_value(rows[i][j]) is Ok
}

proof fn lemma_report_exists(rows: Seq<Seq<ExprView>>, i: int, j: int)
    requires
        0 <= i < rows.len(),
        0 <= j < rows[i].len(),
        expr_value(rows[i][j]) is Err,
    ensures
        exists|msg: Seq<char>| #[trigger] rows_report(rows, msg),
    decreases i, j,
{
    if readable_before(rows, i, j) {
        let msg = expr_value(rows[i][j])->Err_0;
        assert(first_unreadable(rows, i, j, msg));
        assert(rows_report(rows, msg));
    } else {
        let (k, l) = choose|k: int, l: int|
            #![trigger rows[k][l]]
            0 <= k < rows.len() && 0 <= l < rows[k].len() && (k < i || k == i && l < j)
                && expr_value(rows[k][l]) is Err;
        lemma_report_exists(rows, k, l);
    }
}

/// Rows have values if each of their expressions has one, and are reported if not. There is one
/// way to read them: no other values and no other report.
pub proof fn reading_is_determined(rows: Seq<Seq<ExprView>>)
    ensures
        all_readable(rows) ==> exists|values: Seq<Seq<ValueView>>| #[trigger]
            rows_values(rows, values),
        !all_readable(rows) ==> exists|msg: Seq<char>| #[trigger] rows_report(rows, msg),
        forall|values: Seq<Seq<ValueView>>| #[trigger]
            rows_values(rows, values) ==> all_readable(rows),
        forall|msg: Seq<char>| #[trigger] rows_report(rows, msg) ==> !all_readable(rows),
        forall|a: Seq<Seq<ValueView>>, b: Seq<Seq<ValueView>>| #[trigger]
            rows_values(rows, a) && #[trigger] rows_values(rows, b) ==> a == b,
        forall|a: Seq<char>, b: Seq<char>| #[trigger]
            rows_report(rows, a) && #[trigger] rows_report(rows, b) ==> a == b,
{
    if all_readable(rows) {
        let values = Seq::new(
            rows.len(),
            |i: int| Seq::new(rows[i].len(), |j: int| expr_value(rows[i][j])->Ok_0),
        );
        assert(rows_values(rows, values));
    } else {
        let (i, j) = choose|i: int, j: int|
            #![trigger rows[i][j]]
            0 <= i < rows.len() && 0 <= j < rows[i].len() && expr_value(rows[i][j]) is Err;
        lemma_report_exists(rows, i, j);
    }
    assert forall|msg: Seq<char>| #[trigger] rows_report(rows, msg) implies !all_readable(
        rows,
    ) by {
        let (i, j) = choose|i: int, j: int| #[trigger] first_unreadable(rows, i, j, msg);
        assert(expr_value(rows[i][j]) is Err);
    }
    assert forall|a: Seq<Seq<ValueView>>, b: Seq<Seq<ValueView>>| #[trigger]
        rows_values(rows, a) && #[trigger] rows_values(rows, b) implies a == b by {
        assert forall|i: int| 0 <= i < rows.len() implies a[i] == b[i] by {
            assert forall|j: int| 0 <= j < rows[i].len() implies a[i][j] == b[i][j] by {
                assert(expr_value(rows[i][j]) == Ok::<ValueView, Seq<char>>(a[i][j]));
            }
            assert(a[i] =~= b[i]);
        }
        assert(a =~= b);
    }
    assert forall|a: Seq<char>, b: Seq<char>| #[trigger]
        rows_report(rows, a) && #[trigger] rows_report(rows, b) implies a == b by {
        let (i, j) = choose|i: int, j: int| #[trigger] first_unreadable(rows, i, j, a);
        let (k, l) = choose|k: int, l: int| #[trigger] first_unreadable(rows, k, l, b);
        assert(expr_value(rows[i][j]) is Err);
        assert(expr_value(rows[k][l]) is Err);
    }
}

/// Rows are read one by one: the values of two lists of rows are those of the first and then
/// those of the second, and the first expression without a value decides what is reported.
pub proof fn rows_are_read_in_order(a: Seq<Seq<ExprView>>, b: Seq<Seq<ExprView>>)
    ensures
        forall|x: Seq<Seq<ValueView>>, y: Seq<Seq<ValueView>>| #[trigger]
            rows_values(a, x) && #[trigger] rows_values(b, y) ==> rows_values(a + b, x + y),
        forall|msg: Seq<char>| #[trigger] rows_report(a, msg) ==> rows_report(a + b, msg),
        all_readable(a) ==> forall|msg: Seq<char>| #[trigger]
            rows_report(b, msg) ==> rows_report(a + b, msg),
{
    let n = a.len() as int;
    assert forall|x: Seq<Seq<ValueView>>, y: Seq<Seq<ValueView>>| #[trigger]
        rows_values(a, x) && #[trigger] rows_values(b, y) implies rows_values(a + b, x + y) by {
        assert forall|i: int, j: int|
            0 <= i < (a + b).len() && 0 <= j < (a + b)[i].len() implies expr_value(
            #[trigger] (a + b)[i][j],
        ) == Ok::<ValueView, Seq<char>>((x + y)[i][j]) by {
            if i < n {
                assert(expr_value(a[i][j]) == Ok::<ValueView, Seq<char>>(x[i][j]));
            } else {
                assert(expr_value(b[i - n][j]) == Ok::<ValueView, Seq<char>>(y[i - n][j]));
            }
        }
    }
    assert forall|msg: Seq<char>| #[trigger] rows_report(a, msg) implies rows_report(
        a + b,
        msg,
    ) by {
        let (i, j) = choose|i: int, j: int| #[trigger] first_unreadable(a, i, j, msg);
        assert forall|k: int, l: int|
            0 <= k < (a + b).len() && 0 <= l < (a + b)[k].len() && (k < i || k == i && l
                < j) implies expr_value(#[trigger] (a + b)[k][l]) is Ok by {
            assert(expr_value(a[k][l]) is Ok);
        }
        assert(first_unreadable(a + b, i, j, msg));
    }
    if all_readable(a) {
        assert forall|msg: Seq<char>| #[trigger] rows_report(b, msg) implies rows_report(
            a + b,
            msg,
        ) by {
            let (i, j) = choose|i: int, j: int| #[trigger] first_unreadable(b, i, j, msg);
            assert forall|k: int, l: int|
                0 <= k < (a + b).len() && 0 <= l < (a + b)[k].len() && (k < n + i || k == n + i
                    && l < j) implies expr_value(#[trigger] (a + b)[k][l]) is Ok by {
                if k < n {
                    assert(expr_value(a[k][l]) is Ok);
                } else {
                    assert(expr_value(b[k - n][l]) is Ok);
                }
            }
            assert(first_unreadable(a + b, n + i, j, msg));
        }
    }
}

/// `+` in front of a number changes nothing, and `-` is put in front of its digits.
pub proof fn signed_numbers(digits: Seq<char>, long: bool, inner: Seq<char>, outer: Seq<char>)
    ensures
        ({
            let number = ExprView {
                kind: ExprKindView::Value(ValueView::Number(digits, long)),
                debug: inner,
            };
            let plus = ExprView {
                kind: ExprKindView::UnaryOp { op: UnaryOperator::Plus, expr: Box::new(number) },
                debug: outer,
            };
            let minus = ExprView {
                kind: ExprKindView::UnaryOp { op: UnaryOperator::Minus, expr: Box::new(number) },
                debug: outer,
            };
            &&& expr_value(plus) == expr_value(number)
            &&& expr_value(plus) == Ok::<ValueView, Seq<char>>(ValueView::Number(digits, long))
            &&& expr_value(minus) == Ok::<ValueView, Seq<char>>(
                ValueView::Number(seq!['-'] + digits, long),
            )
        }),
{
}

/// A literal is read as itself, whatever it is and whatever its text.
pub proof fn literals_are_read_as_they_are(literal: ValueView, text: Seq<char>)
    ensures
        expr_value(ExprView { kind: ExprKindView::Value(literal), debug: text }) == Ok::<
            ValueView,
            Seq<char>,
        >(literal),
{
}

/// Any other expression is reported by its whole text, and a signed one that is no number by that
/// of its operand.
pub proof fn other_expressions_are_reported(
    op: UnaryOperator,
    operand: ExprView,
    text: Seq<char>,
)
    ensures
        expr_value(ExprView { kind: ExprKindView::Other, debug: text }) == Err::<
            ValueView,
            Seq<char>,
        >(text),
        ({
            let read = expr_value(
                ExprView {
                    kind: ExprKindView::UnaryOp { op, expr: Box::new(operand) },
                    debug: text,
                },
            );
            let signed = op == UnaryOperator::Plus || op == UnaryOperator::Minus;
            let number = operand.kind matches ExprKindView::Value(ValueView::Number(_, _));
            &&& read is Ok <==> signed && number
            &&& signed && !number ==> read == Err::<ValueView, Seq<char>>(operand.debug)
            &&& !signed ==> read == Err::<ValueView, Seq<char>>(text)
        }),
{
}

/// A bare word is read as the string of the same letters, however it was quoted.
pub proof fn bare_words_are_strings(word: crate::ast::IdentView, a: Seq<char>, b: Seq<char>)
    ensures
        expr_value(ExprView { kind: ExprKindView::Identifier(word), debug: a }) == Ok::<
            ValueView,
            Seq<char>,
        >(ValueView::SingleQuotedString(word.value)),
        expr_value(ExprView { kind: ExprKindView::Identifier(word), debug: a }) == expr_value(
            ExprView {
                kind: ExprKindView::Value(ValueView::SingleQuotedString(word.value)),
                debug: b,
            },
        ),
{
}

/// Whether an expression is a literal, a bare word or a signed number.
pub open spec fn is_readable(expr: Expr) -> bool {
    match expr.kind {
        ExprKind::Value(_) | ExprKind::Identifier(_) => true,
        ExprKind::UnaryOp { op, expr: operand } => {
            &&& op == UnaryOperator::Plus || op == UnaryOperator::Minus
            &&& operand.kind matches ExprKind::Value(Value::Number(_, _))
        },
        ExprKind::Other => false,
    }
}

/// Whether a value is that of an expression: the literal that the expression is; the letters of a
/// bare word, as a string; the digits of a signed number, all of them, behind a `-` if that is its
/// sign.
pub open spec fn is_value_of(value: Value, expr: Expr) -> bool {
    match expr.kind {
        ExprKind::Value(literal) => value@ == literal@,
        ExprKind::Identifier(word) => value matches Value::SingleQuotedString(text) && text@
            == word.value@,
        ExprKind::UnaryOp { op, expr: operand } => {
            &&& operand.kind matches ExprKind::Value(Value::Number(digits, long))
            &&& value matches Value::Number(read, read_long)
            &&& read_long == long
            &&& op == UnaryOperator::Plus ==> read@ == digits@
            &&& op == UnaryOperator::Minus ==> read@.len() == digits@.len() + 1 && read@[0] == '-'
                && read@.skip(1) == digits@
        },
        ExprKind::Other => false,
    }
}

/// Whether a text is the report on an expression: the text of the operand behind a sign, and of the
/// whole expression otherwise.
pub open spec fn is_report_on(text: Seq<char>, expr: Expr) -> bool {
    match expr.kind {
        ExprKind::UnaryOp { op: UnaryOperator::Plus, expr: operand } => text == operand.debug@,
        ExprKind::UnaryOp { op: UnaryOperator::Minus, expr: operand } => text == operand.debug@,
        _ => text == expr.debug@,
    }
}

proof fn lemma_reading(expr: Expr)
    ensures
        is_readable(expr) <==> expr_value(expr@) is Ok,
        forall|value: Value|
            expr_value(expr@) == Ok::<ValueView, Seq<char>>(#[trigger] value@) ==> is_value_of(
                value,
                expr,
            ),
        expr_value(expr@) matches Err(text) ==> is_report_on(text, expr),
{
    reveal_with_fuel(Expr::view, 2);
    assert forall|value: Value|
        expr_value(expr@) == Ok::<ValueView, Seq<char>>(#[trigger] value@) implies is_value_of(
        value,
        expr,
    ) by {
        crate::ast::literal_parts(value);
        if let ExprKind::UnaryOp { op, expr: operand } = expr.kind {
            if let ExprKind::Value(Value::Number(digits, _)) = operand.kind {
                assert((seq!['-'] + digits@).skip(1) =~= digits@);
            }
        }
    }
}

/// The values of an `INSERT` are those of the expressions of its rows: as many rows, as many
/// values in each, and each value that of the expression in its place.
pub proof fn values_keep_their_places(
    insert: &Insert,
    rows: Vec<Vec<Expr>>,
    values: Vec<Vec<Value>>,
    i: int,
    j: int,
)
    requires
        insert.inner is Insert,
        insert.inner->source.body == SetExpr::Values(rows),
        call_ensures(Insert::values, (insert,), Ok(values)),
    ensures
        values@.len() == rows@.len(),
        0 <= i < rows@.len() ==> values@[i]@.len() == rows@[i]@.len(),
        0 <= i < rows@.len() && 0 <= j < rows@[i]@.len() ==> {
            &&& is_readable(rows@[i]@[j])
            &&& is_value_of(values@[i]@[j], rows@[i]@[j])
        },
{
    let exprs = crate::ast::row_views(rows@);
    let read = value_views(values@);
    assert(rows_values(exprs, read));
    if 0 <= i < rows@.len() {
        assert(read[i].len() == exprs[i].len());
        if 0 <= j < rows@[i]@.len() {
            assert(exprs[i][j] == rows@[i]@[j]@);
            assert(read[i][j] == values@[i]@[j]@);
            lemma_reading(rows@[i]@[j]);
        }
    }
}

/// The values of an `INSERT` cannot be read only where some expression of its rows is neither a
/// literal, nor a bare word, nor a signed number. Such an expression is reported, and it is the
/// first one, row by row.
pub proof fn the_first_unreadable_expression_is_reported(
    insert: &Insert,
    rows: Vec<Vec<Expr>>,
    error: Error,
) -> (place: (int, int))
    requires
        insert.inner is Insert,
        insert.inner->source.body == SetExpr::Values(rows),
        call_ensures(Insert::values, (insert,), Err(error)),
    ensures
        0 <= place.0 < rows@.len(),
        0 <= place.1 < rows@[place.0]@.len(),
        !is_readable(rows@[place.0]@[place.1]),
        is_report_on(error->msg@, rows@[place.0]@[place.1]),
        forall|k: int, l: int|
            0 <= k < rows@.len() && 0 <= l < rows@[k]@.len() && (k < place.0 || k == place.0 && l
                < place.1) ==> is_readable(#[trigger] rows@[k]@[l]),
{
    let exprs = crate::ast::row_views(rows@);
    assert(rows_report(exprs, error->msg@));
    let (i, j) = choose|i: int, j: int| #[trigger] first_unreadable(exprs, i, j, error->msg@);
    assert(exprs[i][j] == rows@[i]@[j]@);
    lemma_reading(rows@[i]@[j]);
    assert forall|k: int, l: int|
        0 <= k < rows@.len() && 0 <= l < rows@[k]@.len() && (k < i || k == i && l
            < j) implies is_readable(#[trigger] rows@[k]@[l]) by {
        assert(exprs[k][l] == rows@[k]@[l]@);
        lemma_reading(rows@[k]@[l]);
    }
    (i, j)
}

/// An `INSERT` gives the same values as its rows alone, and the same report.
pub proof fn values_are_those_of_the_rows(
    insert: &Insert,
    rows: Vec<Vec<Expr>>,
    of_insert: Result<Vec<Vec<Value>>, Error>,
    of_rows: Result<Vec<Vec<Value>>, Error>,
)
    requires
        insert.inner is Insert,
        insert.inner->source.body == SetExpr::Values(rows),
        call_ensures(Insert::values, (insert,), of_insert),
        call_ensures(sql_exprs_to_values, (&rows,), of_rows),
    ensures
        of_insert is Ok <==> of_rows is Ok,
        of_insert matches Ok(a) ==> (of_rows matches Ok(b) && value_views(a@) == value_views(b@)),
        of_insert matches Err(a) ==> (of_rows matches Err(b) && a->msg@ == b->msg@),
{
    reading_is_determined(crate::ast::row_views(rows@));
}

/// The views of rows of values are as many as these, in the same order.
pub proof fn value_views_keep_their_places(rows: Seq<Vec<Value>>, i: int, j: int)
    ensures
        value_views(rows).len() == rows.len(),
        0 <= i < rows.len() ==> value_views(rows)[i].len() == rows[i]@.len(),
        0 <= i < rows.len() && 0 <= j < rows[i]@.len() ==> value_views(rows)[i][j] == rows[i]@[j]@,
{
}

/// The columns of an `INSERT` are the names that it lists, all of them, whole and in its order, and
/// its table is the one that it names.
pub proof fn columns_keep_their_places(
    insert: &Insert,
    names: Vec<&String>,
    table: &ObjectName,
    i: int,
)
    requires
        insert.wf(),
        call_ensures(Insert::columns, (insert,), names),
        call_ensures(Insert::table_name, (insert,), table),
    ensures
        insert.inner is Insert,
        names@.len() == insert.inner->columns@.len(),
        0 <= i < names@.len() ==> names@[i]@ == insert.inner->columns@[i].value@,
        table.0@ == insert.inner->table_name.0@,
{
}

/// The full name of a table is what the resolver makes of the name that the statement gives.
pub proof fn full_names_come_of_the_resolver<
    E,
    F: Fn(&ObjectName) -> Result<(String, String, String), E>,
>(insert: &Insert, resolve: F, table: &ObjectName, full: Result<(String, String, String), E>)
    requires
        insert.wf(),
        call_ensures(Insert::table_name, (insert,), table),
        call_ensures(Insert::full_table_name::<E, F>, (insert, resolve), full),
    ensures
        call_ensures(resolve, (table,), full),
{
}

/// A statement is taken if it is an `INSERT`, as it is, and refused with its text if not.
pub proof fn only_inserts_are_taken(statement: Statement, taken: Result<Insert, ParserError>)
    requires
        call_ensures(<Insert as TryFrom<Statement>>::try_from, (statement,), taken),
    ensures
        taken is Ok <==> statement is Insert,
        taken matches Ok(insert) ==> insert.inner == statement,
        taken matches Err(ParserError::ParserError(message)) ==> message@.len()
            == 19 + statement->Other_0@.len() && message@.take(19) == "Not expected to be "@
            && message@.skip(19) == statement->Other_0@,
{
    reveal_strlit("Not expected to be ");
    if let Err(ParserError::ParserError(message)) = taken {
        assert(message@.take(19) =~= "Not expected to be "@);
        assert(message@.skip(19) =~= statement->Other_0@);
    }
}

/// The clone of an `INSERT` has the same columns, the same table, the same rows and the same other
/// parts.
pub proof fn clones_have_the_same_parts(insert: &Insert, clone: Insert, i: int)
    requires
        insert.wf(),
        call_ensures(<Insert as Clone>::clone, (insert,), clone),
    ensures
        clone.inner is Insert,
        clone.inner->or == insert.inner->or,
        clone.inner->table_name@ == insert.inner->table_name@,
        clone.inner->columns@.len() == insert.inner->columns@.len(),
        0 <= i < clone.inner->columns@.len() ==> {
            &&& clone.inner->columns@[i].value@ == insert.inner->columns@[i].value@
            &&& clone.inner->columns@[i].quote_style == insert.inner->columns@[i].quote_style
        },
        clone.inner->overwrite == insert.inner->overwrite,
        clone.inner->source@ == insert.inner->source@,
        clone.inner->table == insert.inner->table,
        clone@ == insert@,
{
    crate::ast::statement_parts(insert.inner, i);
    crate::ast::statement_parts(clone.inner, i);
    if 0 <= i < clone.inner->columns@.len() {
        crate::ast::ident_parts(clone.inner->columns@[i]);
        crate::ast::ident_parts(insert.inner->columns@[i]);
    }
}

} // verus!
