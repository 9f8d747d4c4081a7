//! Reading the syntax tree of `sqlparser`.
//!
//! The nodes of that tree are opaque here. For each type of node a function without a
//! definition names what a node holds, as a view of [`crate::ast`]. The functions that open a
//! node are trusted to give back what its name stands for; the functions that walk the tree
//! are verified.
use sqlparser::ast::Expr as SqlExpr;
use sqlparser::ast::Ident as SqlIdent;
use sqlparser::ast::OnInsert as SqlOnInsert;
use sqlparser::ast::Query as SqlQuery;
use sqlparser::ast::SqliteOnConflict as SqlSqliteOnConflict;
use sqlparser::ast::Statement as SqlStatement;
use sqlparser::ast::UnaryOperator as SqlUnaryOperator;
use sqlparser::ast::Value as SqlValue;
use vstd::prelude::*;

use crate::ast::{
    Expr, ExprKind, ExprKindView, ExprView, Ident, IdentView, ObjectName, Query, QueryView, SetExpr,
    SetExprView, SqliteOnConflict, Statement, StatementView, UnaryOperator, Value, ValueView,
};
use crate::error::ParserError;
use crate::insert::Insert;

verus! {

/// A statement of `sqlparser`.
#[verifier::external_type_specification]
#[verifier::external_body]
pub struct ExStatement(SqlStatement);

/// An expression of `sqlparser`.
#[verifier::external_type_specification]
#[verifier::external_body]
pub struct ExExpr(SqlExpr);

/// A literal of `sqlparser`.
#[verifier::external_type_specification]
#[verifier::external_body]
pub struct ExValue(SqlValue);

/// An identifier of `sqlparser`.
#[verifier::external_type_specification]
#[verifier::external_body]
pub struct ExIdent(SqlIdent);

/// A unary operator of `sqlparser`.
#[verifier::external_type_specification]
#[verifier::external_body]
pub struct ExUnaryOperator(SqlUnaryOperator);

/// A query of `sqlparser`.
#[verifier::external_type_specification]
#[verifier::external_body]
pub struct ExQuery(SqlQuery);

/// The conflict clause of an `INSERT` of `sqlparser`.
#[verifier::external_type_specification]
#[verifier::external_body]
pub struct ExSqliteOnConflict(SqlSqliteOnConflict);

/// The clause on duplicate keys of an `INSERT` of `sqlparser`.
#[verifier::external_type_specification]
#[verifier::external_body]
pub struct ExOnInsert(SqlOnInsert);

/// What an identifier holds: its two public fields.
pub uninterp spec fn ident_contents(ident: SqlIdent) -> IdentView;

/// What a literal holds: its variant, with the fields of that variant.
pub uninterp spec fn value_contents(value: SqlValue) -> ValueView;

/// Which operator it is.
pub uninterp spec fn operator_contents(op: SqlUnaryOperator) -> UnaryOperator;

/// What an expression holds: what it is, and the text that its `Debug` writes.
pub uninterp spec fn expr_contents(expr: SqlExpr) -> ExprView;

/// What a query holds: the rows of a `VALUES` list, where that is its body, and the text that its
/// `Debug` writes.
pub uninterp spec fn query_contents(query: SqlQuery) -> QueryView;

/// Which conflict clause it is.
pub uninterp spec fn conflict_contents(conflict: SqlSqliteOnConflict) -> SqliteOnConflict;

/// The text that the `Debug` of a clause on duplicate keys writes.
pub uninterp spec fn on_contents(on: SqlOnInsert) -> Seq<char>;

/// What a statement holds: the parts of an `INSERT`, or the text that the `Display` of any
/// other statement writes. `None` for one that is no `INSERT` and whose `Display` panics: it does
/// where it comes to write an identifier with a quote style other than `"`, `'`, a backtick or
/// `[`, an interval of seconds with both precisions and a last field, a decimal with a scale and
/// no precision, or an external table without a file format or a location.
pub uninterp spec fn statement_contents(statement: SqlStatement) -> Option<StatementView>;

/// What the identifiers of a sequence hold.
pub open spec fn idents_contents(idents: Seq<SqlIdent>) -> Seq<IdentView> {
    idents.map_values(|ident: SqlIdent| ident_contents(ident))
}

/// What the expressions of a sequence hold.
pub open spec fn exprs_contents(exprs: Seq<SqlExpr>) -> Seq<ExprView> {
    exprs.map_values(|expr: SqlExpr| expr_contents(expr))
}

/// What the expressions of rows hold.
pub open spec fn rows_contents(rows: Seq<Vec<SqlExpr>>) -> Seq<Seq<ExprView>> {
    rows.map_values(|row: Vec<SqlExpr>| exprs_contents(row@))
}

/// Opens an identifier: a copy of the two public fields of `sqlparser::ast::Ident`.
#[verifier::external_body]
fn ident_fields(ident: &SqlIdent) -> (r: Ident)
    ensures
        r@ == ident_contents(*ident),
{
    Ident { value: ident.value.clone(), quote_style: ident.quote_style }
}

/// Opens a literal: clones the `sqlparser::ast::Value` and moves the fields of its variant
/// into the variant of the same name.
#[verifier::external_body]
fn value_fields(value: &SqlValue) -> (r: Value)
    ensures
        r@ == value_contents(*value),
{
    match value.clone() {
        SqlValue::Number(s, b) => Value::Number(s, b),
        SqlValue::SingleQuotedString(s) => Value::SingleQuotedString(s),
        SqlValue::NationalStringLiteral(s) => Value::NationalStringLiteral(s),
        SqlValue::HexStringLiteral(s) => Value::HexStringLiteral(s),
        SqlValue::DoubleQuotedString(s) => Value::DoubleQuotedString(s),
        SqlValue::Boolean(b) => Value::Boolean(b),
        SqlValue::Interval { value, leading_field, leading_precision, last_field, fractional_seconds_precision } =>
            Value::Interval { value, leading_field, leading_precision, last_field, fractional_seconds_precision },
        SqlValue::Null => Value::Null,
        SqlValue::Placeholder(s) => Value::Placeholder(s),
    }
}

/// Tells the variants of `sqlparser::ast::UnaryOperator` apart.
#[verifier::external_body]
fn operator_variant(op: &SqlUnaryOperator) -> (r: UnaryOperator)
    ensures
        r == operator_contents(*op),
{
    match op {
        SqlUnaryOperator::Plus => UnaryOperator::Plus,
        SqlUnaryOperator::Minus => UnaryOperator::Minus,
        SqlUnaryOperator::Not => UnaryOperator::Not,
        SqlUnaryOperator::PGBitwiseNot => UnaryOperator::PGBitwiseNot,
        SqlUnaryOperator::PGSquareRoot => UnaryOperator::PGSquareRoot,
        SqlUnaryOperator::PGCubeRoot => UnaryOperator::PGCubeRoot,
        SqlUnaryOperator::PGPostfixFactorial => UnaryOperator::PGPostfixFactorial,
        SqlUnaryOperator::PGPrefixFactorial => UnaryOperator::PGPrefixFactorial,
        SqlUnaryOperator::PGAbs => UnaryOperator::PGAbs,
    }
}

/// An expression opened by one level.
enum ExprNode<'a> {
    Value(&'a SqlValue),
    Identifier(&'a SqlIdent),
    UnaryOp { op: &'a SqlUnaryOperator, expr: &'a SqlExpr },
    Other,
}

impl<'a> ExprNode<'a> {
    /// What the opened expression is.
    spec fn contents(self) -> ExprKindView {
        match self {
            ExprNode::Value(value) => ExprKindView::Value(value_contents(*value)),
            ExprNode::Identifier(ident) => ExprKindView::Identifier(ident_contents(*ident)),
            ExprNode::UnaryOp { op, expr } => ExprKindView::UnaryOp {
                op: operator_contents(*op),
                expr: Box::new(expr_contents(*expr)),
            },
            ExprNode::Other => ExprKindView::Other,
        }
    }
}

/// Opens an expression: tells the three variants of `sqlparser::ast::Expr` that matter here
/// apart from the others, and gives their fields.
#[verifier::external_body]
fn expr_node(expr: &SqlExpr) -> (r: ExprNode<'_>)
    ensures
        r.contents() == expr_contents(*expr).kind,
{
    match expr {
        SqlExpr::Value(value) => ExprNode::Value(value),
        SqlExpr::Identifier(ident) => ExprNode::Identifier(ident),
        SqlExpr::UnaryOp { op, expr } => ExprNode::UnaryOp { op, expr },
        _ => ExprNode::Other,
    }
}

/// The text that the derived `Debug` of `sqlparser::ast::Expr` writes.
#[verifier::external_body]
fn expr_debug(expr: &SqlExpr) -> (r: String)
    ensures
        r@ == expr_contents(*expr).debug,
{
    format!("{:?}", expr)
}

/// Tells the variants of `sqlparser::ast::SqliteOnConflict` apart.
#[verifier::external_body]
fn conflict_variant(conflict: &SqlSqliteOnConflict) -> (r: SqliteOnConflict)
    ensures
        r == conflict_contents(*conflict),
{
    match conflict {
        SqlSqliteOnConflict::Rollback => SqliteOnConflict::Rollback,
        SqlSqliteOnConflict::Abort => SqliteOnConflict::Abort,
        SqlSqliteOnConflict::Fail => SqliteOnConflict::Fail,
        SqlSqliteOnConflict::Ignore => SqliteOnConflict::Ignore,
        SqlSqliteOnConflict::Replace => SqliteOnConflict::Replace,
    }
}

/// The text that the derived `Debug` of `sqlparser::ast::OnInsert` writes.
#[verifier::external_body]
fn on_debug(on: &SqlOnInsert) -> (r: String)
    ensures
        r@ == on_contents(*on),
{
    format!("{:?}", on)
}

/// Opens a query: the rows of a `sqlparser::ast::Query` whose body is a `VALUES` list.
#[verifier::external_body]
fn query_rows(query: &SqlQuery) -> (r: Option<&Vec<Vec<SqlExpr>>>)
    ensures
        query_contents(*query).body == match r {
            Some(rows) => SetExprView::Values(rows_contents(rows@)),
            None => SetExprView::Other,
        },
{
    match &query.body {
        sqlparser::ast::SetExpr::Values(values) => Some(&values.0),
        _ => None,
    }
}

/// The text that the derived `Debug` of `sqlparser::ast::Query` writes.
#[verifier::external_body]
fn query_debug(query: &SqlQuery) -> (r: String)
    ensures
        r@ == query_contents(*query).debug,
{
    format!("{:?}", query)
}

/// The fields of an `INSERT`.
struct InsertFields<'a> {
    or: &'a Option<SqlSqliteOnConflict>,
    table_name: &'a Vec<SqlIdent>,
    columns: &'a Vec<SqlIdent>,
    overwrite: bool,
    source: &'a SqlQuery,
    partitioned: &'a Option<Vec<SqlExpr>>,
    after_columns: &'a Vec<SqlIdent>,
    table: bool,
    on: &'a Option<SqlOnInsert>,
}

impl<'a> InsertFields<'a> {
    /// What the statement with these fields holds.
    spec fn contents(self) -> StatementView {
        StatementView::Insert {
            or: match *self.or {
                Some(conflict) => Some(conflict_contents(conflict)),
                None => None,
            },
            table_name: idents_contents(self.table_name@),
            columns: idents_contents(self.columns@),
            overwrite: self.overwrite,
            source: query_contents(*self.source),
            partitioned: match *self.partitioned {
                Some(exprs) => Some(exprs_contents(exprs@)),
                None => None,
            },
            after_columns: idents_contents(self.after_columns@),
            table: self.table,
            on: match *self.on {
                Some(on) => Some(on_contents(on)),
                None => None,
            },
        }
    }
}

/// Opens a statement: tells `sqlparser::ast::Statement::Insert` apart from the other variants
/// and gives all its fields.
#[verifier::external_body]
fn insert_fields(statement: &SqlStatement) -> (r: Option<InsertFields<'_>>)
    ensures
        match r {
            Some(fields) => statement_contents(*statement) == Some(fields.contents()),
            None => !(statement_contents(*statement) matches Some(StatementView::Insert { .. })),
        },
{
    match statement {
        SqlStatement::Insert {
            or, table_name, columns, overwrite, source, partitioned, after_columns, table, on,
        } => Some(InsertFields {
            or, table_name: &table_name.0, columns, overwrite: *overwrite, source, partitioned,
            after_columns, table: *table, on,
        }),
        _ => None,
    }
}

/// The text that the `Display` of a `sqlparser::ast::Statement` other than an `INSERT` writes,
/// where it does not panic.
#[verifier::external_body]
fn statement_text(statement: &SqlStatement) -> (r: String)
    requires
        statement_contents(*statement) matches Some(StatementView::Other(_)),
    ensures
        statement_contents(*statement) == Some(StatementView::Other(r@)),
{
    statement.to_string()
}

fn read_idents(idents: &Vec<SqlIdent>) -> (r: Vec<Ident>)
    ensures
        crate::ast::ident_views(r@) == idents_contents(idents@),
        r@.len() == idents@.len(),
        forall|i: int| 0 <= i < r@.len() ==> (#[trigger] r@[i])@ == ident_contents(idents@[i]),
{
    let mut read: Vec<Ident> = Vec::with_capacity(idents.len());
    for i in 0..idents.len()
        invariant
            read.len() == i,
            forall|k: int| 0 <= k < i ==> (#[trigger] read[k])@ == ident_contents(idents[k]),
    {
        read.push(ident_fields(&idents[i]));
    }
    assert(crate::ast::ident_views(read@) =~= idents_contents(idents@));
    read
}

/// Reads an expression.
pub fn read_expr(expr: &SqlExpr) -> (r: Expr)
    ensures
        r@ == expr_contents(*expr),
    decreases expr_contents(*expr),
{
    let ghost contents = expr_contents(*expr);
    let kind = match expr_node(expr) {
        ExprNode::Value(value) => ExprKind::Value(value_fields(value)),
        ExprNode::Identifier(ident) => ExprKind::Identifier(ident_fields(ident)),
        ExprNode::UnaryOp { op, expr: operand } => {
            assert(decreases_to!(contents => contents.kind));
            assert(decreases_to!(contents.kind => *contents.kind->UnaryOp_expr));
            ExprKind::UnaryOp { op: operator_variant(op), expr: Box::new(read_expr(operand)) }
        },
        ExprNode::Other => ExprKind::Other,
    };
    Expr { kind, debug: expr_debug(expr) }
}

fn read_exprs(exprs: &Vec<SqlExpr>) -> (r: Vec<Expr>)
    ensures
        crate::ast::expr_views(r@) == exprs_contents(exprs@),
        r@.len() == exprs@.len(),
        forall|i: int| 0 <= i < r@.len() ==> (#[trigger] r@[i])@ == expr_contents(exprs@[i]),
{
    let mut read: Vec<Expr> = Vec::with_capacity(exprs.len());
    for i in 0..exprs.len()
        invariant
            read.len() == i,
            forall|k: int| 0 <= k < i ==> (#[trigger] read[k])@ == expr_contents(exprs[k]),
    {
        read.push(read_expr(&exprs[i]));
    }
    assert(crate::ast::expr_views(read@) =~= exprs_contents(exprs@));
    read
}

fn read_rows(rows: &Vec<Vec<SqlExpr>>) -> (r: Vec<Vec<Expr>>)
    ensures
        crate::ast::row_views(r@) == rows_contents(rows@),
        r@.len() == rows@.len(),
        forall|i: int| 0 <= i < r@.len() ==> (#[trigger] r@[i])@.len() == rows@[i]@.len(),
        forall|i: int, j: int|
            0 <= i < r@.len() && 0 <= j < r@[i]@.len() ==> (#[trigger] r@[i]@[j])@
                == expr_contents(rows@[i]@[j]),
{
    let mut read: Vec<Vec<Expr>> = Vec::with_capacity(rows.len());
    for i in 0..rows.len()
        invariant
            read.len() == i,
            forall|k: int|
                0 <= k < i ==> crate::ast::expr_views((#[trigger] read[k])@) == exprs_contents(
                    rows[k]@,
                ),
    {
        read.push(read_exprs(&rows[i]));
    }
    assert(crate::ast::row_views(read@) =~= rows_contents(rows@));
    proof {
        assert forall|i: int| 0 <= i < read@.len() implies (#[trigger] read@[i])@.len()
            == rows@[i]@.len() by {
            assert(crate::ast::expr_views(read@[i]@).len() == exprs_contents(rows@[i]@).len());
        }
        assert forall|i: int, j: int| 0 <= i < read@.len() && 0 <= j < read@[i]@.len() implies (
        #[trigger] read@[i]@[j])@ == expr_contents(rows@[i]@[j]) by {
            assert(crate::ast::expr_views(read@[i]@)[j] == exprs_contents(rows@[i]@)[j]);
        }
    }
    read
}

fn read_query(query: &SqlQuery) -> (r: Query)
    ensures
        r@ == query_contents(*query),
{
    let body = match query_rows(query) {
        Some(rows) => SetExpr::Values(read_rows(rows)),
        None => SetExpr::Other,
    };
    Query { body, debug: query_debug(query) }
}

fn read_insert(fields: &InsertFields<'_>) -> (r: Statement)
    ensures
        r is Insert,
        r@ == fields.contents(),
        match *fields.or {
            Some(conflict) => r->or == Some(conflict_contents(conflict)),
            None => r->or is None,
        },
        r->table_name.0@.len() == fields.table_name@.len(),
        forall|i: int|
            0 <= i < fields.table_name@.len() ==> (#[trigger] r->table_name.0@[i])@
                == ident_contents(fields.table_name@[i]),
        r->columns@.len() == fields.columns@.len(),
        forall|i: int|
            0 <= i < fields.columns@.len() ==> (#[trigger] r->columns@[i])@ == ident_contents(
                fields.columns@[i],
            ),
        r->overwrite == fields.overwrite,
        r->source@ == query_contents(*fields.source),
        match *fields.partitioned {
            Some(exprs) => {
                &&& r->partitioned matches Some(read)
                &&& read@.len() == exprs@.len()
                &&& forall|i: int|
                    0 <= i < exprs@.len() ==> (#[trigger] read@[i])@ == expr_contents(exprs@[i])
            },
            None => r->partitioned is None,
        },
        r->after_columns@.len() == fields.after_columns@.len(),
        forall|i: int|
            0 <= i < fields.after_columns@.len() ==> (#[trigger] r->after_columns@[i])@
                == ident_contents(fields.after_columns@[i]),
        r->table == fields.table,
        match *fields.on {
            Some(on) => r->on matches Some(text) && text@ == on_contents(on),
            None => r->on is None,
        },
{
    Statement::Insert {
        or: match fields.or {
            Some(conflict) => Some(conflict_variant(conflict)),
            None => None,
        },
        table_name: ObjectName(read_idents(fields.table_name)),
        columns: read_idents(fields.columns),
        overwrite: fields.overwrite,
        source: read_query(fields.source),
        partitioned: match fields.partitioned {
            Some(exprs) => Some(read_exprs(exprs)),
            None => None,
        },
        after_columns: read_idents(fields.after_columns),
        table: fields.table,
        on: match fields.on {
            Some(on) => Some(on_debug(on)),
            None => None,
        },
    }
}

/// Reads a statement. One that is no `INSERT` is written out as text, so it must be one whose
/// `Display` does not panic.
pub fn read_statement(statement: &SqlStatement) -> (r: Statement)
    requires
        statement_contents(*statement) is Some,
    ensures
        Some(r@) == statement_contents(*statement),
{
    match insert_fields(statement) {
        Some(fields) => read_insert(&fields),
        None => Statement::Other(statement_text(statement)),
    }
}

impl Insert {
    /// Takes an `INSERT` statement of `sqlparser`, and refuses any other with a message that
    /// quotes it.
    pub fn try_from_sqlparser(statement: &SqlStatement) -> (r: Result<Insert, ParserError>)
        requires
            statement_contents(*statement) is Some,
        ensures
            match r {
                Ok(insert) => insert.wf() && statement_contents(*statement) == Some(insert@),
                Err(error) => {
                    &&& statement_contents(*statement) matches Some(StatementView::Other(text))
                    &&& error.msg() == "Not expected to be "@ + text
                },
            },
    {
        Insert::try_from(read_statement(statement))
    }

    /// Takes an `INSERT` statement of `sqlparser`, and refuses any other with a message that
    /// quotes `text` in place of it. So any statement may be given, also one whose `Display`
    /// panics.
    pub fn try_from_sqlparser_with(statement: &SqlStatement, text: String) -> (r: Result<
        Insert,
        ParserError,
    >)
        ensures
            match r {
                Ok(insert) => insert.wf() && statement_contents(*statement) == Some(insert@),
                Err(error) => {
                    &&& !(statement_contents(*statement) matches Some(
                        StatementView::Insert { .. },
                    ))
                    &&& error.msg() == "Not expected to be "@ + text@
                },
            },
    {
        match Insert::from_sqlparser(statement) {
            Some(insert) => Ok(insert),
            None => Insert::try_from(Statement::Other(text)),
        }
    }

    /// Takes an `INSERT` statement of `sqlparser`; `None` for any other, which is not even
    /// written out.
    pub fn from_sqlparser(statement: &SqlStatement) -> (r: Option<Insert>)
        ensures
            match r {
                Some(insert) => insert.wf() && statement_contents(*statement) == Some(insert@),
                None => !(statement_contents(*statement) matches Some(
                    StatementView::Insert { .. },
                )),
            },
    {
        match insert_fields(statement) {
            Some(fields) => Some(Insert { inner: read_insert(&fields) }),
            None => None,
        }
    }
}

/// What identifiers, expressions and rows of `sqlparser` hold is as much as there are of them, in
/// the same order.
pub proof fn contents_keep_their_places(
    idents: Seq<SqlIdent>,
    exprs: Seq<SqlExpr>,
    rows: Seq<Vec<SqlExpr>>,
    i: int,
    j: int,
)
    ensures
        idents_contents(idents).len() == idents.len(),
        0 <= i < idents.len() ==> idents_contents(idents)[i] == ident_contents(idents[i]),
        exprs_contents(exprs).len() == exprs.len(),
        0 <= i < exprs.len() ==> exprs_contents(exprs)[i] == expr_contents(exprs[i]),
        rows_contents(rows).len() == rows.len(),
        0 <= i < rows.len() ==> rows_contents(rows)[i].len() == rows[i]@.len(),
        0 <= i < rows.len() && 0 <= j < rows[i]@.len() ==> rows_contents(rows)[i][j]
            == expr_contents(rows[i]@[j]),
{
}

/// What an opened expression is: of the same kind, with what its parts hold.
proof fn node_parts(node: ExprNode<'_>)
    ensures
        node matches ExprNode::Value(literal) ==> node.contents() == ExprKindView::Value(
            value_contents(*literal),
        ),
        node matches ExprNode::Identifier(word) ==> node.contents() == ExprKindView::Identifier(
            ident_contents(*word),
        ),
        node matches ExprNode::UnaryOp { op: sign, expr: inside } ==> (node.contents() matches
            ExprKindView::UnaryOp { op: seen, expr: operand } && seen == operator_contents(*sign)
            && *operand == expr_contents(*inside)),
        node is Other ==> node.contents() is Other,
{
}

/// What the opened fields of an `INSERT` hold: what each of them holds, in its place.
proof fn field_parts(fields: InsertFields<'_>, i: int)
    ensures
        fields.contents() is Insert,
        fields.contents()->columns.len() == fields.columns@.len(),
        0 <= i < fields.columns@.len() ==> fields.contents()->columns[i] == ident_contents(
            fields.columns@[i],
        ),
        fields.contents()->table_name.len() == fields.table_name@.len(),
        0 <= i < fields.table_name@.len() ==> fields.contents()->table_name[i] == ident_contents(
            fields.table_name@[i],
        ),
        fields.contents()->after_columns.len() == fields.after_columns@.len(),
        0 <= i < fields.after_columns@.len() ==> fields.contents()->after_columns[i]
            == ident_contents(fields.after_columns@[i]),
        fields.contents()->source == query_contents(*fields.source),
        fields.contents()->overwrite == fields.overwrite,
        fields.contents()->table == fields.table,
        fields.contents()->or is Some <==> *fields.or is Some,
        *fields.or matches Some(clause) ==> fields.contents()->or->0 == conflict_contents(clause),
        fields.contents()->on is Some <==> *fields.on is Some,
        *fields.on matches Some(clause) ==> fields.contents()->on->0 == on_contents(clause),
        fields.contents()->partitioned is Some <==> *fields.partitioned is Some,
        *fields.partitioned matches Some(exprs) ==> {
            &&& fields.contents()->partitioned->0.len() == exprs@.len()
            &&& 0 <= i < exprs@.len() ==> fields.contents()->partitioned->0[i] == expr_contents(
                exprs@[i],
            )
        },
{
}

/// The columns of an `INSERT` of `sqlparser` are those that it lists, and its table the one that it
/// names: all their parts, whole and in its order.
pub proof fn names_of_a_statement(
    statement: &SqlStatement,
    insert: Insert,
    names: Vec<&String>,
    table: &ObjectName,
    i: int,
)
    requires
        call_ensures(Insert::from_sqlparser, (statement,), Some(insert)),
        call_ensures(Insert::columns, (&insert,), names),
        call_ensures(Insert::table_name, (&insert,), table),
    ensures
        statement_contents(*statement) matches Some(
            StatementView::Insert { columns: listed, table_name: named, .. },
        ) && {
            &&& names@.len() == listed.len()
            &&& 0 <= i < listed.len() ==> names@[i]@ == listed[i].value
            &&& table.0@.len() == named.len()
            &&& 0 <= i < named.len() ==> table.0@[i].value@ == named[i].value
                && table.0@[i].quote_style == named[i].quote_style
        },
{
    crate::ast::statement_parts(insert.inner, i);
    crate::ast::idents_keep_their_places(table.0@, *table, i);
    if 0 <= i < names@.len() {
        crate::ast::ident_parts(insert.inner->columns@[i]);
    }
    if 0 <= i < table.0@.len() {
        crate::ast::ident_parts(table.0@[i]);
    }
}

/// The values of an `INSERT` of `sqlparser` are those of its rows, each in its place: a literal as
/// it is, the letters of a bare word, and the digits of a signed number behind its `-`.
pub proof fn values_of_a_statement(
    statement: &SqlStatement,
    rows: Seq<Seq<ExprView>>,
    insert: Insert,
    values: Vec<Vec<Value>>,
    i: int,
    j: int,
)
    requires
        call_ensures(Insert::from_sqlparser, (statement,), Some(insert)),
        statement_contents(*statement) matches Some(StatementView::Insert { source, .. })
            && source.body == SetExprView::Values(rows),
        call_ensures(Insert::values, (&insert,), Ok(values)),
    ensures
        values@.len() == rows.len(),
        0 <= i < rows.len() ==> values@[i]@.len() == rows[i].len(),
        0 <= i < rows.len() && 0 <= j < rows[i].len() ==> match rows[i][j].kind {
            ExprKindView::Value(literal) => values@[i]@[j]@ == literal,
            ExprKindView::Identifier(word) => values@[i]@[j]@ == ValueView::SingleQuotedString(
                word.value,
            ),
            ExprKindView::UnaryOp { op: sign, expr: operand } => {
                &&& operand.kind matches ExprKindView::Value(ValueView::Number(digits, long))
                &&& sign == UnaryOperator::Plus || sign == UnaryOperator::Minus
                &&& sign == UnaryOperator::Plus ==> values@[i]@[j]@ == ValueView::Number(
                    digits,
                    long,
                )
                &&& sign == UnaryOperator::Minus ==> values@[i]@[j]@ == ValueView::Number(
                    seq!['-'] + digits,
                    long,
                )
            },
            ExprKindView::Other => false,
        },
{
    let read = crate::insert::value_views(values@);
    assert(crate::insert::rows_values(rows, read));
    if 0 <= i < rows.len() {
        assert(read[i].len() == rows[i].len());
        if 0 <= j < rows[i].len() {
            assert(read[i][j] == values@[i]@[j]@);
            assert(crate::insert::expr_value(rows[i][j]) == Ok::<ValueView, Seq<char>>(read[i][j]));
        }
    }
}

/// However an `INSERT` of `sqlparser` is taken, it is the same; any other statement is refused,
/// with its text or with the one that is given.
pub proof fn statements_are_taken_alike(
    statement: &SqlStatement,
    text: String,
    taken: Option<Insert>,
    tried: Result<Insert, ParserError>,
    tried_with: Result<Insert, ParserError>,
)
    requires
        statement_contents(*statement) is Some,
        call_ensures(Insert::from_sqlparser, (statement,), taken),
        call_ensures(Insert::try_from_sqlparser, (statement,), tried),
        call_ensures(Insert::try_from_sqlparser_with, (statement, text), tried_with),
    ensures
        taken is Some <==> statement_contents(*statement)->0 is Insert,
        tried is Ok <==> taken is Some,
        tried_with is Ok <==> taken is Some,
        taken matches Some(insert) ==> {
            &&& insert@ == statement_contents(*statement)->0
            &&& tried->Ok_0@ == insert@
            &&& tried_with->Ok_0@ == insert@
        },
        tried matches Err(ParserError::ParserError(message)) ==> message@
            == "Not expected to be "@ + statement_contents(*statement)->0->Other_0,
        tried_with matches Err(ParserError::ParserError(message)) ==> message@
            == "Not expected to be "@ + text@,
{
}

} // verus!
