//! The part of an SQL syntax tree that an `INSERT` statement is read from.
//!
//! Each type has a view: the same tree, with sequences of characters in place of
//! strings. Contracts speak of the views.
use vstd::prelude::*;

verus! {

/// The unit of a field of an interval, as `sqlparser` has it. It is carried along and
/// never looked into.
#[verifier::external_type_specification]
#[verifier::external_body]
pub struct ExDateTimeField(sqlparser::ast::DateTimeField);

/// The derived `Clone` of `sqlparser::ast::DateTimeField`, an enum whose variants have no
/// fields: the clone is the value itself.
pub assume_specification[ <sqlparser::ast::DateTimeField as Clone>::clone ](
    field: &sqlparser::ast::DateTimeField,
) -> (r: sqlparser::ast::DateTimeField)
    ensures
        r == *field,
;

/// An identifier: its text without quotes, and the quote it was written with, if any.
#[derive(Debug, PartialEq, Eq)]
pub struct Ident {
    pub value: String,
    pub quote_style: Option<char>,
}

/// The view of an [`Ident`].
pub ghost struct IdentView {
    pub value: Seq<char>,
    pub quote_style: Option<char>,
}

impl View for Ident {
    type V = IdentView;

    open spec fn view(&self) -> IdentView {
        IdentView { value: self.value@, quote_style: self.quote_style }
    }
}

impl Clone for Ident {
    /// The clone of an identifier is the same identifier.
    fn clone(&self) -> (r: Self)
        ensures
            r@ == self@,
    {
        Ident { value: self.value.clone(), quote_style: self.quote_style }
    }
}

/// The views of a sequence of identifiers.
pub open spec fn ident_views(idents: Seq<Ident>) -> Seq<IdentView> {
    idents.map_values(|ident: Ident| ident@)
}

/// A name of one or more parts, such as `catalog.schema.table`.
#[derive(Debug, PartialEq, Eq)]
pub struct ObjectName(pub Vec<Ident>);

impl View for ObjectName {
    type V = Seq<IdentView>;

    open spec fn view(&self) -> Seq<IdentView> {
        ident_views(self.0@)
    }
}

fn clone_idents(idents: &Vec<Ident>) -> (r: Vec<Ident>)
    ensures
        ident_views(r@) == ident_views(idents@),
{
    let mut cloned: Vec<Ident> = Vec::with_capacity(idents.len());
    for i in 0..idents.len()
        invariant
            cloned.len() == i,
            forall|k: int| 0 <= k < i ==> (#[trigger] cloned[k])@ == idents[k]@,
    {
        cloned.push(idents[i].clone());
    }
    assert(ident_views(cloned@) =~= ident_views(idents@));
    cloned
}

impl Clone for ObjectName {
    /// The clone of a name is the same name.
    fn clone(&self) -> (r: Self)
        ensures
            r@ == self@,
    {
        ObjectName(clone_idents(&self.0))
    }
}

/// A literal.
#[derive(Debug, PartialEq, Eq)]
pub enum Value {
    /// The digits of a number, and whether it was marked as long.
    Number(String, bool),
    SingleQuotedString(String),
    NationalStringLiteral(String),
    HexStringLiteral(String),
    DoubleQuotedString(String),
    Boolean(bool),
    Interval {
        value: String,
        leading_field: Option<sqlparser::ast::DateTimeField>,
        leading_precision: Option<u64>,
        last_field: Option<sqlparser::ast::DateTimeField>,
        fractional_seconds_precision: Option<u64>,
    },
    Null,
    /// A parameter of a prepared statement, such as `?`.
    Placeholder(String),
}

/// The view of a [`Value`].
pub ghost enum ValueView {
    Number(Seq<char>, bool),
    SingleQuotedString(Seq<char>),
    NationalStringLiteral(Seq<char>),
    HexStringLiteral(Seq<char>),
    DoubleQuotedString(Seq<char>),
    Boolean(bool),
    Interval {
        value: Seq<char>,
        leading_field: Option<sqlparser::ast::DateTimeField>,
        leading_precision: Option<u64>,
        last_field: Option<sqlparser::ast::DateTimeField>,
        fractional_seconds_precision: Option<u64>,
    },
    Null,
    Placeholder(Seq<char>),
}

impl View for Value {
    type V = ValueView;

    open spec fn view(&self) -> ValueView {
        match *self {
            Value::Number(digits, long) => ValueView::Number(digits@, long),
            Value::SingleQuotedString(text) => ValueView::SingleQuotedString(text@),
            Value::NationalStringLiteral(text) => ValueView::NationalStringLiteral(text@),
            Value::HexStringLiteral(text) => ValueView::HexStringLiteral(text@),
            Value::DoubleQuotedString(text) => ValueView::DoubleQuotedString(text@),
            Value::Boolean(value) => ValueView::Boolean(value),
            Value::Interval {
                value,
                leading_field,
                leading_precision,
                last_field,
                fractional_seconds_precision,
            } => ValueView::Interval {
                value: value@,
                leading_field,
                leading_precision,
                last_field,
                fractional_seconds_precision,
            },
            Value::Null => ValueView::Null,
            Value::Placeholder(text) => ValueView::Placeholder(text@),
        }
    }
}

fn clone_field(field: &Option<sqlparser::ast::DateTimeField>) -> (r: Option<
    sqlparser::ast::DateTimeField,
>)
    ensures
        r == *field,
{
    match field {
        Some(field) => Some(field.clone()),
        None => None,
    }
}

impl Clone for Value {
    /// The clone of a literal is the same literal.
    fn clone(&self) -> (r: Self)
        ensures
            r@ == self@,
    {
        match self {
            Value::Number(digits, long) => Value::Number(digits.clone(), *long),
            Value::SingleQuotedString(text) => Value::SingleQuotedString(text.clone()),
            Value::NationalStringLiteral(text) => Value::NationalStringLiteral(text.clone()),
            Value::HexStringLiteral(text) => Value::HexStringLiteral(text.clone()),
            Value::DoubleQuotedString(text) => Value::DoubleQuotedString(text.clone()),
            Value::Boolean(value) => Value::Boolean(*value),
            Value::Interval {
                value,
                leading_field,
                leading_precision,
                last_field,
                fractional_seconds_precision,
            } => Value::Interval {
                value: value.clone(),
                leading_field: clone_field(leading_field),
                leading_precision: *leading_precision,
                last_field: clone_field(last_field),
                fractional_seconds_precision: *fractional_seconds_precision,
            },
            Value::Null => Value::Null,
            Value::Placeholder(text) => Value::Placeholder(text.clone()),
        }
    }
}

/// An operator on one operand.
#[derive(Debug, Clone, Copy, PartialEq, Eq, Structural)]
pub enum UnaryOperator {
    Plus,
    Minus,
    Not,
    PGBitwiseNot,
    PGSquareRoot,
    PGCubeRoot,
    PGPostfixFactorial,
    PGPrefixFactorial,
    PGAbs,
}

/// What an expression is.
#[derive(Debug, PartialEq, Eq)]
pub enum ExprKind {
    Value(Value),
    Identifier(Ident),
    UnaryOp { op: UnaryOperator, expr: Box<Expr> },
    /// Any other expression: a call, a sum, a subquery and so on.
    Other,
}

/// An expression.
#[derive(Debug, PartialEq, Eq)]
pub struct Expr {
    pub kind: ExprKind,
    /// The expression as error messages show it.
    pub debug: String,
}

/// The view of an [`ExprKind`].
pub ghost enum ExprKindView {
    Value(ValueView),
    Identifier(IdentView),
    UnaryOp { op: UnaryOperator, expr: Box<ExprView> },
    Other,
}

/// The view of an [`Expr`].
pub ghost struct ExprView {
    pub kind: ExprKindView,
    pub debug: Seq<char>,
}

impl Expr {
    /// The view of an expression.
    pub open spec fn view(self) -> ExprView
        decreases self,
    {
        ExprView {
            kind: match self.kind {
                ExprKind::Value(value) => ExprKindView::Value(value@),
                ExprKind::Identifier(ident) => ExprKindView::Identifier(ident@),
                ExprKind::UnaryOp { op, expr } => ExprKindView::UnaryOp {
                    op,
                    expr: Box::new((*expr).view()),
                },
                ExprKind::Other => ExprKindView::Other,
            },
            debug: self.debug@,
        }
    }
}

fn clone_expr(expr: &Expr) -> (r: Expr)
    ensures
        r@ == expr@,
    decreases *expr,
{
    let kind = match &expr.kind {
        ExprKind::Value(value) => ExprKind::Value(value.clone()),
        ExprKind::Identifier(ident) => ExprKind::Identifier(ident.clone()),
        ExprKind::UnaryOp { op, expr: operand } => ExprKind::UnaryOp {
            op: *op,
            expr: Box::new(clone_expr(operand)),
        },
        ExprKind::Other => ExprKind::Other,
    };
    Expr { kind, debug: expr.debug.clone() }
}

impl Clone for Expr {
    /// The clone of an expression is the same expression.
    fn clone(&self) -> (r: Self)
        ensures
            r@ == self@,
    {
        clone_expr(self)
    }
}

/// The views of a sequence of expressions.
pub open spec fn expr_views(exprs: Seq<Expr>) -> Seq<ExprView> {
    exprs.map_values(|expr: Expr| expr@)
}

/// The views of the rows of a `VALUES` list.
pub open spec fn row_views(rows: Seq<Vec<Expr>>) -> Seq<Seq<ExprView>> {
    rows.map_values(|row: Vec<Expr>| expr_views(row@))
}

/// The body of a query that rows are inserted from.
#[derive(Debug, PartialEq, Eq)]
pub enum SetExpr {
    /// A `VALUES` list, row by row.
    Values(Vec<Vec<Expr>>),
    /// Anything else, such as a `SELECT`.
    Other,
}

/// The view of a [`SetExpr`].
pub ghost enum SetExprView {
    Values(Seq<Seq<ExprView>>),
    Other,
}

impl View for SetExpr {
    type V = SetExprView;

    open spec fn view(&self) -> SetExprView {
        match *self {
            SetExpr::Values(rows) => SetExprView::Values(row_views(rows@)),
            SetExpr::Other => SetExprView::Other,
        }
    }
}

fn clone_exprs(exprs: &Vec<Expr>) -> (r: Vec<Expr>)
    ensures
        expr_views(r@) == expr_views(exprs@),
{
    let mut cloned: Vec<Expr> = Vec::with_capacity(exprs.len());
    for i in 0..exprs.len()
        invariant
            cloned.len() == i,
            forall|k: int| 0 <= k < i ==> (#[trigger] cloned[k])@ == exprs[k]@,
    {
        cloned.push(exprs[i].clone());
    }
    assert(expr_views(cloned@) =~= expr_views(exprs@));
    cloned
}

impl Clone for SetExpr {
    /// The clone of the body of a query is the same body.
    fn clone(&self) -> (r: Self)
        ensures
            r@ == self@,
    {
        match self {
            SetExpr::Values(rows) => {
                let mut cloned: Vec<Vec<Expr>> = Vec::with_capacity(rows.len());
                for i in 0..rows.len()
                    invariant
                        cloned.len() == i,
                        forall|k: int|
                            0 <= k < i ==> expr_views((#[trigger] cloned[k])@) == expr_views(
                                rows[k]@,
                            ),
                {
                    cloned.push(clone_exprs(&rows[i]));
                }
                assert(row_views(cloned@) =~= row_views(rows@));
                SetExpr::Values(cloned)
            },
            SetExpr::Other => SetExpr::Other,
        }
    }
}

/// The query that rows are inserted from.
#[derive(Debug, PartialEq, Eq)]
pub struct Query {
    pub body: SetExpr,
    /// The whole query, as its `Debug` shows it. It tells apart queries that differ in what is
    /// not held otherwise: a body other than a `VALUES` list, and the clauses around a body.
    pub debug: String,
}

/// The view of a [`Query`].
pub ghost struct QueryView {
    pub body: SetExprView,
    pub debug: Seq<char>,
}

impl View for Query {
    type V = QueryView;

    open spec fn view(&self) -> QueryView {
        QueryView { body: self.body@, debug: self.debug@ }
    }
}

impl Clone for Query {
    /// The clone of a query is the same query.
    fn clone(&self) -> (r: Self)
        ensures
            r@ == self@,
    {
        Query { body: self.body.clone(), debug: self.debug.clone() }
    }
}

/// What SQLite is to do where a row conflicts with one that is there.
#[derive(Debug, Clone, Copy, PartialEq, Eq, Structural)]
pub enum SqliteOnConflict {
    Rollback,
    Abort,
    Fail,
    Ignore,
    Replace,
}

/// An SQL statement.
#[derive(Debug, PartialEq, Eq)]
pub enum Statement {
    /// An `INSERT`, with every part that `sqlparser` keeps of one. Two of the parts are not
    /// opened to the end but told apart by their text: what [`Query`] does not hold otherwise of
    /// the source, and the clause on duplicate keys.
    Insert {
        or: Option<SqliteOnConflict>,
        table_name: ObjectName,
        columns: Vec<Ident>,
        overwrite: bool,
        source: Query,
        partitioned: Option<Vec<Expr>>,
        /// The columns that are listed behind the partition.
        after_columns: Vec<Ident>,
        /// Whether the word `TABLE` stands in front of the table's name.
        table: bool,
        /// The clause on duplicate keys, as its `Debug` shows it.
        on: Option<String>,
    },
    /// A statement of another kind, as SQL text. It is known by that text alone.
    Other(String),
}

/// The view of a [`Statement`].
pub ghost enum StatementView {
    Insert {
        or: Option<SqliteOnConflict>,
        table_name: Seq<IdentView>,
        columns: Seq<IdentView>,
        overwrite: bool,
        source: QueryView,
        partitioned: Option<Seq<ExprView>>,
        after_columns: Seq<IdentView>,
        table: bool,
        on: Option<Seq<char>>,
    },
    Other(Seq<char>),
}

impl View for Statement {
    type V = StatementView;

    open spec fn view(&self) -> StatementView {
        match *self {
            Statement::Insert {
                or,
                table_name,
                columns,
                overwrite,
                source,
                partitioned,
                after_columns,
                table,
                on,
            } => StatementView::Insert {
                or,
                table_name: table_name@,
                columns: ident_views(columns@),
                overwrite,
                source: source@,
                partitioned: match partitioned {
                    Some(exprs) => Some(expr_views(exprs@)),
                    None => None,
                },
                after_columns: ident_views(after_columns@),
                table,
                on: match on {
                    Some(text) => Some(text@),
                    None => None,
                },
            },
            Statement::Other(text) => StatementView::Other(text@),
        }
    }
}

impl Clone for Statement {
    /// The clone of a statement is the same statement.
    fn clone(&self) -> (r: Self)
        ensures
            r@ == self@,
    {
        match self {
            Statement::Insert {
                or,
                table_name,
                columns,
                overwrite,
                source,
                partitioned,
                after_columns,
                table,
                on,
            } => Statement::Insert {
                or: *or,
                table_name: table_name.clone(),
                columns: clone_idents(columns),
                overwrite: *overwrite,
                source: source.clone(),
                partitioned: match partitioned {
                    Some(exprs) => Some(clone_exprs(exprs)),
                    None => None,
                },
                after_columns: clone_idents(after_columns),
                table: *table,
                on: match on {
                    Some(text) => Some(text.clone()),
                    None => None,
                },
            },
            Statement::Other(text) => Statement::Other(text.clone()),
        }
    }
}

/// The view of an identifier has both its parts.
pub proof fn ident_parts(ident: Ident)
    ensures
        ident@.value == ident.value@,
        ident@.quote_style == ident.quote_style,
{
}

/// The views of identifiers are as many as these, in the same order, and so are those of the parts
/// of a name.
pub proof fn idents_keep_their_places(idents: Seq<Ident>, name: ObjectName, i: int)
    ensures
        ident_views(idents).len() == idents.len(),
        0 <= i < idents.len() ==> ident_views(idents)[i] == idents[i]@,
        name@.len() == name.0@.len(),
        0 <= i < name.0@.len() ==> name@[i] == name.0@[i]@,
{
}

/// The view of a literal is of the same kind and has the same parts.
pub proof fn literal_parts(literal: Value)
    ensures
        literal matches Value::Number(digits, long) ==> literal@ == ValueView::Number(digits@, long),
        literal matches Value::SingleQuotedString(text) ==> literal@
            == ValueView::SingleQuotedString(text@),
        literal matches Value::NationalStringLiteral(text) ==> literal@
            == ValueView::NationalStringLiteral(text@),
        literal matches Value::HexStringLiteral(text) ==> literal@ == ValueView::HexStringLiteral(
            text@,
        ),
        literal matches Value::DoubleQuotedString(text) ==> literal@
            == ValueView::DoubleQuotedString(text@),
        literal matches Value::Boolean(truth) ==> literal@ == ValueView::Boolean(truth),
        literal is Interval ==> {
            &&& literal@ is Interval
            &&& literal@->value == literal->value@
            &&& literal@->leading_field == literal->leading_field
            &&& literal@->leading_precision == literal->leading_precision
            &&& literal@->last_field == literal->last_field
            &&& literal@->fractional_seconds_precision == literal->fractional_seconds_precision
        },
        literal is Null ==> literal@ is Null,
        literal matches Value::Placeholder(text) ==> literal@ == ValueView::Placeholder(text@),
{
}

/// The view of an expression is of the same kind and has the same parts and the same text.
pub proof fn expr_parts(expr: Expr)
    ensures
        expr@.debug == expr.debug@,
        expr.kind matches ExprKind::Value(literal) ==> expr@.kind == ExprKindView::Value(literal@),
        expr.kind matches ExprKind::Identifier(word) ==> expr@.kind == ExprKindView::Identifier(
            word@,
        ),
        expr.kind matches ExprKind::UnaryOp { op: sign, expr: operand } ==> (expr@.kind matches
            ExprKindView::UnaryOp { op: seen, expr: inside } && seen == sign && *inside
            == (*operand)@),
        expr.kind is Other ==> expr@.kind is Other,
{
}

/// The views of expressions are as many as these, in the same order, row by row.
pub proof fn exprs_keep_their_places(rows: Seq<Vec<Expr>>, i: int, j: int)
    ensures
        row_views(rows).len() == rows.len(),
        0 <= i < rows.len() ==> {
            &&& row_views(rows)[i] == expr_views(rows[i]@)
            &&& row_views(rows)[i].len() == rows[i]@.len()
            &&& 0 <= j < rows[i]@.len() ==> row_views(rows)[i][j] == rows[i]@[j]@
        },
{
}

/// The view of a query has its rows, where it is a list of rows, and its text.
pub proof fn query_parts(query: Query)
    ensures
        query@.debug == query.debug@,
        query.body matches SetExpr::Values(rows) ==> query@.body == SetExprView::Values(
            row_views(rows@),
        ),
        query.body is Other ==> query@.body is Other,
{
}

/// The view of a statement is of the same kind and has every part of it.
pub proof fn statement_parts(statement: Statement, i: int)
    ensures
        statement is Insert ==> {
            &&& statement@ is Insert
            &&& statement@->or == statement->or
            &&& statement@->table_name == statement->table_name@
            &&& statement@->columns.len() == statement->columns@.len()
            &&& 0 <= i < statement->columns@.len() ==> statement@->columns[i]
                == statement->columns@[i]@
            &&& statement@->overwrite == statement->overwrite
            &&& statement@->source == statement->source@
            &&& statement@->partitioned is Some <==> statement->partitioned is Some
            &&& statement->partitioned matches Some(exprs) ==> {
                &&& statement@->partitioned->0.len() == exprs@.len()
                &&& 0 <= i < exprs@.len() ==> statement@->partitioned->0[i] == exprs@[i]@
            }
            &&& statement@->after_columns.len() == statement->after_columns@.len()
            &&& 0 <= i < statement->after_columns@.len() ==> statement@->after_columns[i]
                == statement->after_columns@[i]@
            &&& statement@->table == statement->table
            &&& statement@->on is Some <==> statement->on is Some
            &&& statement->on matches Some(clause) ==> statement@->on->0 == clause@
        },
        statement matches Statement::Other(text) ==> statement@ == StatementView::Other(text@),
{
}

} // verus!
