use sql_servers::ast::{
    Expr, ExprKind, Ident, ObjectName, Query, SetExpr, SqliteOnConflict, Statement, UnaryOperator, Value,
};
use sql_servers::error::{Error, ParserError};
use sql_servers::insert::{sql_exprs_to_values, Insert};
use sqlparser::dialect::{Dialect, GenericDialect, HiveDialect, MySqlDialect, SQLiteDialect};
use sqlparser::parser::Parser;

fn parse(sql: &str) -> sqlparser::ast::Statement {
    Parser::parse_sql(&GenericDialect {}, sql).unwrap().remove(0)
}

fn insert(sql: &str) -> Insert {
    Insert::try_from_sqlparser(&parse(sql)).unwrap()
}

fn insert_of(dialect: &dyn Dialect, sql: &str) -> Insert {
    Insert::from_sqlparser(&Parser::parse_sql(dialect, sql).unwrap().remove(0)).unwrap()
}

fn plain_insert(columns: Vec<Ident>, body: SetExpr, debug: &str) -> Statement {
    Statement::Insert {
        or: None,
        table_name: ObjectName(vec![ident("t")]),
        columns,
        overwrite: false,
        source: Query { body, debug: debug.to_string() },
        partitioned: None,
        after_columns: vec![],
        table: false,
        on: None,
    }
}

fn number(digits: &str) -> Value {
    Value::Number(digits.to_string(), false)
}

fn string(text: &str) -> Value {
    Value::SingleQuotedString(text.to_string())
}

fn ident(value: &str) -> Ident {
    Ident { value: value.to_string(), quote_style: None }
}

fn expr(kind: ExprKind, debug: &str) -> Expr {
    Expr { kind, debug: debug.to_string() }
}

fn unary(op: UnaryOperator, operand: Expr, debug: &str) -> Expr {
    expr(ExprKind::UnaryOp { op, expr: Box::new(operand) }, debug)
}

fn msg(result: Result<Vec<Vec<Value>>, Error>) -> String {
    match result.unwrap_err() {
        Error::ParseSqlValue { msg } => msg,
    }
}

#[test]
fn test_insert_value_with_unary_op() {
    // insert "-1"
    let sql = "INSERT INTO my_table VALUES(-1)";
    let stmt = Parser::parse_sql(&GenericDialect {}, sql).unwrap().remove(0);
    let insert = Insert::try_from_sqlparser(&stmt).unwrap();
    let values = insert.values().unwrap();
    assert_eq!(values, vec![vec![Value::Number("-1".to_string(), false)]]);

    // insert "+1"
    let sql = "INSERT INTO my_table VALUES(+1)";
    let stmt = Parser::parse_sql(&GenericDialect {}, sql).unwrap().remove(0);
    let insert = Insert::try_from_sqlparser(&stmt).unwrap();
    let values = insert.values().unwrap();
    assert_eq!(values, vec![vec![Value::Number("1".to_string(), false)]]);
}

#[test]
fn signs_on_library_values() {
    let one = || expr(ExprKind::Value(number("1")), "one");
    let rows = vec![vec![
        one(),
        unary(UnaryOperator::Minus, one(), "minus one"),
        unary(UnaryOperator::Plus, one(), "plus one"),
    ]];
    assert_eq!(
        sql_exprs_to_values(&rows).unwrap(),
        vec![vec![number("1"), number("-1"), number("1")]]
    );
    let long = expr(ExprKind::Value(Value::Number("2".to_string(), true)), "");
    let rows = vec![vec![unary(UnaryOperator::Minus, long, "")]];
    assert_eq!(
        sql_exprs_to_values(&rows).unwrap(),
        vec![vec![Value::Number("-2".to_string(), true)]]
    );
}

#[test]
fn rows_and_columns_keep_their_places() {
    let insert = insert("INSERT INTO t (a, b) VALUES (1, 'x'), (-2.5, y), (NULL, true)");
    assert_eq!(insert.columns(), vec!["a", "b"]);
    assert_eq!(
        insert.values().unwrap(),
        vec![
            vec![number("1"), string("x")],
            vec![number("-2.5"), string("y")],
            vec![Value::Null, Value::Boolean(true)],
        ]
    );
}

#[test]
fn every_literal_stands_for_itself() {
    let insert = insert(
        "INSERT INTO t VALUES (1, 's', N'n', X'ff', false, NULL, ?, INTERVAL '1' DAY, INTERVAL '2' YEAR (3) TO MONTH)",
    );
    assert_eq!(
        insert.values().unwrap(),
        vec![vec![
            number("1"),
            string("s"),
            Value::NationalStringLiteral("n".to_string()),
            Value::HexStringLiteral("ff".to_string()),
            Value::Boolean(false),
            Value::Null,
            Value::Placeholder("?".to_string()),
            Value::Interval {
                value: "1".to_string(),
                leading_field: Some(sqlparser::ast::DateTimeField::Day),
                leading_precision: None,
                last_field: None,
                fractional_seconds_precision: None,
            },
            Value::Interval {
                value: "2".to_string(),
                leading_field: Some(sqlparser::ast::DateTimeField::Year),
                leading_precision: Some(3),
                last_field: Some(sqlparser::ast::DateTimeField::Month),
                fractional_seconds_precision: None,
            },
        ]]
    );
    let quoted = Value::DoubleQuotedString("d".to_string());
    let rows = vec![vec![expr(ExprKind::Value(quoted.clone()), "")]];
    assert_eq!(sql_exprs_to_values(&rows).unwrap(), vec![vec![quoted]]);
}

#[test]
fn bare_words_become_strings_without_their_quotes() {
    let insert = insert("INSERT INTO t VALUES (abc, \"d e\")");
    assert_eq!(insert.values().unwrap(), vec![vec![string("abc"), string("d e")]]);
}

#[test]
fn no_rows_and_empty_rows() {
    assert_eq!(sql_exprs_to_values(&vec![]).unwrap(), Vec::<Vec<Value>>::new());
    assert_eq!(sql_exprs_to_values(&vec![vec![]]).unwrap(), vec![Vec::<Value>::new()]);
}

#[test]
fn a_signed_string_is_reported_by_its_operand() {
    let insert = insert("INSERT INTO t VALUES (-'a')");
    assert_eq!(msg(insert.values()), "Value(SingleQuotedString(\"a\"))");
}

#[test]
fn a_doubly_signed_number_is_reported_by_its_operand() {
    let insert = insert("INSERT INTO t VALUES (- - 1)");
    assert_eq!(
        msg(insert.values()),
        "UnaryOp { op: Minus, expr: Value(Number(\"1\", false)) }"
    );
}

#[test]
fn another_operator_is_reported_whole() {
    let insert = insert("INSERT INTO t VALUES (NOT 1)");
    assert_eq!(
        msg(insert.values()),
        "UnaryOp { op: Not, expr: Value(Number(\"1\", false)) }"
    );
}

#[test]
fn another_expression_is_reported_whole() {
    let insert = insert("INSERT INTO t VALUES (1), ((2)), (-'a')");
    assert_eq!(msg(insert.values()), "Nested(Value(Number(\"2\", false)))");
}

#[test]
fn only_plus_and_minus_are_signs() {
    for op in [
        UnaryOperator::Not,
        UnaryOperator::PGBitwiseNot,
        UnaryOperator::PGSquareRoot,
        UnaryOperator::PGCubeRoot,
        UnaryOperator::PGPostfixFactorial,
        UnaryOperator::PGPrefixFactorial,
        UnaryOperator::PGAbs,
    ] {
        let rows = vec![vec![unary(op, expr(ExprKind::Value(number("1")), "inner"), "outer")]];
        assert_eq!(msg(sql_exprs_to_values(&rows)), "outer");
    }
}

#[test]
fn the_first_unreadable_expression_decides() {
    let bad = |debug: &str| expr(ExprKind::Other, debug);
    let good = || expr(ExprKind::Value(Value::Null), "");
    let rows = vec![vec![good(), good()], vec![good(), bad("second"), bad("third")], vec![bad("fourth")]];
    assert_eq!(msg(sql_exprs_to_values(&rows)), "second");
}

#[test]
fn the_table_name_keeps_its_parts_and_quotes() {
    let insert = insert("INSERT INTO cat.\"Sch\".tab VALUES (1)");
    assert_eq!(
        *insert.table_name(),
        ObjectName(vec![
            ident("cat"),
            Ident { value: "Sch".to_string(), quote_style: Some('"') },
            ident("tab"),
        ])
    );
}

#[test]
fn the_full_table_name_is_what_the_resolver_makes_of_the_name() {
    let insert = insert("INSERT INTO s.t VALUES (1)");
    let resolve = |name: &ObjectName| -> Result<(String, String, String), String> {
        match &name.0[..] {
            [schema, table] => Ok(("c".to_string(), schema.value.clone(), table.value.clone())),
            other => Err(format!("{} parts", other.len())),
        }
    };
    assert_eq!(
        insert.full_table_name(resolve).unwrap(),
        ("c".to_string(), "s".to_string(), "t".to_string())
    );
    let unqualified = Insert::try_from_sqlparser(&parse("INSERT INTO t VALUES (1)")).unwrap();
    assert_eq!(unqualified.full_table_name(resolve), Err("1 parts".to_string()));
}

#[test]
fn columns_may_be_left_out() {
    assert!(insert("INSERT INTO t VALUES (1)").columns().is_empty());
}

#[test]
fn an_insert_from_a_query_has_no_rows_of_its_own() {
    let insert = insert("INSERT INTO t (a) SELECT b FROM u");
    let debug = match parse("INSERT INTO t (a) SELECT b FROM u") {
        sqlparser::ast::Statement::Insert { source, .. } => format!("{:?}", source),
        other => panic!("{}", other),
    };
    assert!(debug.starts_with("Query { with: None, body: Select(Select {"));
    assert_eq!(insert.inner, plain_insert(vec![ident("a")], SetExpr::Other, &debug));
}

#[test]
fn a_list_of_rows_is_held_with_its_text() {
    let row = vec![expr(ExprKind::Value(number("1")), "Value(Number(\"1\", false))")];
    assert_eq!(
        insert("INSERT INTO t VALUES (1)").inner,
        plain_insert(
            vec![],
            SetExpr::Values(vec![row]),
            "Query { with: None, body: Values(Values([[Value(Number(\"1\", false))]])), \
             order_by: [], limit: None, offset: None, fetch: None, lock: None }",
        )
    );
}

#[test]
fn every_part_of_an_insert_is_held() {
    let hive = insert_of(
        &HiveDialect {},
        "INSERT OVERWRITE TABLE t (a) PARTITION (x = 1) (b, c) VALUES (1)",
    );
    match hive.inner {
        Statement::Insert { or, columns, overwrite, partitioned, after_columns, table, on, .. } => {
            assert_eq!(or, None);
            assert_eq!(columns, vec![ident("a")]);
            assert!(overwrite);
            let partitioned = partitioned.unwrap();
            assert_eq!(partitioned.len(), 1);
            assert_eq!(partitioned[0].kind, ExprKind::Other);
            assert!(partitioned[0].debug.starts_with("BinaryOp { left: Identifier(Ident {"));
            assert_eq!(after_columns, vec![ident("b"), ident("c")]);
            assert!(table);
            assert_eq!(on, None);
        }
        other => panic!("{:?}", other),
    }
    let mysql = insert_of(&MySqlDialect {}, "INSERT INTO t VALUES (1) ON DUPLICATE KEY UPDATE a = 2");
    match mysql.inner {
        Statement::Insert { overwrite, partitioned, after_columns, table, on, .. } => {
            assert!(!overwrite);
            assert_eq!(partitioned, None);
            assert!(after_columns.is_empty());
            assert!(!table);
            assert_eq!(
                on.unwrap(),
                "DuplicateKeyUpdate([Assignment { id: [Ident { value: \"a\", quote_style: None }], \
                 value: Value(Number(\"2\", false)) }])"
            );
        }
        other => panic!("{:?}", other),
    }
}

#[test]
fn every_conflict_clause_is_held() {
    for (word, conflict) in [
        ("ROLLBACK", SqliteOnConflict::Rollback),
        ("ABORT", SqliteOnConflict::Abort),
        ("FAIL", SqliteOnConflict::Fail),
        ("IGNORE", SqliteOnConflict::Ignore),
        ("REPLACE", SqliteOnConflict::Replace),
    ] {
        let sql = format!("INSERT OR {} INTO t VALUES (1)", word);
        match insert_of(&SQLiteDialect {}, &sql).inner {
            Statement::Insert { or, .. } => assert_eq!(or, Some(conflict)),
            other => panic!("{:?}", other),
        }
    }
}

#[test]
fn inserts_are_equal_where_their_statements_are() {
    let statements: Vec<sqlparser::ast::Statement> = [
        "INSERT INTO t VALUES (1)",
        "insert  into t values (1)",
        "INSERT OVERWRITE t VALUES (1)",
        "INSERT INTO TABLE t VALUES (1)",
        "INSERT INTO t (a) VALUES (1)",
        "INSERT INTO \"t\" VALUES (1)",
        "INSERT INTO t PARTITION (x = 1) VALUES (1)",
        "INSERT INTO t PARTITION (x = 2) VALUES (1)",
        "INSERT INTO t PARTITION (x = 1) (a) VALUES (1)",
        "INSERT INTO t VALUES (1) ORDER BY 1",
        "INSERT INTO t VALUES (1) LIMIT 1",
        "INSERT INTO t VALUES (1) LIMIT 2",
        "INSERT INTO t VALUES (1) ON DUPLICATE KEY UPDATE a = 1",
        "INSERT INTO t VALUES (1) ON DUPLICATE KEY UPDATE a = 2",
        "INSERT INTO t VALUES ((1))",
        "INSERT INTO t VALUES ((2))",
        "INSERT INTO t SELECT a FROM u",
        "INSERT INTO t SELECT b FROM u",
        "INSERT INTO t WITH u AS (SELECT 1) SELECT a FROM u",
    ]
    .iter()
    .map(|sql| parse(sql))
    .collect();
    let inserts: Vec<Insert> =
        statements.iter().map(|statement| Insert::from_sqlparser(statement).unwrap()).collect();
    for i in 0..statements.len() {
        assert_eq!(inserts[i], inserts[i].clone());
        for j in 0..statements.len() {
            assert_eq!(inserts[i] == inserts[j], statements[i] == statements[j], "{} {}", i, j);
        }
    }
    assert_eq!(inserts[0], inserts[1]);
    assert_ne!(inserts[0], inserts[2]);
}

#[test]
fn another_statement_is_refused_with_its_text() {
    let statement = parse("select  *  from t");
    assert_eq!(
        Insert::try_from_sqlparser(&statement),
        Err(ParserError::ParserError("Not expected to be SELECT * FROM t".to_string()))
    );
    assert_eq!(Insert::from_sqlparser(&statement), None);
    assert_eq!(
        Insert::try_from(Statement::Other("DROP TABLE t".to_string())),
        Err(ParserError::ParserError("Not expected to be DROP TABLE t".to_string()))
    );
}

#[test]
fn a_statement_is_refused_with_the_text_that_is_given() {
    let refused = |text: &str| Err(ParserError::ParserError(format!("Not expected to be {}", text)));
    let statement = parse("SELECT 1");
    for text in ["select 1", "", "it"] {
        assert_eq!(Insert::try_from_sqlparser_with(&statement, text.to_string()), refused(text));
    }
    let unwritable = sqlparser::ast::Statement::ShowVariable {
        variable: vec![sqlparser::ast::Ident { value: "v".to_string(), quote_style: Some('x') }],
    };
    assert_eq!(Insert::from_sqlparser(&unwritable), None);
    assert_eq!(Insert::try_from_sqlparser_with(&unwritable, "SHOW".to_string()), refused("SHOW"));
    assert_eq!(
        Insert::try_from_sqlparser_with(&parse("INSERT INTO t VALUES (1)"), "it".to_string()),
        Ok(insert("INSERT INTO t VALUES (1)"))
    );
}

#[test]
fn an_insert_is_taken_as_it_is() {
    let make = || {
        let row = vec![expr(ExprKind::Value(number("1")), "1")];
        plain_insert(vec![], SetExpr::Values(vec![row]), "VALUES (1)")
    };
    assert_eq!(Insert::try_from(make()).unwrap().inner, make());
    let statement = parse("INSERT INTO t VALUES (1)");
    let taken = Insert::from_sqlparser(&statement).unwrap();
    assert_eq!(taken, Insert::try_from_sqlparser(&statement).unwrap());
    assert_eq!(taken.values().unwrap(), vec![vec![number("1")]]);
}

#[test]
fn two_lists_of_rows_are_read_one_after_the_other() {
    let both = insert("INSERT INTO t VALUES (1, a), (-2, 'b')").values().unwrap();
    let mut parts = insert("INSERT INTO t VALUES (1, a)").values().unwrap();
    parts.extend(insert("INSERT INTO t VALUES (-2, 'b')").values().unwrap());
    assert_eq!(both, parts);
}
