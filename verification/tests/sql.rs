use callisto_engines::registry::TableRegistry;
use callisto_engines::sql::{ParseError, ParseErrorKind, ParsedStatement};

/// What the SQL parser makes of `query`: each statement as the parser holds
/// it, with what the library is told of it.
fn parse(query: &str) -> Result<Vec<(sqlparser::ast::Statement, ParsedStatement)>, ParseError> {
    let options =
        sqlparser::parser::ParserOptions { trailing_commas: true, ..Default::default() };
    let parsed = sqlparser::parser::Parser::new(&sqlparser::dialect::GenericDialect {})
        .with_options(options)
        .try_with_sql(query)
        .and_then(|mut parser| parser.parse_statements());
    match parsed {
        Ok(statements) => Ok(statements
            .into_iter()
            .map(|ast| {
                let mut heads = Vec::new();
                let _ = sqlparser::ast::visit_relations(&ast, |relation| {
                    heads.push(relation.0[0].value.clone());
                    core::ops::ControlFlow::<()>::Continue(())
                });
                let facts = ParsedStatement::new(ast.to_string(), heads);
                (ast, facts)
            })
            .collect()),
        Err(sqlparser::parser::ParserError::TokenizerError(detail)) => {
            Err(ParseError { kind: ParseErrorKind::Tokenizer, detail })
        }
        Err(sqlparser::parser::ParserError::ParserError(detail)) => {
            Err(ParseError { kind: ParseErrorKind::Syntax, detail })
        }
        Err(sqlparser::parser::ParserError::RecursionLimitExceeded) => {
            Err(ParseError { kind: ParseErrorKind::RecursionLimit, detail: String::new() })
        }
    }
}

/// The text of `ast` with `references` in the place of its table references.
fn substituted(ast: &sqlparser::ast::Statement, references: &[String]) -> String {
    let mut rewritten = ast.clone();
    let mut next = references.iter();
    let _ = sqlparser::ast::visit_relations_mut(&mut rewritten, |relation| {
        relation.0[0].value = next.next().unwrap().clone();
        core::ops::ControlFlow::<()>::Continue(())
    });
    assert!(next.next().is_none());
    rewritten.to_string()
}

fn facts(query: &str) -> Vec<ParsedStatement> {
    parse(query).unwrap().into_iter().map(|(_, facts)| facts).collect()
}

fn strings(items: &[&str]) -> Vec<String> {
    items.iter().map(|s| s.to_string()).collect()
}

#[test]
fn statement_holds_what_it_was_made_of() {
    let statement = ParsedStatement::new("SELECT * FROM a".to_string(), strings(&["a"]));
    assert_eq!(statement.to_sql(), "SELECT * FROM a");
    assert_eq!(statement.relation_heads(), &strings(&["a"]));
}

#[test]
fn two_statements_come_in_order() {
    let statements = facts("SELECT 1; SELECT 2;");
    assert_eq!(statements.len(), 2);
    assert_eq!(statements[0].to_sql(), "SELECT 1");
    assert_eq!(statements[1].to_sql(), "SELECT 2");
}

#[test]
fn relations_are_found_in_the_whole_statement() {
    let statements = facts(
        "WITH c AS (SELECT * FROM inner_t) \
         SELECT * FROM 'data/a.parquet' AS a JOIN b ON a.x = b.x \
         WHERE a.y IN (SELECT y FROM \"sub.parquet\")",
    );
    assert_eq!(
        statements[0].relation_heads(),
        &strings(&["inner_t", "data/a.parquet", "b", "sub.parquet"])
    );
}

#[test]
fn registered_references_are_rewritten_and_others_kept() {
    let statement = ParsedStatement::new(
        "SELECT * FROM 'data/a.parquet' JOIN 'missing.parquet' ON true".to_string(),
        strings(&["data/a.parquet", "missing.parquet"]),
    );
    let mut registry = TableRegistry::new();
    assert!(registry.commit("data/a.parquet"));
    assert_eq!(
        statement.rewritten_references(&registry),
        strings(&["tbl_a_parquet", "missing.parquet"])
    );
}

#[test]
fn empty_registry_rewrites_nothing() {
    let statement =
        ParsedStatement::new("SELECT * FROM a, b".to_string(), strings(&["a", "b"]));
    let registry = TableRegistry::new();
    assert_eq!(statement.rewritten_references(&registry), strings(&["a", "b"]));
}

#[test]
fn statement_without_references_has_none_rewritten() {
    let statement = ParsedStatement::new("SELECT 1".to_string(), Vec::new());
    let mut registry = TableRegistry::new();
    assert!(registry.commit("a"));
    assert!(statement.rewritten_references(&registry).is_empty());
}

#[test]
fn both_occurrences_get_the_same_name() {
    let parsed =
        parse("SELECT * FROM \"./t.parquet\" AS a JOIN \"./t.parquet\" AS b ON a.x = b.x")
            .unwrap();
    let mut registry = TableRegistry::new();
    assert!(registry.commit("./t.parquet"));
    let references = parsed[0].1.rewritten_references(&registry);
    assert_eq!(references, strings(&["tbl_t_parquet", "tbl_t_parquet"]));
    assert_eq!(
        substituted(&parsed[0].0, &references),
        "SELECT * FROM \"tbl_t_parquet\" AS a JOIN \"tbl_t_parquet\" AS b ON a.x = b.x"
    );
}

#[test]
fn unregistered_reference_stays_in_the_text() {
    let parsed = parse("SELECT * FROM 'missing.parquet'").unwrap();
    let registry = TableRegistry::new();
    let references = parsed[0].1.rewritten_references(&registry);
    assert_eq!(substituted(&parsed[0].0, &references), parsed[0].1.to_sql());
    assert!(substituted(&parsed[0].0, &references).contains("missing.parquet"));
}

#[test]
fn malformed_text_is_a_syntax_error() {
    let error = parse("SELECT FROM FROM").unwrap_err();
    assert_eq!(error.kind, ParseErrorKind::Syntax);
}
