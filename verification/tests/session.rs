use callisto_engines::engine::Engine;
use callisto_engines::session::{Action, Event, ExecutionError, Session, WarningReason};
use callisto_engines::sql::{ParseError, ParseErrorKind, ParsedStatement};

/// What the SQL parser makes of `query`: each statement as the parser holds
/// it, with what the library is told of it.
fn parse(query: &str) -> Result<Vec<(sqlparser::ast::Statement, ParsedStatement)>, ParseError> {
    let options =
        sqlparser::parser::ParserOptions { trailing_commas: true, ..Default::default() };
    let parsed = sqlparser::parser::Parser::new(&sqlparser::dialect::GenericDialect {})
        .with_options(options)
        .try_with_sql(query)
        .and_then(|mut parser| parser.parse_statements());
    match parsed {
        Ok(statements) => Ok(statements
            .into_iter()
            .map(|ast| {
                let mut heads = Vec::new();
                let _ = sqlparser::ast::visit_relations(&ast, |relation| {
                    heads.push(relation.0[0].value.clone());
                    core::ops::ControlFlow::<()>::Continue(())
                });
                let facts = ParsedStatement::new(ast.to_string(), heads);
                (ast, facts)
            })
            .collect()),
        Err(sqlparser::parser::ParserError::TokenizerError(detail)) => {
            Err(ParseError { kind: ParseErrorKind::Tokenizer, detail })
        }
        Err(sqlparser::parser::ParserError::ParserError(detail)) => {
            Err(ParseError { kind: ParseErrorKind::Syntax, detail })
        }
        Err(sqlparser::parser::ParserError::RecursionLimitExceeded) => {
            Err(ParseError { kind: ParseErrorKind::RecursionLimit, detail: String::new() })
        }
    }
}

/// The text of `ast` with `references` in the place of its table references.
fn substituted(ast: &sqlparser::ast::Statement, references: &[String]) -> String {
    let mut rewritten = ast.clone();
    let mut next = references.iter();
    let _ = sqlparser::ast::visit_relations_mut(&mut rewritten, |relation| {
        relation.0[0].value = next.next().unwrap().clone();
        core::ops::ControlFlow::<()>::Continue(())
    });
    assert!(next.next().is_none());
    rewritten.to_string()
}

/// One engine instance as a caller holds it: the library's session, and the
/// statements of the call under way as the parser holds them.
struct Instance {
    session: Session,
    asts: Vec<sqlparser::ast::Statement>,
}

impl Instance {
    fn new(engine: Engine) -> Instance {
        Instance { session: engine.new(), asts: Vec::new() }
    }

    fn begin(&mut self, query: &str) -> Result<usize, ExecutionError> {
        match parse(query) {
            Ok(parsed) => {
                let mut asts = Vec::new();
                let mut facts = Vec::new();
                for (ast, fact) in parsed {
                    asts.push(ast);
                    facts.push(fact);
                }
                let result = self.session.begin(Ok(facts));
                self.asts = asts;
                result
            }
            Err(error) => self.session.begin(Err(error)),
        }
    }

    fn advance(&mut self, event: Event) -> bool {
        self.session.advance(event)
    }

    fn action(&self) -> Action {
        self.session.action()
    }
}

fn expect_register(instance: &Instance, identifier: &str, table: &str) {
    match instance.action() {
        Action::Register { identifier: i, table: t } => {
            assert_eq!(i, identifier);
            assert_eq!(t, table);
        }
        other => panic!("expected a registration, got {:?}", other),
    }
}

fn expect_run(instance: &Instance, statement: usize, sql: &str) {
    match instance.action() {
        Action::Run { statement: at, references } => {
            assert_eq!(at, statement);
            assert_eq!(substituted(&instance.asts[at], &references), sql);
        }
        other => panic!("expected a run, got {:?}", other),
    }
}

#[test]
fn fresh_session_has_nothing_to_do() {
    let session = Instance::new(Engine::Polars);
    assert_eq!(session.session.engine(), Engine::Polars);
    assert_eq!(session.session.statement_count(), 0);
    assert_eq!(session.session.registry().len(), 0);
    assert!(session.session.warnings().is_empty());
    assert!(matches!(session.action(), Action::Finish));
}

#[test]
fn statements_run_in_the_order_of_the_text() {
    let mut session = Instance::new(Engine::DataFusion);
    assert_eq!(session.begin("SELECT 1; SELECT 2;").unwrap(), 2);
    assert_eq!(session.session.statement(0).unwrap().to_sql(), "SELECT 1");
    assert_eq!(session.session.statement(1).unwrap().to_sql(), "SELECT 2");
    assert!(session.session.statement(2).is_none());
    expect_run(&session, 0, "SELECT 1");
    assert!(session.advance(Event::Completed));
    expect_run(&session, 1, "SELECT 2");
    assert!(session.advance(Event::Completed));
    assert!(matches!(session.action(), Action::Finish));
    assert!(!session.advance(Event::Completed));
}

#[test]
fn empty_text_finishes_at_once() {
    let mut session = Instance::new(Engine::DuckDB);
    assert_eq!(session.begin("").unwrap(), 0);
    assert!(matches!(session.action(), Action::Finish));
}

#[test]
fn parse_error_comes_before_anything_else() {
    let mut session = Instance::new(Engine::DataFusion);
    assert_eq!(session.begin("SELECT 1").unwrap(), 1);
    match session.begin("SELECT * FROM 'a.parquet'; SELEC") {
        Err(ExecutionError::Parse(error)) => assert_eq!(error.kind, ParseErrorKind::Syntax),
        other => panic!("expected a parse error, got {:?}", other),
    }
    assert_eq!(session.session.registry().len(), 0);
    assert_eq!(session.session.statement_count(), 1);
    expect_run(&session, 0, "SELECT 1");
}

#[test]
fn one_file_referenced_twice_is_registered_once() {
    let mut session = Instance::new(Engine::Polars);
    session
        .begin("SELECT * FROM \"./t.parquet\" AS a JOIN \"./t.parquet\" AS b ON a.x = b.x")
        .unwrap();
    expect_register(&session, "./t.parquet", "tbl_t_parquet");
    assert!(session.advance(Event::Registered));
    expect_run(
        &session,
        0,
        "SELECT * FROM \"tbl_t_parquet\" AS a JOIN \"tbl_t_parquet\" AS b ON a.x = b.x",
    );
    assert_eq!(session.session.registry().len(), 1);
    assert!(session.session.warnings().is_empty());
    assert!(session.advance(Event::Completed));
    assert!(matches!(session.action(), Action::Finish));
}

#[test]
fn registered_file_is_not_registered_again_by_a_later_call() {
    let mut session = Instance::new(Engine::DataFusion);
    session.begin("SELECT * FROM 'data/events.parquet'").unwrap();
    expect_register(&session, "data/events.parquet", "tbl_events_parquet");
    assert!(session.advance(Event::Registered));
    expect_run(&session, 0, "SELECT * FROM 'tbl_events_parquet'");
    assert!(session.advance(Event::Completed));
    session
        .begin("SELECT count(*) FROM 'data/events.parquet'; SELECT * FROM 'data/events.parquet'")
        .unwrap();
    expect_run(&session, 0, "SELECT count(*) FROM 'tbl_events_parquet'");
    assert!(session.advance(Event::Completed));
    expect_run(&session, 1, "SELECT * FROM 'tbl_events_parquet'");
    assert_eq!(session.session.registry().len(), 1);
}

#[test]
fn failed_registration_leaves_the_reference_in_place() {
    let mut session = Instance::new(Engine::DataFusion);
    session.begin("SELECT * FROM 'missing.parquet'").unwrap();
    expect_register(&session, "missing.parquet", "tbl_missing_parquet");
    assert!(session.advance(Event::RegistrationFailed("no such file".to_string())));
    expect_run(&session, 0, "SELECT * FROM 'missing.parquet'");
    assert_eq!(session.session.registry().len(), 0);
    let warnings = session.session.warnings();
    assert_eq!(warnings.len(), 1);
    assert_eq!(warnings[0].identifier, "missing.parquet");
    assert_eq!(warnings[0].reason, WarningReason::RegistrationFailed);
    assert_eq!(warnings[0].message, "no such file");
    assert!(session.advance(Event::Failed("relation not found".to_string())));
    match session.action() {
        Action::Abort(ExecutionError::Execute { statement, message }) => {
            assert_eq!(statement, 0);
            assert_eq!(message, "relation not found");
        }
        other => panic!("expected an abort, got {:?}", other),
    }
}

#[test]
fn first_failure_ends_the_call() {
    let mut session = Instance::new(Engine::DuckDB);
    session.begin("SELECT 1; SELECT nope; SELECT 3").unwrap();
    assert!(session.advance(Event::Completed));
    expect_run(&session, 1, "SELECT nope");
    assert!(session.advance(Event::Failed("boom".to_string())));
    assert!(matches!(session.action(), Action::Abort(_)));
    assert!(!session.advance(Event::Completed));
    assert!(!session.advance(Event::Registered));
    assert!(!session.advance(Event::Failed("again".to_string())));
    assert!(matches!(
        session.action(),
        Action::Abort(ExecutionError::Execute { statement: 1, .. })
    ));
}

#[test]
fn session_is_usable_after_a_failed_call() {
    let mut session = Instance::new(Engine::DuckDB);
    session.begin("SELECT * FROM 'a.parquet'").unwrap();
    assert!(session.advance(Event::Registered));
    assert!(session.advance(Event::Failed("boom".to_string())));
    assert_eq!(session.begin("SELECT * FROM 'a.parquet'").unwrap(), 1);
    expect_run(&session, 0, "SELECT * FROM 'tbl_a_parquet'");
    assert!(session.session.warnings().is_empty());
}

#[test]
fn event_of_the_wrong_kind_is_refused() {
    let mut session = Instance::new(Engine::Polars);
    session.begin("SELECT * FROM 'a.parquet'").unwrap();
    assert!(!session.advance(Event::Completed));
    assert!(!session.advance(Event::Failed("x".to_string())));
    expect_register(&session, "a.parquet", "tbl_a_parquet");
    assert!(session.advance(Event::Registered));
    assert!(!session.advance(Event::Registered));
    assert!(!session.advance(Event::RegistrationFailed("x".to_string())));
    expect_run(&session, 0, "SELECT * FROM 'tbl_a_parquet'");
}

#[test]
fn colliding_name_is_warned_about_without_asking_the_engine() {
    let mut session = Instance::new(Engine::Polars);
    session.begin("SELECT * FROM 'a/t.parquet' JOIN 'b/t.parquet' ON true").unwrap();
    expect_register(&session, "a/t.parquet", "tbl_t_parquet");
    assert!(session.advance(Event::Registered));
    expect_run(&session, 0, "SELECT * FROM 'tbl_t_parquet' JOIN 'b/t.parquet' ON true");
    let warnings = session.session.warnings();
    assert_eq!(warnings.len(), 1);
    assert_eq!(warnings[0].identifier, "b/t.parquet");
    assert_eq!(warnings[0].reason, WarningReason::NameTaken);
    assert_eq!(warnings[0].message, "tbl_t_parquet");
}

#[test]
fn name_freed_by_a_failure_goes_to_the_next_identifier() {
    let mut session = Instance::new(Engine::Polars);
    session.begin("SELECT * FROM 'a/t.parquet' JOIN 'b/t.parquet' ON true").unwrap();
    expect_register(&session, "a/t.parquet", "tbl_t_parquet");
    assert!(session.advance(Event::RegistrationFailed("gone".to_string())));
    expect_register(&session, "b/t.parquet", "tbl_t_parquet");
    assert!(session.advance(Event::Registered));
    expect_run(&session, 0, "SELECT * FROM 'a/t.parquet' JOIN 'tbl_t_parquet' ON true");
}

#[test]
fn several_files_are_registered_in_order_of_first_reference() {
    let mut session = Instance::new(Engine::DataFusion);
    session
        .begin("SELECT * FROM 'b.parquet' JOIN 'a.parquet' ON true JOIN 'b.parquet' ON true")
        .unwrap();
    expect_register(&session, "b.parquet", "tbl_b_parquet");
    assert!(session.advance(Event::Registered));
    expect_register(&session, "a.parquet", "tbl_a_parquet");
    assert!(session.advance(Event::Registered));
    expect_run(
        &session,
        0,
        "SELECT * FROM 'tbl_b_parquet' JOIN 'tbl_a_parquet' ON true JOIN 'tbl_b_parquet' ON true",
    );
}

#[test]
fn warnings_are_those_of_the_call_under_way() {
    let mut session = Instance::new(Engine::DataFusion);
    session.begin("SELECT * FROM plain").unwrap();
    assert!(session.advance(Event::RegistrationFailed("not a file".to_string())));
    assert_eq!(session.session.warnings().len(), 1);
    expect_run(&session, 0, "SELECT * FROM plain");
    assert!(session.advance(Event::Completed));
    session.begin("SELECT 1").unwrap();
    assert!(session.session.warnings().is_empty());
}


#[test]
fn session_goes_by_what_it_is_told_of_a_statement() {
    let mut session = Engine::DuckDB.new();
    let statements = vec![
        ParsedStatement::new(
            "first".to_string(),
            vec!["x.parquet".to_string(), "plain".to_string(), "x.parquet".to_string()],
        ),
        ParsedStatement::new("second".to_string(), vec!["x.parquet".to_string()]),
    ];
    assert_eq!(session.begin(Ok(statements)).unwrap(), 2);
    match session.action() {
        Action::Register { identifier, table } => {
            assert_eq!(identifier, "x.parquet");
            assert_eq!(table, "tbl_x_parquet");
        }
        other => panic!("expected a registration, got {:?}", other),
    }
    assert!(session.advance(Event::Registered));
    assert!(matches!(session.action(), Action::Register { .. }));
    assert!(session.advance(Event::RegistrationFailed("not a file".to_string())));
    match session.action() {
        Action::Run { statement, references } => {
            assert_eq!(statement, 0);
            assert_eq!(references, vec!["tbl_x_parquet", "plain", "tbl_x_parquet"]);
        }
        other => panic!("expected a run, got {:?}", other),
    }
    assert!(session.advance(Event::Completed));
    match session.action() {
        Action::Run { statement, references } => {
            assert_eq!(statement, 1);
            assert_eq!(references, vec!["tbl_x_parquet"]);
        }
        other => panic!("expected a run, got {:?}", other),
    }
    assert_eq!(session.statement(1).unwrap().to_sql(), "second");
}

#[test]
fn parse_failure_is_handed_on() {
    let mut session = Engine::Polars.new();
    let error = ParseError { kind: ParseErrorKind::Tokenizer, detail: "bad".to_string() };
    match session.begin(Err(error)) {
        Err(ExecutionError::Parse(error)) => {
            assert_eq!(error.kind, ParseErrorKind::Tokenizer);
            assert_eq!(error.detail, "bad");
        }
        other => panic!("expected a parse error, got {:?}", other),
    }
    assert!(matches!(session.action(), Action::Finish));
}

#[test]
fn every_statement_of_a_call_runs_once_in_order() {
    let mut session = Instance::new(Engine::DataFusion);
    let query = "SELECT 0; SELECT 1 FROM 'a.parquet'; SELECT 2; SELECT 3 FROM 'a.parquet', 'b.parquet'; SELECT 4";
    assert_eq!(session.begin(query).unwrap(), 5);
    let mut run = Vec::new();
    loop {
        match session.action() {
            Action::Register { .. } => assert!(session.advance(Event::Registered)),
            Action::Run { statement, references } => {
                run.push((statement, substituted(&session.asts[statement], &references)));
                assert!(session.advance(Event::Completed));
            }
            Action::Finish => break,
            Action::Abort(error) => panic!("unexpected abort: {:?}", error),
        }
    }
    assert_eq!(
        run,
        vec![
            (0, "SELECT 0".to_string()),
            (1, "SELECT 1 FROM 'tbl_a_parquet'".to_string()),
            (2, "SELECT 2".to_string()),
            (3, "SELECT 3 FROM 'tbl_a_parquet', 'tbl_b_parquet'".to_string()),
            (4, "SELECT 4".to_string()),
        ]
    );
    assert_eq!(session.session.registry().len(), 2);
}

#[test]
fn texts_with_any_keyword_reach_the_parser() {
    let mut session = Instance::new(Engine::DataFusion);
    assert_eq!(session.begin("SELECT TOP 5 a FROM \"top\"").unwrap(), 1);
    assert_eq!(session.begin("SELECT 'stra\u{df}e' FROM 'top.parquet'").unwrap(), 1);
    expect_register(&session, "top.parquet", "tbl_top_parquet");
}
