use callisto_engines::engine::{Engine, Normalization, BRIDGE_PIPE_BYTES, BRIDGE_QUEUE_SLOTS};

#[test]
fn default_engine() {
    assert_eq!(Engine::default(), Engine::DataFusion);
}

#[test]
fn each_engine_starts_its_own_session() {
    assert_eq!(Engine::Polars.new().engine(), Engine::Polars);
    assert_eq!(Engine::DuckDB.new().engine(), Engine::DuckDB);
    assert_eq!(Engine::DataFusion.new().engine(), Engine::DataFusion);
}

#[test]
fn normalization_per_engine() {
    assert_eq!(Engine::Polars.normalization(), Normalization::Bridge);
    assert_eq!(Engine::DuckDB.normalization(), Normalization::Replay);
    assert_eq!(Engine::DataFusion.normalization(), Normalization::Native);
}

#[test]
fn bridge_sizes() {
    assert_eq!(BRIDGE_PIPE_BYTES, 1024);
    assert_eq!(BRIDGE_QUEUE_SLOTS, 100);
}

#[test]
fn relational_engine_registers_by_statement() {
    assert_eq!(
        Engine::DuckDB.registration_statement("data/events.parquet", "tbl_events_parquet"),
        Some(
            "CREATE TABLE tbl_events_parquet AS SELECT * FROM READ_PARQUET('data/events.parquet', union_by_name=true);"
                .to_string()
        )
    );
}

#[test]
fn other_engines_register_by_call() {
    assert_eq!(Engine::Polars.registration_statement("a.parquet", "tbl_a_parquet"), None);
    assert_eq!(Engine::DataFusion.registration_statement("a.parquet", "tbl_a_parquet"), None);
}
