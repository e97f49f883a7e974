//! The choice of engine, and what differs from one engine to another.

use crate::session::Session;
use vstd::prelude::*;
use vstd::string::StringExecFns;

verus! {

/// The interchangeable query engines.
#[derive(Clone, Copy, Debug, PartialEq, Eq, Structural)]
pub enum Engine {
    /// The in-process columnar engine.
    Polars,
    /// The embedded relational engine.
    DuckDB,
    /// The distributed-query-style engine.
    DataFusion,
}

/// How an engine's native result becomes the common stream of batches.
#[derive(Clone, Copy, Debug, PartialEq, Eq, Structural)]
pub enum Normalization {
    /// The engine yields a stream of batches itself.
    Native,
    /// The engine yields all batches at once; the stream replays them.
    Replay,
    /// The engine yields one frame in a foreign representation; it is
    /// encoded into a byte pipe and decoded into batches on the other side.
    Bridge,
}

/// The size in bytes of the pipe between the bridge's encoder and decoder.
pub const BRIDGE_PIPE_BYTES: usize = 1024;

/// The number of decoded batches that may wait for the consumer of a bridged
/// stream before the decoder is held back.
pub const BRIDGE_QUEUE_SLOTS: usize = 100;

/// The statement that has the embedded relational engine create `table` from
/// the file or pattern `identifier`.
pub open spec fn create_table_sql(table: Seq<char>, identifier: Seq<char>) -> Seq<char> {
    "CREATE TABLE "@ + table + " AS SELECT * FROM READ_PARQUET('"@ + identifier
        + "', union_by_name=true);"@
}

impl Engine {
    /// How the engine registers a table: the statement to issue, for the
    /// engine that registers by statement, and nothing for the engines that
    /// register through a call of their own.
    pub open spec fn registration_sql(self, table: Seq<char>, identifier: Seq<char>) -> Option<
        Seq<char>,
    > {
        match self {
            Engine::DuckDB => Some(create_table_sql(table, identifier)),
            Engine::Polars | Engine::DataFusion => None,
        }
    }

    /// A fresh instance of the engine's decisions: nothing registered, no
    /// call under way.
    pub fn new(&self) -> (session: Session)
        ensures
            session.wf(),
            session.engine_kind() == *self,
            session.tables().identifiers() == Seq::<Seq<char>>::empty(),
            session.statements().len() == 0,
            session.cursor() == 0,
            session.pending().len() == 0,
            session.warning_log().len() == 0,
            session.failure() is None,
    {
        Session::new(*self)
    }

    /// How the engine's results become the common stream.
    pub fn normalization(&self) -> (normalization: Normalization)
        ensures
            normalization == match *self {
                Engine::Polars => Normalization::Bridge,
                Engine::DuckDB => Normalization::Replay,
                Engine::DataFusion => Normalization::Native,
            },
    {
        match self {
            Engine::Polars => Normalization::Bridge,
            Engine::DuckDB => Normalization::Replay,
            Engine::DataFusion => Normalization::Native,
        }
    }

    /// The statement to issue to register `identifier` as `table`, where the
    /// engine registers by statement.
    pub fn registration_statement(&self, identifier: &str, table: &str) -> (statement: Option<
        String,
    >)
        ensures
            match statement {
                Some(sql) => self.registration_sql(table@, identifier@) == Some(sql@),
                None => self.registration_sql(table@, identifier@) is None,
            },
    {
        match self {
            Engine::DuckDB => {
                let mut sql = String::from_str("CREATE TABLE ");
                sql.append(table);
                sql.append(" AS SELECT * FROM READ_PARQUET('");
                sql.append(identifier);
                sql.append("', union_by_name=true);");
                Some(sql)
            },
            Engine::Polars | Engine::DataFusion => None,
        }
    }
}

impl Default for Engine {
    /// The engine used where none is chosen.
    fn default() -> (engine: Engine)
        ensures
            engine == Engine::DataFusion,
    {
        Engine::DataFusion
    }
}

} // verus!
