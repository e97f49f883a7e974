//! One engine instance's side of executing SQL text: the decisions.
//!
//! A [`Session`] owns the table registry of an engine instance and the
//! progress of the call under way. It touches neither the parser nor the
//! engine. It is told what the parser made of the text ([`Session::begin`]),
//! says what the engine has to do next ([`Session::action`]), and is told how
//! that went ([`Session::advance`]). Statements are worked through strictly in
//! the order of the text; the first statement that the engine fails ends the
//! call.

use crate::engine::Engine;
use crate::naming::{derive_table_from_fs_name, derived_name};
use crate::registry::{lemma_commit_registers, ResolutionStatus, TableRegistry};
use crate::rewrite::{
    lemma_unresolved_distinct, lemma_unresolved_members, pending_registrations, unresolved,
};
use crate::sql::{rewritten_heads, texts, ParseError, ParseErrorKind, ParsedStatement};
use vstd::prelude::*;

verus! {

/// Why an identifier was not registered.
#[derive(Clone, Copy, Debug, PartialEq, Eq, Structural)]
pub enum WarningReason {
    /// The engine could not open or register the identifier.
    RegistrationFailed,
    /// Another identifier already holds the logical name derived from this
    /// one, so the engine was not asked.
    NameTaken,
}

/// A table reference that could not be registered. It is not fatal: the
/// reference stays in the statement as it was written.
#[derive(Debug)]
pub struct RegistrationWarning {
    pub identifier: String,
    pub reason: WarningReason,
    /// The engine's message for a failed registration; the contested name for
    /// a taken one.
    pub message: String,
}

/// The mathematical value of a [`RegistrationWarning`].
pub struct WarningModel {
    pub identifier: Seq<char>,
    pub reason: WarningReason,
    pub message: Seq<char>,
}

impl View for RegistrationWarning {
    type V = WarningModel;

    open spec fn view(&self) -> WarningModel {
        WarningModel { identifier: self.identifier@, reason: self.reason, message: self.message@ }
    }
}

/// What ends a call without a result.
#[derive(Debug)]
pub enum ExecutionError {
    /// The text is not SQL; nothing was registered or executed.
    Parse(ParseError),
    /// The engine failed the statement at the given place in the text; the
    /// statements after it were not executed.
    Execute { statement: usize, message: String },
}

/// The mathematical value of an [`ExecutionError`].
pub enum ExecutionErrorModel {
    Parse { kind: ParseErrorKind, detail: Seq<char> },
    Execute { statement: nat, message: Seq<char> },
}

impl View for ExecutionError {
    type V = ExecutionErrorModel;

    open spec fn view(&self) -> ExecutionErrorModel {
        match self {
            ExecutionError::Parse(error) => ExecutionErrorModel::Parse {
                kind: error.kind,
                detail: error.detail@,
            },
            ExecutionError::Execute { statement, message } => ExecutionErrorModel::Execute {
                statement: *statement as nat,
                message: message@,
            },
        }
    }
}

/// What the engine has to do next.
#[derive(Debug)]
pub enum Action {
    /// Register the file or pattern `identifier` as the table `table`.
    Register { identifier: String, table: String },
    /// Execute the statement at place `statement` with `references` in the
    /// place of its table references, one for one, and keep its result with
    /// that statement.
    Run { statement: usize, references: Vec<String> },
    /// Every statement has been executed: the call is over.
    Finish,
    /// The call has failed: no further statement is executed.
    Abort(ExecutionError),
}

/// The mathematical value of an [`Action`].
pub enum ActionModel {
    Register { identifier: Seq<char>, table: Seq<char> },
    Run { statement: nat, references: Seq<Seq<char>> },
    Finish,
    Abort(ExecutionErrorModel),
}

impl View for Action {
    type V = ActionModel;

    open spec fn view(&self) -> ActionModel {
        match self {
            Action::Register { identifier, table } => ActionModel::Register {
                identifier: identifier@,
                table: table@,
            },
            Action::Run { statement, references } => ActionModel::Run {
                statement: *statement as nat,
                references: texts(references@),
            },
            Action::Finish => ActionModel::Finish,
            Action::Abort(error) => ActionModel::Abort(error@),
        }
    }
}

/// How the engine fared with the last action.
#[derive(Debug)]
pub enum Event {
    /// The identifier is registered under the table name asked for.
    Registered,
    /// The identifier could not be registered; the engine's message.
    RegistrationFailed(String),
    /// The statement was executed and its result taken.
    Completed,
    /// The engine failed the statement; its message.
    Failed(String),
}

/// The warning for an identifier whose derived name another identifier holds.
pub open spec fn name_taken_warning(identifier: Seq<char>) -> WarningModel {
    WarningModel {
        identifier,
        reason: WarningReason::NameTaken,
        message: derived_name(identifier),
    }
}

/// The warning for an identifier that the engine could not register.
pub open spec fn failed_warning(identifier: Seq<char>, message: Seq<char>) -> WarningModel {
    WarningModel { identifier, reason: WarningReason::RegistrationFailed, message }
}

/// The pending identifiers and the warnings once every identifier at the
/// front that the engine cannot be asked about has been passed over: one
/// whose name is taken leaves a warning, one that is registered leaves none.
pub open spec fn settled(
    tables: TableRegistry,
    pending: Seq<Seq<char>>,
    warnings: Seq<WarningModel>,
) -> (Seq<Seq<char>>, Seq<WarningModel>)
    decreases pending.len(),
{
    if pending.len() == 0 {
        (pending, warnings)
    } else {
        match tables.status(pending[0]) {
            ResolutionStatus::NeedsRegistration => (pending, warnings),
            ResolutionStatus::Collides => settled(
                tables,
                pending.skip(1),
                warnings.push(name_taken_warning(pending[0])),
            ),
            ResolutionStatus::Cached => settled(tables, pending.skip(1), warnings),
        }
    }
}

/// The state of one engine instance, as far as decisions go.
#[derive(Debug)]
pub struct Session {
    engine: Engine,
    registry: TableRegistry,
    statements: Vec<ParsedStatement>,
    cursor: usize,
    candidates: Vec<String>,
    next: usize,
    warnings: Vec<RegistrationWarning>,
    failure: Option<String>,
}

impl Session {
    /// The engine this session decides for.
    pub closed spec fn engine_kind(&self) -> Engine {
        self.engine
    }

    /// The table registry of the instance.
    pub closed spec fn tables(&self) -> TableRegistry {
        self.registry
    }

    /// The statements of the call under way, in the order of the text.
    pub closed spec fn statements(&self) -> Seq<ParsedStatement> {
        self.statements@
    }

    /// How many statements of the call have been executed. The statement at
    /// this place, if there is one, is the one under work.
    pub closed spec fn cursor(&self) -> nat {
        self.cursor as nat
    }

    /// The identifiers of the statement under work that are still to be
    /// offered to the engine, the next one first.
    pub closed spec fn pending(&self) -> Seq<Seq<char>> {
        texts(self.candidates@).skip(self.next as int)
    }

    /// The warnings of the call under way, oldest first.
    pub closed spec fn warning_log(&self) -> Seq<WarningModel> {
        Seq::new(self.warnings@.len(), |i: int| self.warnings@[i]@)
    }

    /// The engine's message, where it has failed the statement under work.
    pub closed spec fn failure(&self) -> Option<Seq<char>> {
        match self.failure {
            Some(message) => Some(message@),
            None => None,
        }
    }

    /// Whether every pending identifier is a table reference of the
    /// statement under work.
    pub closed spec fn pending_referenced(&self) -> bool {
        forall|i: int|
            0 <= i < self.pending().len() ==> self.statements@[self.cursor as int].relations().contains(
                #[trigger] self.pending()[i],
            )
    }

    /// The invariant of a session.
    pub closed spec fn wf(&self) -> bool {
        &&& self.registry.wf()
        &&& self.pending_referenced()
        &&& self.cursor <= self.statements@.len()
        &&& self.next <= self.candidates@.len()
        &&& self.pending().no_duplicates()
        &&& self.pending().len() > 0 ==> self.cursor < self.statements@.len()
        &&& self.pending().len() > 0 ==> self.registry.status(self.pending()[0])
            == ResolutionStatus::NeedsRegistration
        &&& self.failure is Some ==> self.cursor < self.statements@.len()
    }

    /// The table references to run the statement under work with: every
    /// registered reference rewritten to its logical table name, every other
    /// as it was written.
    pub open spec fn rewritten_references(&self) -> Seq<Seq<char>> {
        rewritten_heads(self.tables()@, self.statements()[self.cursor() as int].relations())
    }

    /// What the engine has to do next.
    pub open spec fn current_action(&self) -> ActionModel {
        if self.failure() is Some {
            ActionModel::Abort(
                ExecutionErrorModel::Execute {
                    statement: self.cursor(),
                    message: self.failure()->0,
                },
            )
        } else if self.cursor() >= self.statements().len() {
            ActionModel::Finish
        } else if self.pending().len() > 0 {
            ActionModel::Register {
                identifier: self.pending()[0],
                table: derived_name(self.pending()[0]),
            }
        } else {
            ActionModel::Run {
                statement: self.cursor(),
                references: self.rewritten_references(),
            }
        }
    }

    /// Whether `event` answers the current action: a registration outcome
    /// answers `Register`, an execution outcome answers `Run`, and nothing
    /// answers `Finish` or `Abort`.
    pub open spec fn accepts(&self, event: Event) -> bool {
        match event {
            Event::Registered | Event::RegistrationFailed(_) => self.current_action() is Register,
            Event::Completed | Event::Failed(_) => self.current_action() is Run,
        }
    }

    /// The identifiers to offer, and the warnings, when the statement at
    /// place `at` comes under work with `warnings` so far.
    pub open spec fn opening(&self, at: nat, warnings: Seq<WarningModel>) -> (
        Seq<Seq<char>>,
        Seq<WarningModel>,
    ) {
        if at < self.statements().len() {
            settled(
                self.tables(),
                unresolved(self.tables()@, self.statements()[at as int].relations()),
                warnings,
            )
        } else {
            (Seq::empty(), warnings)
        }
    }

    /// Whether this session is what `before` becomes on the accepted event
    /// `event`.
    pub open spec fn follows(&self, before: &Session, event: Event) -> bool {
        match event {
            Event::Registered => {
                &&& self.tables().identifiers() == before.tables().identifiers().push(
                    before.pending()[0],
                )
                &&& self.cursor() == before.cursor()
                &&& self.failure() == before.failure()
                &&& (self.pending(), self.warning_log()) == settled(
                    self.tables(),
                    before.pending().skip(1),
                    before.warning_log(),
                )
            },
            Event::RegistrationFailed(message) => {
                &&& self.tables().identifiers() == before.tables().identifiers()
                &&& self.cursor() == before.cursor()
                &&& self.failure() == before.failure()
                &&& (self.pending(), self.warning_log()) == settled(
                    self.tables(),
                    before.pending().skip(1),
                    before.warning_log().push(failed_warning(before.pending()[0], message@)),
                )
            },
            Event::Completed => {
                &&& self.tables().identifiers() == before.tables().identifiers()
                &&& self.cursor() == before.cursor() + 1
                &&& self.failure() == before.failure()
                &&& (self.pending(), self.warning_log()) == self.opening(
                    self.cursor(),
                    before.warning_log(),
                )
            },
            Event::Failed(message) => {
                &&& self.tables().identifiers() == before.tables().identifiers()
                &&& self.cursor() == before.cursor()
                &&& self.failure() == Some(message@)
                &&& self.pending() == before.pending()
                &&& self.warning_log() == before.warning_log()
            },
        }
    }

    /// A session for `engine` with nothing registered and no call under way.
    pub fn new(engine: Engine) -> (session: Session)
        ensures
            session.wf(),
            session.engine_kind() == engine,
            session.tables().identifiers() == Seq::<Seq<char>>::empty(),
            session.statements() == Seq::<ParsedStatement>::empty(),
            session.cursor() == 0,
            session.pending() == Seq::<Seq<char>>::empty(),
            session.warning_log() == Seq::<WarningModel>::empty(),
            session.failure() is None,
    {
        let session = Session {
            engine,
            registry: TableRegistry::new(),
            statements: Vec::new(),
            cursor: 0,
            candidates: Vec::new(),
            next: 0,
            warnings: Vec::new(),
            failure: None,
        };
        assert(session.pending() =~= Seq::empty());
        assert(session.warning_log() =~= Seq::empty());
        session
    }

    /// The engine this session decides for.
    pub fn engine(&self) -> (engine: Engine)
        ensures
            engine == self.engine_kind(),
    {
        self.engine
    }

    /// The table registry of the instance.
    pub fn registry(&self) -> (registry: &TableRegistry)
        ensures
            *registry == self.tables(),
    {
        &self.registry
    }

    /// The number of statements of the call under way.
    pub fn statement_count(&self) -> (count: usize)
        ensures
            count == self.statements().len(),
    {
        self.statements.len()
    }

    /// The statement at place `index`, as it was written.
    pub fn statement(&self, index: usize) -> (statement: Option<&ParsedStatement>)
        ensures
            match statement {
                Some(found) => index < self.statements().len() && *found
                    == self.statements()[index as int],
                None => index >= self.statements().len(),
            },
    {
        if index < self.statements.len() {
            Some(&self.statements[index])
        } else {
            None
        }
    }

    /// The warnings of the call under way, oldest first.
    pub fn warnings(&self) -> (warnings: &Vec<RegistrationWarning>)
        ensures
            warnings@.len() == self.warning_log().len(),
            forall|i: int| 0 <= i < warnings@.len() ==> warnings@[i]@ == self.warning_log()[i],
    {
        &self.warnings
    }

    /// Starts a call on what the parser made of its text.
    ///
    /// A text that failed to parse fails the call with `Parse` and leaves the
    /// session as it was. Otherwise `parsed` holds the statements of the text
    /// in order; they replace those of the call before, none of them executed
    /// yet, and the registry stays as it is; the result is the number of
    /// statements.
    pub fn begin(&mut self, parsed: Result<Vec<ParsedStatement>, ParseError>) -> (result: Result<
        usize,
        ExecutionError,
    >)
        requires
            old(self).wf(),
        ensures
            final(self).wf(),
            final(self).engine_kind() == old(self).engine_kind(),
            final(self).tables() == old(self).tables(),
            match parsed {
                Ok(statements) => {
                    &&& result == Ok::<usize, ExecutionError>(statements.len())
                    &&& final(self).statements() == statements@
                    &&& final(self).cursor() == 0
                    &&& final(self).failure() is None
                    &&& (final(self).pending(), final(self).warning_log()) == final(self).opening(
                        0,
                        Seq::empty(),
                    )
                },
                Err(error) => {
                    &&& result == Err::<usize, ExecutionError>(ExecutionError::Parse(error))
                    &&& *final(self) == *old(self)
                },
            },
    {
        match parsed {
            Ok(statements) => {
                let count = statements.len();
                self.statements = statements;
                self.cursor = 0;
                self.failure = None;
                self.warnings = Vec::new();
                assert(self.warning_log() =~= Seq::empty());
                self.open_statement();
                Ok(count)
            },
            Err(error) => Err(ExecutionError::Parse(error)),
        }
    }

    /// What the engine has to do next.
    pub fn action(&self) -> (action: Action)
        requires
            self.wf(),
        ensures
            action@ == self.current_action(),
    {
        match &self.failure {
            Some(message) => {
                return Action::Abort(
                    ExecutionError::Execute { statement: self.cursor, message: message.clone() },
                );
            },
            None => {},
        }
        if self.cursor >= self.statements.len() {
            Action::Finish
        } else if self.next < self.candidates.len() {
            let identifier = self.candidates[self.next].clone();
            let table = derive_table_from_fs_name(identifier.as_str());
            Action::Register { identifier, table }
        } else {
            let references = self.statements[self.cursor].rewritten_references(&self.registry);
            Action::Run { statement: self.cursor, references }
        }
    }

    /// Tells the session how the engine fared with the current action.
    ///
    /// An event that does not answer the current action is refused, and the
    /// session stays as it was. On `Registered` the identifier enters the
    /// registry; on `RegistrationFailed` it leaves a warning and stays out.
    /// Either way the next identifier that the engine can be asked about
    /// comes up. On `Completed` the next statement comes under work. On
    /// `Failed` the call is over: every later action is `Abort`.
    pub fn advance(&mut self, event: Event) -> (accepted: bool)
        requires
            old(self).wf(),
        ensures
            final(self).wf(),
            accepted == old(self).accepts(event),
            final(self).engine_kind() == old(self).engine_kind(),
            final(self).statements() == old(self).statements(),
            final(self).tables().extends(&old(self).tables()),
            accepted ==> final(self).follows(old(self), event),
            !accepted ==> *final(self) == *old(self),
    {
        if self.failure.is_some() || self.cursor >= self.statements.len() {
            return false;
        }
        let registering = self.next < self.candidates.len();
        match event {
            Event::Registered => {
                if !registering {
                    return false;
                }
                let added = self.registry.commit(self.candidates[self.next].as_str());
                assert(added);
                self.pass_candidate();
                self.settle();
                true
            },
            Event::RegistrationFailed(message) => {
                if !registering {
                    return false;
                }
                let ghost log = self.warning_log();
                let identifier = self.candidates[self.next].clone();
                self.warnings.push(
                    RegistrationWarning {
                        identifier,
                        reason: WarningReason::RegistrationFailed,
                        message,
                    },
                );
                assert(self.warning_log() =~= log.push(
                    failed_warning(self.pending()[0], message@),
                ));
                self.pass_candidate();
                self.settle();
                true
            },
            Event::Completed => {
                if registering {
                    return false;
                }
                self.cursor = self.cursor + 1;
                self.open_statement();
                true
            },
            Event::Failed(message) => {
                if registering {
                    return false;
                }
                self.failure = Some(message);
                true
            },
        }
    }

    /// Moves past the identifier at the front of the pending ones.
    fn pass_candidate(&mut self)
        requires
            old(self).next < old(self).candidates.len(),
            old(self).pending().no_duplicates(),
            old(self).pending_referenced(),
        ensures
            final(self).pending() == old(self).pending().skip(1),
            final(self).pending().no_duplicates(),
            final(self).pending_referenced(),
            final(self).next == old(self).next + 1,
            final(self).candidates == old(self).candidates,
            final(self).engine == old(self).engine,
            final(self).registry == old(self).registry,
            final(self).statements == old(self).statements,
            final(self).cursor == old(self).cursor,
            final(self).warnings == old(self).warnings,
            final(self).failure == old(self).failure,
    {
        self.next = self.next + 1;
        assert(self.pending() =~= old(self).pending().skip(1));
        assert forall|i: int| 0 <= i < self.pending().len() implies self.statements@[self.cursor as int].relations().contains(
            #[trigger] self.pending()[i],
        ) by {
            assert(self.pending()[i] == old(self).pending()[i + 1]);
        }
    }

    /// Takes the statement at the cursor under work: its unregistered
    /// references become the pending identifiers.
    fn open_statement(&mut self)
        requires
            old(self).registry.wf(),
            old(self).cursor <= old(self).statements@.len(),
            old(self).failure is None,
        ensures
            final(self).wf(),
            (final(self).pending(), final(self).warning_log()) == old(self).opening(
                old(self).cursor(),
                old(self).warning_log(),
            ),
            final(self).engine == old(self).engine,
            final(self).registry == old(self).registry,
            final(self).statements == old(self).statements,
            final(self).cursor == old(self).cursor,
            final(self).failure == old(self).failure,
    {
        if self.cursor < self.statements.len() {
            let heads = self.statements[self.cursor].relation_heads();
            self.candidates = pending_registrations(&self.registry, heads);
            self.next = 0;
            proof {
                lemma_unresolved_distinct(self.registry@, texts(heads@));
                assert(self.pending() =~= texts(self.candidates@));
                assert forall|i: int| 0 <= i < self.pending().len() implies texts(heads@).contains(
                    #[trigger] self.pending()[i],
                ) by {
                    lemma_unresolved_members(self.registry@, texts(heads@), self.pending()[i]);
                }
            }
            self.settle();
        } else {
            self.candidates = Vec::new();
            self.next = 0;
            assert(self.pending() =~= Seq::empty());
        }
    }

    /// Passes over the identifiers at the front that the engine cannot be
    /// asked about, leaving a warning for each whose name is taken.
    fn settle(&mut self)
        requires
            old(self).registry.wf(),
            old(self).cursor < old(self).statements@.len(),
            old(self).next <= old(self).candidates@.len(),
            old(self).pending().no_duplicates(),
            old(self).pending_referenced(),
            old(self).failure is None,
        ensures
            final(self).wf(),
            (final(self).pending(), final(self).warning_log()) == settled(
                old(self).registry,
                old(self).pending(),
                old(self).warning_log(),
            ),
            final(self).engine == old(self).engine,
            final(self).registry == old(self).registry,
            final(self).statements == old(self).statements,
            final(self).cursor == old(self).cursor,
            final(self).failure == old(self).failure,
        decreases old(self).candidates@.len() - old(self).next,
    {
        if self.next < self.candidates.len() {
            assert(self.pending()[0] == self.candidates@[self.next as int]@);
            let resolution = self.registry.resolve(self.candidates[self.next].as_str());
            match resolution.status {
                ResolutionStatus::NeedsRegistration => {},
                ResolutionStatus::Collides => {
                    let ghost log = self.warning_log();
                    let identifier = self.candidates[self.next].clone();
                    self.warnings.push(
                        RegistrationWarning {
                            identifier,
                            reason: WarningReason::NameTaken,
                            message: resolution.name,
                        },
                    );
                    assert(self.warning_log() =~= log.push(
                        name_taken_warning(self.pending()[0]),
                    ));
                    self.pass_candidate();
                    self.settle();
                },
                ResolutionStatus::Cached => {
                    self.pass_candidate();
                    self.settle();
                },
            }
        }
    }
}

/// The engine is asked to register an identifier only while the registry
/// does not hold it and its name is free: what is registered is never
/// offered again.
pub proof fn lemma_register_only_what_is_new(session: Session)
    requires
        session.wf(),
        session.current_action() is Register,
    ensures
        session.current_action()->identifier == session.pending()[0],
        session.current_action()->table == derived_name(session.pending()[0]),
        session.tables().status(session.pending()[0]) == ResolutionStatus::NeedsRegistration,
        !session.tables()@.contains_key(session.pending()[0]),
        session.statements()[session.cursor() as int].relations().contains(session.pending()[0]),
{
}

/// Every identifier still to be offered to the engine is a table reference
/// of the statement under work: the engine is asked to register nothing that
/// the statement does not refer to.
pub proof fn lemma_pending_are_references(session: Session, i: int)
    requires
        session.wf(),
        0 <= i < session.pending().len(),
    ensures
        session.cursor() < session.statements().len(),
        session.statements()[session.cursor() as int].relations().contains(session.pending()[i]),
{
}

/// Within one statement no identifier is offered to the engine twice.
pub proof fn lemma_pending_is_distinct(session: Session)
    requires
        session.wf(),
    ensures
        session.pending().no_duplicates(),
        session.tables().wf(),
        session.cursor() <= session.statements().len(),
{
}

/// Statements are executed in the order of the text, one at a time: the
/// statement to run is the one after those completed, and completing it
/// brings up the next or ends the call.
pub proof fn lemma_statements_run_in_order(before: Session, after: Session)
    requires
        before.wf(),
        after.wf(),
        before.current_action() is Run,
        after.statements() == before.statements(),
        after.follows(&before, Event::Completed),
    ensures
        before.current_action()->Run_statement == before.cursor(),
        before.cursor() < before.statements().len(),
        after.cursor() == before.cursor() + 1,
        after.current_action() is Run ==> after.current_action()->Run_statement
            == before.current_action()->Run_statement + 1,
        after.current_action() is Finish <==> after.cursor() == after.statements().len(),
        !(after.current_action() is Abort),
{
}

/// Once the engine has failed a statement the call is over: the action is
/// `Abort` with that statement's place and the engine's message, and no event
/// is accepted.
pub proof fn lemma_failure_ends_the_call(session: Session, event: Event)
    requires
        session.failure() is Some,
    ensures
        session.current_action() == ActionModel::Abort(
            ExecutionErrorModel::Execute {
                statement: session.cursor(),
                message: session.failure()->0,
            },
        ),
        !session.accepts(event),
{
}

/// A registration that fails leaves the registry as it was, so the reference
/// stays unregistered and is not rewritten.
pub proof fn lemma_failed_registration_registers_nothing(
    before: Session,
    after: Session,
    message: String,
)
    requires
        before.wf(),
        after.wf(),
        before.current_action() is Register,
        after.follows(&before, Event::RegistrationFailed(message)),
    ensures
        after.tables()@ == before.tables()@,
        !after.tables()@.contains_key(before.pending()[0]),
        rewritten_heads(after.tables()@, seq![before.pending()[0]]) == seq![before.pending()[0]],
{
    assert(after.tables()@ =~= before.tables()@);
    assert(rewritten_heads(after.tables()@, seq![before.pending()[0]]) =~= seq![
        before.pending()[0],
    ]);
}

/// A registration that succeeds adds the identifier to the registry and
/// nothing else, so the reference is rewritten to its derived name from then
/// on.
pub proof fn lemma_registration_registers(before: Session, after: Session)
    requires
        before.wf(),
        after.wf(),
        before.current_action() is Register,
        after.follows(&before, Event::Registered),
    ensures
        after.tables()@ == before.tables()@.insert(
            before.pending()[0],
            derived_name(before.pending()[0]),
        ),
        after.tables().status(before.pending()[0]) == ResolutionStatus::Cached,
{
    let identifier = before.pending()[0];
    lemma_commit_registers(before.tables(), after.tables(), identifier);
    let grown = after.tables().identifiers();
    let held = before.tables().identifiers();
    assert forall|k: Seq<char>| grown.contains(k) <==> held.contains(k) || k == identifier by {
        if held.contains(k) {
            let i = choose|i: int| 0 <= i < held.len() && held[i] == k;
            assert(grown[i] == k);
        }
        if k == identifier {
            assert(grown[grown.len() - 1] == k);
        }
    }
    assert(after.tables()@ =~= before.tables()@.insert(identifier, derived_name(identifier)));
}

/// A statement none of whose table references is registered is run as it
/// was written: where every registration has failed, the engine is handed
/// the statement's own references.
pub proof fn lemma_unregistered_statement_runs_as_written(session: Session)
    requires
        session.cursor() < session.statements().len(),
        forall|i: int|
            0 <= i < session.statements()[session.cursor() as int].relations().len()
                ==> !session.tables()@.contains_key(
                #[trigger] session.statements()[session.cursor() as int].relations()[i],
            ),
    ensures
        session.rewritten_references() == session.statements()[session.cursor() as int].relations(),
{
    let heads = session.statements()[session.cursor() as int].relations();
    assert(rewritten_heads(session.tables()@, heads) =~= heads);
}

/// How many of `events` say that a statement was executed.
pub open spec fn completions(events: Seq<Event>) -> nat
    decreases events.len(),
{
    if events.len() == 0 {
        0
    } else {
        completions(events.drop_last()) + if events.last() is Completed {
            1nat
        } else {
            0nat
        }
    }
}

/// Whether `states` and `events` are a call in which the engine fails no
/// statement: the first state is one in which no statement has been executed
/// and none has failed, each event answers the action of the state it meets,
/// and each state but the first is what the state before becomes on its
/// event, with the statements unchanged.
pub open spec fn is_unfailing_call(states: Seq<Session>, events: Seq<Event>) -> bool {
    &&& states.len() == events.len() + 1
    &&& states[0].cursor() == 0
    &&& states[0].failure() is None
    &&& forall|k: int| 0 <= k < states.len() ==> (#[trigger] states[k]).wf()
    &&& forall|k: int|
        0 <= k < events.len() ==> {
            &&& !(#[trigger] events[k] is Failed)
            &&& states[k].accepts(events[k])
            &&& states[k + 1].follows(&states[k], events[k])
            &&& states[k + 1].statements() == states[k].statements()
        }
}

/// Over a whole call in which the engine fails no statement, the statements
/// are executed in the order of the text, each once: at every point of the
/// call the statement to run is the one after those executed so far, so the
/// first result is the first statement's, the second the second's, and so
/// on; and the call is over exactly when as many statements have been
/// executed as the text holds.
pub proof fn lemma_call_runs_statements_in_order(states: Seq<Session>, events: Seq<Event>, k: int)
    requires
        is_unfailing_call(states, events),
        0 <= k <= events.len(),
    ensures
        states[k].statements() == states[0].statements(),
        states[k].failure() is None,
        states[k].cursor() == completions(events.take(k)),
        completions(events.take(k)) <= states[0].statements().len(),
        states[k].current_action() is Run ==> states[k].current_action()->Run_statement
            == completions(events.take(k)),
        states[k].current_action() is Finish <==> completions(events.take(k))
            == states[0].statements().len(),
        !(states[k].current_action() is Abort),
        k < events.len() && events[k] is Completed ==> states[k].current_action() is Run
            && completions(events.take(k + 1)) == completions(events.take(k)) + 1,
    decreases k,
{
    assert(states[k].wf());
    if k == 0 {
        assert(events.take(0) =~= Seq::<Event>::empty());
    } else {
        lemma_call_runs_statements_in_order(states, events, k - 1);
        assert(events.take(k).drop_last() =~= events.take(k - 1));
        assert(events.take(k).last() == events[k - 1]);
        assert(states[k - 1].accepts(events[k - 1]));
        assert(states[k].follows(&states[k - 1], events[k - 1]));
    }
    if k < events.len() {
        assert(events.take(k + 1).drop_last() =~= events.take(k));
        assert(events.take(k + 1).last() == events[k]);
        assert(states[k].accepts(events[k]));
    }
}

} // verus!
