//! The database: how often to try to connect, and how migrations are split
//! into statements and applied once.

use vstd::prelude::*;
use crate::protocol::{Answer, Inquiry, Query};
use crate::text::{
    texts_of, blank, chars_of, split_on, split_text, starts_with, string_of, trim, trimmed,
    views_of,
};

verus! {

// ---------------------------------------------------------------------------
// Connecting
// ---------------------------------------------------------------------------

/// Most connections that the pool holds.
pub const MAX_CONNECTIONS: u32 = 10;

/// Fewest connections that the pool holds.
pub const MIN_CONNECTIONS: u32 = 1;

/// Seconds to wait for a connection from the pool.
pub const ACQUIRE_TIMEOUT_SECONDS: u64 = 10;

/// Seconds after which an idle connection is closed.
pub const IDLE_TIMEOUT_SECONDS: u64 = 600;

/// Attempts to connect at startup before giving up.
pub const MAX_CONNECT_ATTEMPTS: u32 = 5;

/// What to do after an attempt to connect.
#[derive(Debug, Clone, Copy, PartialEq, Eq, Structural)]
pub enum ConnectStep {
    /// The pool is there.
    Ready,
    /// Wait this many seconds, then try again.
    RetryAfter { seconds: u64 },
    /// Give up with the last failure.
    GiveUp,
}

/// What to do after the attempt with the given number, counted from one,
/// succeeded or failed: after a failure the wait grows by two seconds with
/// every attempt, and the fifth failure is the last.
pub open spec fn connect_step(attempt: u32, connected: bool) -> ConnectStep {
    if connected {
        ConnectStep::Ready
    } else if attempt >= MAX_CONNECT_ATTEMPTS {
        ConnectStep::GiveUp
    } else {
        ConnectStep::RetryAfter { seconds: (attempt * 2) as u64 }
    }
}

/// What to do after an attempt to connect.
pub fn create_pool(attempt: u32, connected: bool) -> (step: ConnectStep)
    ensures
        step == connect_step(attempt, connected),
{
    if connected {
        ConnectStep::Ready
    } else if attempt >= MAX_CONNECT_ATTEMPTS {
        ConnectStep::GiveUp
    } else {
        ConnectStep::RetryAfter { seconds: (attempt as u64) * 2 }
    }
}

// ---------------------------------------------------------------------------
// Statements
// ---------------------------------------------------------------------------

/// A line says something where it is neither blank nor a comment.
pub open spec fn line_has_content(line: Seq<char>) -> bool {
    trimmed(line).len() > 0 && !"--"@.is_prefix_of(trimmed(line))
}

/// A text has SQL in it where one of its lines is neither blank nor a
/// comment.
pub open spec fn has_content(s: Seq<char>) -> bool {
    exists|i: int|
        0 <= i < split_text(s, '\n').len() && line_has_content(#[trigger] split_text(s, '\n')[i])
}

/// Whether a text has SQL in it and not just comments.
pub fn has_sql_content(s: &str) -> (r: bool)
    ensures
        r == has_content(s@),
{
    let text = chars_of(s);
    chars_have_content(text.as_slice())
}

fn chars_have_content(text: &[char]) -> (r: bool)
    ensures
        r == has_content(text@),
{
    let lines = split_on(text, '\n');
    let comment = chars_of("--");
    let mut i: usize = 0;
    while i < lines.len()
        invariant
            i <= lines.len(),
            views_of(lines@) == split_text(text@, '\n'),
            comment@ == "--"@,
            forall|k: int| 0 <= k < i ==> !line_has_content(#[trigger] split_text(text@, '\n')[k]),
        decreases lines.len() - i,
    {
        let line = trim(lines[i].as_slice());
        proof {
            assert(views_of(lines@)[i as int] == lines@[i as int]@);
        }
        if line.len() > 0 && !starts_with(line.as_slice(), comment.as_slice()) {
            return true;
        }
        i = i + 1;
    }
    false
}

/// The statement that ends at a semicolon, where it has SQL in it.
pub open spec fn finished(current: Seq<char>) -> Seq<Seq<char>> {
    if has_content(current) {
        seq![current]
    } else {
        Seq::empty()
    }
}

/// The statements of a text from position `at` on, where `current` was read
/// of the statement at hand and `in_block` tells whether the position lies
/// within a block between two `$$`.
///
/// Two dollar signs in a row open or close a block. A semicolon outside a
/// block ends a statement, which keeps the semicolon. What is left at the
/// end is a statement too. Only statements with SQL in them count.
pub open spec fn statements_from(s: Seq<char>, at: int, in_block: bool, current: Seq<char>) -> Seq<
    Seq<char>,
>
    decreases s.len() - at,
{
    if at < 0 || at >= s.len() {
        finished(current)
    } else if s[at] == '$' && at + 1 < s.len() && s[at + 1] == '$' {
        statements_from(s, at + 2, !in_block, current.push('$').push('$'))
    } else if s[at] == ';' && !in_block {
        finished(current.push(';')) + statements_from(s, at + 1, in_block, Seq::empty())
    } else {
        statements_from(s, at + 1, in_block, current.push(s[at]))
    }
}

/// The statements of a text.
pub open spec fn sql_statements(s: Seq<char>) -> Seq<Seq<char>> {
    statements_from(s, 0, false, Seq::empty())
}

/// The statements of a text of SQL, split at the semicolons that lie outside
/// blocks between `$$`.
pub fn split_sql_statements(sql: &str) -> (statements: Vec<String>)
    ensures
        texts_of(statements@) == sql_statements(sql@),
{
    let s = chars_of(sql);
    let mut statements: Vec<String> = Vec::new();
    let mut current: Vec<char> = Vec::new();
    let mut in_block = false;
    let mut i: usize = 0;
    proof {
        assert(texts_of(statements@) =~= Seq::<Seq<char>>::empty());
        assert(current@ =~= Seq::<char>::empty());
        assert(texts_of(statements@) + statements_from(s@, 0, false, current@) =~= sql_statements(
            sql@,
        ));
    }
    while i < s.len()
        invariant
            i <= s.len(),
            s@ == sql@,
            sql_statements(sql@) == texts_of(statements@) + statements_from(
                s@,
                i as int,
                in_block,
                current@,
            ),
        decreases s.len() - i,
    {
        let c = s[i];
        if c == '$' && i + 1 < s.len() && s[i + 1] == '$' {
            current.push('$');
            current.push('$');
            in_block = !in_block;
            i = i + 2;
        } else if c == ';' && !in_block {
            current.push(';');
            let ghost before = texts_of(statements@);
            if chars_have_content(current.as_slice()) {
                statements.push(string_of(current.as_slice()));
                proof {
                    assert(texts_of(statements@) =~= before + finished(current@));
                }
            } else {
                proof {
                    assert(texts_of(statements@) =~= before + finished(current@));
                }
            }
            proof {
                assert(before + (finished(current@) + statements_from(
                    s@,
                    i + 1,
                    in_block,
                    Seq::empty(),
                )) =~= (before + finished(current@)) + statements_from(
                    s@,
                    i + 1,
                    in_block,
                    Seq::empty(),
                ));
            }
            current = Vec::new();
            proof {
                assert(current@ =~= Seq::<char>::empty());
            }
            i = i + 1;
        } else {
            current.push(c);
            i = i + 1;
        }
    }
    let ghost before = texts_of(statements@);
    if chars_have_content(current.as_slice()) {
        statements.push(string_of(current.as_slice()));
    }
    proof {
        assert(texts_of(statements@) =~= before + finished(current@));
    }
    statements
}

/// Every statement of a text has SQL in it.
pub proof fn lemma_statements_have_content(
    s: Seq<char>,
    at: int,
    in_block: bool,
    current: Seq<char>,
)
    ensures
        forall|k: int|
            0 <= k < statements_from(s, at, in_block, current).len() ==> has_content(
                #[trigger] statements_from(s, at, in_block, current)[k],
            ),
    decreases s.len() - at,
{
    let all = statements_from(s, at, in_block, current);
    if at < 0 || at >= s.len() {
        assert(all == finished(current));
        assert forall|k: int| 0 <= k < all.len() implies has_content(#[trigger] all[k]) by {
            assert(all[k] == current);
        }
    } else if s[at] == '$' && at + 1 < s.len() && s[at + 1] == '$' {
        lemma_statements_have_content(s, at + 2, !in_block, current.push('$').push('$'));
        assert(all == statements_from(s, at + 2, !in_block, current.push('$').push('$')));
    } else if s[at] == ';' && !in_block {
        lemma_statements_have_content(s, at + 1, in_block, Seq::empty());
        let first = finished(current.push(';'));
        let rest = statements_from(s, at + 1, in_block, Seq::empty());
        assert(all == first + rest);
        assert forall|k: int| 0 <= k < all.len() implies has_content(#[trigger] all[k]) by {
            if k < first.len() {
                assert(all[k] == first[k]);
                assert(first[k] == current.push(';'));
            } else {
                assert(all[k] == rest[k - first.len()]);
            }
        }
    } else {
        lemma_statements_have_content(s, at + 1, in_block, current.push(s[at]));
        assert(all == statements_from(s, at + 1, in_block, current.push(s[at])));
    }
}

// ---------------------------------------------------------------------------
// Migrations
// ---------------------------------------------------------------------------

/// Name of the migration that made the first schema.
pub const INITIAL_MIGRATION: &'static str = "001_initial";

/// One migration: its name and its SQL.
#[derive(Debug)]
pub struct Migration {
    pub name: String,
    pub sql: String,
}

/// The statement that failed the migrations.
#[derive(Debug, Clone, Copy, PartialEq, Eq, Structural)]
pub enum MigrationError {
    /// The table that keeps track of migrations could not be made or read.
    Tracking,
    /// A statement of a migration failed.
    Statement,
}

/// How far the migrations have come.
#[derive(Debug)]
pub enum MigrateStage {
    /// The tracking table was asked for.
    Table { migrations: Vec<Migration> },
    /// It was asked whether there is a schema from before migrations were
    /// tracked.
    Legacy { migrations: Vec<Migration> },
    /// The first migration was noted as applied.
    Marked { migrations: Vec<Migration> },
    /// It was asked whether the migration at `at` was applied.
    Applied { migrations: Vec<Migration>, at: usize },
    /// The statement at `next` of the migration at `at` was handed over.
    Statement { migrations: Vec<Migration>, at: usize, statements: Vec<String>, next: usize },
    /// The migration at `at` was noted as applied.
    Recorded { migrations: Vec<Migration>, at: usize },
}

/// Begins the migrations: the tracking table is made first.
pub fn run_migrations_start(migrations: Vec<Migration>) -> (step: Inquiry<
    MigrateStage,
    Result<(), MigrationError>,
>)
    ensures
        step == (Inquiry::<MigrateStage, Result<(), MigrationError>>::Ask {
            query: Query::EnsureMigrationsTable,
            next: MigrateStage::Table { migrations },
        }),
{
    Inquiry::Ask { query: Query::EnsureMigrationsTable, next: MigrateStage::Table { migrations } }
}

/// What the migrations do when the migration at `at` is next: they end well
/// after the last one, else it is asked whether this one was applied.
pub open spec fn migrate_next(
    migrations: Vec<Migration>,
    at: int,
    step: Inquiry<MigrateStage, Result<(), MigrationError>>,
) -> bool {
    if at >= migrations@.len() {
        step == Inquiry::<MigrateStage, Result<(), MigrationError>>::Known(Ok(()))
    } else {
        &&& step matches Inquiry::Ask {
            query: Query::MigrationApplied { name },
            next: MigrateStage::Applied { migrations: kept, at: kept_at },
        }
        &&& name@ == migrations@[at].name@
        &&& kept == migrations
        &&& kept_at == at
    }
}

fn migrate_advance(migrations: Vec<Migration>, at: usize) -> (step: Inquiry<
    MigrateStage,
    Result<(), MigrationError>,
>)
    ensures
        migrate_next(migrations, at as int, step),
{
    if at >= migrations.len() {
        return Inquiry::Known(Ok(()));
    }
    let name = migrations[at].name.clone();
    Inquiry::Ask {
        query: Query::MigrationApplied { name },
        next: MigrateStage::Applied { migrations, at },
    }
}

/// What the migrations do when the statement at `next` of the migration at
/// `at` is next: it is handed over, and after the last one the migration is
/// noted as applied.
pub open spec fn statement_next(
    migrations: Vec<Migration>,
    at: int,
    statements: Vec<String>,
    next: int,
    step: Inquiry<MigrateStage, Result<(), MigrationError>>,
) -> bool {
    if next < statements@.len() {
        &&& step matches Inquiry::Ask {
            query: Query::Execute { statement },
            next: MigrateStage::Statement {
                migrations: kept,
                at: kept_at,
                statements: kept_statements,
                next: kept_next,
            },
        }
        &&& statement@ == statements@[next]@
        &&& kept == migrations
        &&& kept_at == at
        &&& kept_statements == statements
        &&& kept_next == next
    } else {
        &&& step matches Inquiry::Ask {
            query: Query::RecordMigration { name },
            next: MigrateStage::Recorded { migrations: kept, at: kept_at },
        }
        &&& name@ == migrations@[at].name@
        &&& kept == migrations
        &&& kept_at == at
    }
}

fn statement_advance(migrations: Vec<Migration>, at: usize, statements: Vec<String>, next: usize) -> (step:
    Inquiry<MigrateStage, Result<(), MigrationError>>)
    requires
        at < migrations@.len(),
    ensures
        statement_next(migrations, at as int, statements, next as int, step),
{
    if next < statements.len() {
        let statement = statements[next].clone();
        return Inquiry::Ask {
            query: Query::Execute { statement },
            next: MigrateStage::Statement { migrations, at, statements, next },
        };
    }
    let name = migrations[at].name.clone();
    Inquiry::Ask {
        query: Query::RecordMigration { name },
        next: MigrateStage::Recorded { migrations, at },
    }
}

/// How the migrations go on.
///
/// A schema from before migrations were tracked counts as the first
/// migration, which is then noted as applied and not run again. Each
/// migration is run once: one that was applied is skipped, any other is
/// split into its statements, which are run in order, and is then noted as
/// applied. The first statement that fails ends the migrations. A stage
/// that points past the last migration ends them well: nothing is left to
/// run.
pub open spec fn run_migrations_rule(
    stage: MigrateStage,
    answer: Answer,
    step: Inquiry<MigrateStage, Result<(), MigrationError>>,
) -> bool {
    let tracking_failed = step == Inquiry::<MigrateStage, Result<(), MigrationError>>::Known(
        Err(MigrationError::Tracking),
    );
    match stage {
        MigrateStage::Table { migrations } => if answer.done() {
            &&& step matches Inquiry::Ask {
                query: Query::TableExists { name },
                next: MigrateStage::Legacy { migrations: kept },
            }
            &&& name@ == "submissions"@
            &&& kept == migrations
        } else {
            tracking_failed
        },
        MigrateStage::Legacy { migrations } => match answer.presence() {
            Some(true) => {
                &&& step matches Inquiry::Ask {
                    query: Query::MarkMigrationApplied { name },
                    next: MigrateStage::Marked { migrations: kept },
                }
                &&& name@ == INITIAL_MIGRATION@
                &&& kept == migrations
            },
            Some(false) => migrate_next(migrations, 0, step),
            None => tracking_failed,
        },
        MigrateStage::Marked { migrations } => if answer.done() {
            migrate_next(migrations, 0, step)
        } else {
            tracking_failed
        },
        MigrateStage::Applied { migrations, at } => match answer.presence() {
            Some(true) => migrate_next(migrations, at + 1, step),
            Some(false) => if at < migrations@.len() {
                exists|statements: Vec<String>|
                    {
                        &&& texts_of(statements@) == sql_statements(migrations@[at as int].sql@)
                        &&& #[trigger] statement_next(migrations, at as int, statements, 0, step)
                    }
            } else {
                migrate_next(migrations, at as int, step)
            },
            None => tracking_failed,
        },
        MigrateStage::Statement { migrations, at, statements, next } => if answer.done() {
            if at < migrations@.len() {
                statement_next(migrations, at as int, statements, next + 1, step)
            } else {
                migrate_next(migrations, at as int, step)
            }
        } else {
            step == Inquiry::<MigrateStage, Result<(), MigrationError>>::Known(
                Err(MigrationError::Statement),
            )
        },
        MigrateStage::Recorded { migrations, at } => if answer.done() {
            migrate_next(migrations, at + 1, step)
        } else {
            tracking_failed
        },
    }
}

/// Goes on with the migrations.
pub fn run_migrations(stage: MigrateStage, answer: Answer) -> (step: Inquiry<
    MigrateStage,
    Result<(), MigrationError>,
>)
    ensures
        run_migrations_rule(stage, answer, step),
{
    match stage {
        MigrateStage::Table { migrations } => {
            if !answer.is_done() {
                return Inquiry::Known(Err(MigrationError::Tracking));
            }
            Inquiry::Ask {
                query: Query::TableExists { name: "submissions".to_owned() },
                next: MigrateStage::Legacy { migrations },
            }
        },
        MigrateStage::Legacy { migrations } => match answer.into_presence() {
            Some(true) => Inquiry::Ask {
                query: Query::MarkMigrationApplied { name: INITIAL_MIGRATION.to_owned() },
                next: MigrateStage::Marked { migrations },
            },
            Some(false) => migrate_advance(migrations, 0),
            None => Inquiry::Known(Err(MigrationError::Tracking)),
        },
        MigrateStage::Marked { migrations } => {
            if !answer.is_done() {
                return Inquiry::Known(Err(MigrationError::Tracking));
            }
            migrate_advance(migrations, 0)
        },
        MigrateStage::Applied { migrations, at } => match answer.into_presence() {
            Some(true) => {
                if at >= migrations.len() {
                    return migrate_advance(migrations, at);
                }
                migrate_advance(migrations, at + 1)
            },
            Some(false) => {
                if at >= migrations.len() {
                    return migrate_advance(migrations, at);
                }
                let statements = split_sql_statements(migrations[at].sql.as_str());
                let ghost witness = statements;
                let step = statement_advance(migrations, at, statements, 0);
                proof {
                    assert(statement_next(migrations, at as int, witness, 0, step));
                }
                step
            },
            None => Inquiry::Known(Err(MigrationError::Tracking)),
        },
        MigrateStage::Statement { migrations, at, statements, next } => {
            if !answer.is_done() {
                return Inquiry::Known(Err(MigrationError::Statement));
            }
            if at >= migrations.len() {
                return migrate_advance(migrations, at);
            }
            if next >= statements.len() {
                return statement_advance(migrations, at, statements, next);
            }
            statement_advance(migrations, at, statements, next + 1)
        },
        MigrateStage::Recorded { migrations, at } => {
            if !answer.is_done() {
                return Inquiry::Known(Err(MigrationError::Tracking));
            }
            if at >= migrations.len() {
                return migrate_advance(migrations, at);
            }
            migrate_advance(migrations, at + 1)
        },
    }
}

} // verus!
