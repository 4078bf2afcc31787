use augment_reset::database::scrub::{
    advance, first_step, ScrubFailure, ScrubPhase, ScrubReport, ScrubStep, StoreCommand, StoreReply,
};
use augment_reset::database::store::MemoryStore;
use augment_reset::database::DatabaseManager;
use augment_reset::error::AugmentError;
use rusqlite::Connection;

fn row(key: &str, value: &str) -> (String, String) {
    (key.to_string(), value.to_string())
}

fn reply_of(conn: &Connection, command: StoreCommand) -> StoreReply {
    let failed = |e: rusqlite::Error| StoreReply::Failed(e.to_string());
    match command {
        StoreCommand::Open => StoreReply::Done,
        StoreCommand::DisableForeignKeys => match conn.execute(command.sql().unwrap(), []) {
            Ok(_) => StoreReply::Done,
            Err(e) => failed(e),
        },
        StoreCommand::EnableWriteAheadLog => {
            match conn.query_row(command.sql().unwrap(), [], |r| r.get::<_, String>(0)) {
                Ok(_) => StoreReply::Done,
                Err(e) => failed(e),
            }
        }
        StoreCommand::CheckTable => {
            let names: Result<Vec<String>, String> = conn
                .prepare(command.sql().unwrap())
                .and_then(|mut s| {
                    s.query_map([command.parameter().unwrap()], |r| r.get::<_, String>(0))
                        .and_then(|rows| rows.collect())
                })
                .map_err(|e| e.to_string());
            StoreReply::TableFound(DatabaseManager::check_table_exists(&names))
        }
        StoreCommand::Begin => match conn.execute_batch("BEGIN") {
            Ok(_) => StoreReply::Done,
            Err(e) => failed(e),
        },
        StoreCommand::CountMatching => {
            match conn.query_row(command.sql().unwrap(), [], |r| r.get::<_, u32>(0)) {
                Ok(n) => StoreReply::Count(n),
                Err(e) => failed(e),
            }
        }
        StoreCommand::DeleteMatching => match conn.execute(command.sql().unwrap(), []) {
            Ok(n) => StoreReply::Deleted(n as u32),
            Err(e) => failed(e),
        },
        StoreCommand::Commit => match conn.execute_batch("COMMIT") {
            Ok(_) => StoreReply::Done,
            Err(e) => failed(e),
        },
    }
}

fn scrub(conn: &Connection) -> Result<ScrubReport, ScrubFailure> {
    let mut step = first_step();
    loop {
        match step {
            ScrubStep::Finish(outcome) => return outcome,
            ScrubStep::Issue(command, phase) => {
                step = DatabaseManager::cleanup_database_sync(phase, reply_of(conn, command));
            }
        }
    }
}

fn store_with(rows: &[(&str, &str)]) -> Connection {
    let conn = Connection::open_in_memory().unwrap();
    conn.execute(
        "CREATE TABLE IF NOT EXISTS ItemTable (id INTEGER PRIMARY KEY, key TEXT NOT NULL, value TEXT)",
        [],
    )
    .unwrap();
    for (key, value) in rows {
        conn.execute("INSERT INTO ItemTable (key, value) VALUES (?, ?)", [key, value]).unwrap();
    }
    conn
}

fn count(conn: &Connection, sql: &str) -> u32 {
    conn.query_row(sql, [], |r| r.get::<_, u32>(0)).unwrap()
}

#[test]
fn test_database_cleanup() {
    let conn = store_with(&[
        ("augment.test1", "test_value_1"),
        ("augment.test2", "test_value_2"),
        ("other.key", "other_value"),
    ]);
    let report = scrub(&conn).unwrap();
    assert_eq!(report.removed, 2, "应该删除2条 augment 相关记录");
    assert_eq!(
        count(&conn, "SELECT COUNT(*) FROM ItemTable WHERE key LIKE '%augment%'"),
        0,
        "应该没有 augment 相关记录了"
    );
    assert_eq!(count(&conn, "SELECT COUNT(*) FROM ItemTable"), 1, "应该还有1条其他记录");
}

#[test]
fn three_rows_two_marked_on_a_real_store() {
    let conn = store_with(&[("augment.a", "1"), ("augment.b", "2"), ("other", "3")]);
    assert_eq!(scrub(&conn).unwrap(), ScrubReport { removed: 2, remaining: 0 });
    assert_eq!(count(&conn, "SELECT COUNT(*) FROM ItemTable"), 1);
    let left: String =
        conn.query_row("SELECT key FROM ItemTable", [], |r| r.get::<_, String>(0)).unwrap();
    assert_eq!(left, "other");
    assert_eq!(scrub(&conn).unwrap(), ScrubReport { removed: 0, remaining: 0 });
    assert_eq!(count(&conn, "SELECT COUNT(*) FROM ItemTable"), 1);
}

#[test]
fn the_mark_counts_in_this_very_case_on_a_real_store() {
    let conn = store_with(&[("Augment.a", "1"), ("AUGMENT", "2"), ("my.augment.key", "3")]);
    assert_eq!(scrub(&conn).unwrap(), ScrubReport { removed: 1, remaining: 0 });
    assert_eq!(count(&conn, "SELECT COUNT(*) FROM ItemTable"), 2);
}

#[test]
fn a_real_store_without_the_table_is_left_alone() {
    let conn = Connection::open_in_memory().unwrap();
    conn.execute("CREATE TABLE Other (key TEXT)", []).unwrap();
    assert_eq!(scrub(&conn).unwrap(), ScrubReport { removed: 0, remaining: 0 });
    assert!(conn.is_autocommit());
}

#[test]
fn a_real_store_that_fails_gives_up_the_scrub() {
    let conn = Connection::open_in_memory().unwrap();
    conn.execute("CREATE TABLE ItemTable (name TEXT)", []).unwrap();
    match scrub(&conn) {
        Err(ScrubFailure::Store(reason)) => assert!(reason.contains("key")),
        other => panic!("the scrub did not fail: {:?}", other),
    }
}

#[test]
fn three_rows_two_marked_in_memory() {
    let mut store = MemoryStore::with_rows(vec![
        row("augment.a", "1"),
        row("augment.b", "2"),
        row("other", "3"),
    ]);
    assert_eq!(store.scrub().unwrap(), ScrubReport { removed: 2, remaining: 0 });
    assert_eq!(store.rows, vec![row("other", "3")]);
    assert_eq!(store.scrub().unwrap(), ScrubReport { removed: 0, remaining: 0 });
    assert_eq!(store.rows, vec![row("other", "3")]);
}

#[test]
fn rows_without_the_mark_keep_their_order() {
    let mut store = MemoryStore::with_rows(vec![
        row("b", "1"),
        row("x.augment", "2"),
        row("a", "3"),
        row("augment", "4"),
        row("Augment", "5"),
    ]);
    assert_eq!(store.count_marked(), 2);
    assert_eq!(store.scrub().unwrap(), ScrubReport { removed: 2, remaining: 0 });
    assert_eq!(store.rows, vec![row("b", "1"), row("a", "3"), row("Augment", "5")]);
    assert_eq!(store.count_marked(), 0);
}

#[test]
fn an_empty_table_and_a_missing_table() {
    let mut store = MemoryStore::with_rows(vec![]);
    assert_eq!(store.scrub().unwrap(), ScrubReport { removed: 0, remaining: 0 });
    let mut store = MemoryStore::without_table();
    assert!(!store.has_table);
    assert_eq!(store.scrub().unwrap(), ScrubReport { removed: 0, remaining: 0 });
    assert!(store.rows.is_empty());
}

#[test]
fn the_store_in_memory_answers_each_command() {
    let mut store = MemoryStore::with_rows(vec![row("augment", "1"), row("o", "2")]);
    assert!(matches!(store.answer(StoreCommand::Open), StoreReply::Done));
    assert!(matches!(store.answer(StoreCommand::Begin), StoreReply::Done));
    assert!(matches!(store.answer(StoreCommand::CheckTable), StoreReply::TableFound(true)));
    assert!(matches!(store.answer(StoreCommand::CountMatching), StoreReply::Count(1)));
    assert!(matches!(store.answer(StoreCommand::DeleteMatching), StoreReply::Deleted(1)));
    assert!(matches!(store.answer(StoreCommand::CountMatching), StoreReply::Count(0)));
    assert_eq!(store.delete_marked(), 0);
    let mut none = MemoryStore::without_table();
    assert!(matches!(none.answer(StoreCommand::CheckTable), StoreReply::TableFound(false)));
    assert!(matches!(none.answer(StoreCommand::CountMatching), StoreReply::Failed(_)));
    assert!(matches!(none.answer(StoreCommand::DeleteMatching), StoreReply::Failed(_)));
}

#[test]
fn the_protocol_step_by_step() {
    assert!(matches!(first_step(), ScrubStep::Issue(StoreCommand::Open, ScrubPhase::Opening)));
    assert!(matches!(
        advance(ScrubPhase::Opening, StoreReply::Done),
        ScrubStep::Issue(StoreCommand::DisableForeignKeys, ScrubPhase::DisablingForeignKeys)
    ));
    assert!(matches!(
        advance(ScrubPhase::DisablingForeignKeys, StoreReply::Done),
        ScrubStep::Issue(StoreCommand::EnableWriteAheadLog, ScrubPhase::EnablingWriteAheadLog)
    ));
    assert!(matches!(
        advance(ScrubPhase::EnablingWriteAheadLog, StoreReply::Done),
        ScrubStep::Issue(StoreCommand::CheckTable, ScrubPhase::CheckingTable)
    ));
    assert!(matches!(
        advance(ScrubPhase::CheckingTable, StoreReply::TableFound(true)),
        ScrubStep::Issue(StoreCommand::Begin, ScrubPhase::Beginning)
    ));
    assert!(matches!(
        advance(ScrubPhase::CheckingTable, StoreReply::TableFound(false)),
        ScrubStep::Finish(Ok(ScrubReport { removed: 0, remaining: 0 }))
    ));
    assert!(matches!(
        advance(ScrubPhase::Beginning, StoreReply::Done),
        ScrubStep::Issue(StoreCommand::CountMatching, ScrubPhase::Counting)
    ));
    assert!(matches!(
        advance(ScrubPhase::Counting, StoreReply::Count(0)),
        ScrubStep::Issue(StoreCommand::Commit, ScrubPhase::Committing { removed: 0, remaining: 0 })
    ));
    assert!(matches!(
        advance(ScrubPhase::Counting, StoreReply::Count(4)),
        ScrubStep::Issue(StoreCommand::DeleteMatching, ScrubPhase::Deleting)
    ));
    assert!(matches!(
        advance(ScrubPhase::Deleting, StoreReply::Deleted(4)),
        ScrubStep::Issue(StoreCommand::CountMatching, ScrubPhase::Recounting { deleted: 4 })
    ));
    assert!(matches!(
        advance(ScrubPhase::Recounting { deleted: 4 }, StoreReply::Count(1)),
        ScrubStep::Issue(StoreCommand::Commit, ScrubPhase::Committing { removed: 4, remaining: 1 })
    ));
    assert!(matches!(
        advance(ScrubPhase::Committing { removed: 4, remaining: 1 }, StoreReply::Done),
        ScrubStep::Finish(Ok(ScrubReport { removed: 4, remaining: 1 }))
    ));
}

#[test]
fn a_failed_command_ends_the_scrub() {
    for phase in [
        ScrubPhase::Opening,
        ScrubPhase::Beginning,
        ScrubPhase::Counting,
        ScrubPhase::Deleting,
        ScrubPhase::Recounting { deleted: 2 },
        ScrubPhase::Committing { removed: 2, remaining: 0 },
    ] {
        match advance(phase, StoreReply::Failed("disk full".to_string())) {
            ScrubStep::Finish(Err(ScrubFailure::Store(reason))) => assert_eq!(reason, "disk full"),
            other => panic!("the scrub went on: {:?}", other),
        }
    }
}

#[test]
fn a_reply_out_of_turn_ends_the_scrub() {
    assert!(matches!(
        advance(ScrubPhase::Opening, StoreReply::Count(1)),
        ScrubStep::Finish(Err(ScrubFailure::UnexpectedReply))
    ));
    assert!(matches!(
        advance(ScrubPhase::Counting, StoreReply::Done),
        ScrubStep::Finish(Err(ScrubFailure::UnexpectedReply))
    ));
    assert!(matches!(
        advance(ScrubPhase::Deleting, StoreReply::Count(1)),
        ScrubStep::Finish(Err(ScrubFailure::UnexpectedReply))
    ));
    assert!(matches!(
        advance(ScrubPhase::CheckingTable, StoreReply::Deleted(1)),
        ScrubStep::Finish(Err(ScrubFailure::UnexpectedReply))
    ));
    assert!(matches!(
        advance(ScrubPhase::Committing { removed: 1, remaining: 0 }, StoreReply::TableFound(true)),
        ScrubStep::Finish(Err(ScrubFailure::UnexpectedReply))
    ));
}

#[test]
fn statements_of_the_commands() {
    assert_eq!(StoreCommand::CheckTable.parameter(), Some("ItemTable"));
    assert_eq!(StoreCommand::CountMatching.parameter(), None);
    assert_eq!(StoreCommand::Open.sql(), None);
    assert_eq!(StoreCommand::Begin.sql(), None);
    assert_eq!(StoreCommand::Commit.sql(), None);
    assert_eq!(StoreCommand::DisableForeignKeys.sql(), Some("PRAGMA foreign_keys = OFF"));
    assert_eq!(StoreCommand::EnableWriteAheadLog.sql(), Some("PRAGMA journal_mode = WAL"));
    assert_eq!(
        StoreCommand::CheckTable.sql(),
        Some("SELECT name FROM sqlite_master WHERE type='table' AND name=?")
    );
    assert_eq!(
        StoreCommand::CountMatching.sql(),
        Some("SELECT COUNT(*) FROM ItemTable WHERE key GLOB '*augment*'")
    );
    assert_eq!(
        StoreCommand::DeleteMatching.sql(),
        Some("DELETE FROM ItemTable WHERE key GLOB '*augment*'")
    );
}

#[test]
fn failures_of_a_scrub_as_errors() {
    match ScrubFailure::Store("locked".to_string()).into_error() {
        AugmentError::Database(reason) => assert_eq!(reason, "locked"),
        _ => panic!("not a failure of the store"),
    }
    match ScrubFailure::UnexpectedReply.into_error() {
        AugmentError::Internal { message } => {
            assert_eq!(message, "the store gave a reply that does not answer the command")
        }
        _ => panic!("not an internal failure"),
    }
}
