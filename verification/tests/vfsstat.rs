use vfsstat::vfs::{
    classify, extended_handle_size, registration_outcome, Vfs, OPEN_MAIN_DB, OPEN_MAIN_JOURNAL,
    OPEN_MASTER_JOURNAL, OPEN_SUBJOURNAL, OPEN_TEMP_DB, OPEN_TEMP_JOURNAL, OPEN_WAL,
};
use vfsstat::vtab::{scan, Cursor, Row, VTab};
use vfsstat::{Error, FileStats, FileType, StatField};

const CATEGORIES: [FileType; 9] = [
    FileType::Main,
    FileType::Journal,
    FileType::Wal,
    FileType::MasterJournal,
    FileType::SubJournal,
    FileType::TempDb,
    FileType::TempJournal,
    FileType::Transient,
    FileType::Any,
];

const FIELDS: [StatField; 13] = [
    StatField::BytesIn,
    StatField::BytesOut,
    StatField::Read,
    StatField::Write,
    StatField::Sync,
    StatField::Open,
    StatField::Lock,
    StatField::Access,
    StatField::Delete,
    StatField::FullPath,
    StatField::Random,
    StatField::Sleep,
    StatField::CurrentTime,
];

fn rows_equal(a: &Row, b: &Row) -> bool {
    a.file == b.file && a.stat == b.stat && a.count == b.count && a.rowid == b.rowid
}

/// Walks a cursor over the full table by hand: project, stop after the row
/// on which the cursor reports exhaustion.
fn walk(cur: &mut Cursor, stats: &FileStats) -> Vec<Row> {
    let mut rows: Vec<Row> = Vec::new();
    loop {
        rows.push(cur.row(stats));
        if cur.eof() {
            break;
        }
        cur.next();
    }
    rows
}

#[test]
fn classify_adjacent_pairs_take_the_earlier() {
    assert_eq!(classify(OPEN_MAIN_DB | OPEN_MAIN_JOURNAL), FileType::Main);
    assert_eq!(classify(OPEN_MAIN_JOURNAL | OPEN_WAL), FileType::Journal);
    assert_eq!(classify(OPEN_WAL | OPEN_MASTER_JOURNAL), FileType::Wal);
    assert_eq!(
        classify(OPEN_MASTER_JOURNAL | OPEN_SUBJOURNAL),
        FileType::MasterJournal
    );
    assert_eq!(classify(OPEN_SUBJOURNAL | OPEN_TEMP_DB), FileType::SubJournal);
    assert_eq!(classify(OPEN_TEMP_DB | OPEN_TEMP_JOURNAL), FileType::TempDb);
    assert_eq!(classify(OPEN_TEMP_JOURNAL), FileType::TempJournal);
}

#[test]
fn classify_main_beats_temp_store() {
    assert_eq!(classify(OPEN_MAIN_DB | OPEN_TEMP_DB), FileType::Main);
}

#[test]
fn classify_defaults_to_transient() {
    assert_eq!(classify(0), FileType::Transient);
    // Bits outside the classifying set change nothing.
    assert_eq!(classify(0x0000_0002), FileType::Transient);
}

#[test]
fn classify_every_single_bit() {
    assert_eq!(classify(OPEN_MAIN_DB), FileType::Main);
    assert_eq!(classify(OPEN_MAIN_JOURNAL), FileType::Journal);
    assert_eq!(classify(OPEN_WAL), FileType::Wal);
    assert_eq!(classify(OPEN_MASTER_JOURNAL), FileType::MasterJournal);
    assert_eq!(classify(OPEN_SUBJOURNAL), FileType::SubJournal);
    assert_eq!(classify(OPEN_TEMP_DB), FileType::TempDb);
    assert_eq!(classify(OPEN_TEMP_JOURNAL), FileType::TempJournal);
}

#[test]
fn fresh_store_is_all_zero() {
    let v = Vfs::new();
    for t in CATEGORIES {
        for f in FIELDS {
            assert_eq!(v.file_stats.get(t, f), 0);
        }
    }
}

#[test]
fn open_counts_whether_or_not_it_succeeds() {
    let mut v = Vfs::new();
    let ok = v.open(OPEN_WAL, 0);
    let failed = v.open(OPEN_WAL, 14);
    assert!(ok.installed);
    assert!(!failed.installed);
    assert_eq!(ok.filetype, FileType::Wal);
    assert_eq!(failed.filetype, FileType::Wal);
    assert_eq!(v.file_stats.get(FileType::Wal, StatField::Open), 2);
    assert_eq!(v.file_stats.get(FileType::Main, StatField::Open), 0);
}

#[test]
fn close_forwards_only_installed_handles() {
    let mut v = Vfs::new();
    let ok = v.open(OPEN_MAIN_DB, 0);
    let failed = v.open(OPEN_MAIN_DB, 1);
    assert!(ok.forward_close());
    assert!(!failed.forward_close());
}

#[test]
fn bytes_count_only_successful_transfers() {
    let mut v = Vfs::new();
    let conn = v.open(OPEN_MAIN_DB, 0);
    v.record_read(&conn, 100, true);
    v.record_read(&conn, 50, false);
    v.record_write(&conn, 4096, true);
    v.record_write(&conn, 8192, false);
    v.record_write(&conn, 1, true);
    assert_eq!(v.file_stats.get(FileType::Main, StatField::Read), 2);
    assert_eq!(v.file_stats.get(FileType::Main, StatField::BytesIn), 100);
    assert_eq!(v.file_stats.get(FileType::Main, StatField::Write), 3);
    assert_eq!(v.file_stats.get(FileType::Main, StatField::BytesOut), 4097);
}

#[test]
fn lock_family_shares_one_counter() {
    let mut v = Vfs::new();
    let conn = v.open(OPEN_MAIN_JOURNAL, 0);
    v.record_lock(&conn);
    v.record_unlock(&conn);
    v.record_check_reserved_lock(&conn);
    assert_eq!(v.file_stats.get(FileType::Journal, StatField::Lock), 3);
    v.record_sync(&conn);
    assert_eq!(v.file_stats.get(FileType::Journal, StatField::Sync), 1);
}

#[test]
fn backend_wide_operations_count_under_the_catch_all() {
    let mut v = Vfs::new();
    v.record_delete();
    v.record_access();
    v.record_full_pathname();
    v.record_randomness();
    v.record_sleep();
    v.record_current_time();
    v.record_current_time();
    assert_eq!(v.file_stats.get(FileType::Any, StatField::Delete), 1);
    assert_eq!(v.file_stats.get(FileType::Any, StatField::Access), 1);
    assert_eq!(v.file_stats.get(FileType::Any, StatField::FullPath), 1);
    assert_eq!(v.file_stats.get(FileType::Any, StatField::Random), 1);
    assert_eq!(v.file_stats.get(FileType::Any, StatField::Sleep), 1);
    assert_eq!(v.file_stats.get(FileType::Any, StatField::CurrentTime), 2);
    // Nothing leaked into any per-handle category.
    for t in CATEGORIES {
        if t != FileType::Any {
            for f in FIELDS {
                assert_eq!(v.file_stats.get(t, f), 0);
            }
        }
    }
}

#[test]
fn scan_yields_117_rows_with_dense_unique_ids() {
    let v = Vfs::new();
    let rows = scan(&v.file_stats);
    assert_eq!(rows.len(), 117);
    for (i, row) in rows.iter().enumerate() {
        assert_eq!(row.rowid, i as i64);
    }
    let mut seen = [false; 117];
    for row in &rows {
        let id = row.rowid as usize;
        assert!(!seen[id]);
        seen[id] = true;
    }
    assert!(seen.iter().all(|s| *s));
}

#[test]
fn two_scans_without_writes_are_identical() {
    let mut v = Vfs::new();
    let conn = v.open(OPEN_TEMP_DB, 0);
    v.record_read(&conn, 7, true);
    let first = scan(&v.file_stats);
    let second = scan(&v.file_stats);
    assert_eq!(first.len(), second.len());
    for (a, b) in first.iter().zip(second.iter()) {
        assert!(rows_equal(a, b));
    }
}

#[test]
fn rewind_mid_scan_restarts_from_the_top() {
    let mut v = Vfs::new();
    let conn = v.open(OPEN_SUBJOURNAL, 0);
    v.record_write(&conn, 512, true);
    let mut cur = Cursor::new();
    for _ in 0..40 {
        cur.next();
    }
    cur.rewind();
    let replayed = walk(&mut cur, &v.file_stats);
    let fresh = scan(&v.file_stats);
    assert_eq!(replayed.len(), fresh.len());
    for (a, b) in replayed.iter().zip(fresh.iter()) {
        assert!(rows_equal(a, b));
    }
}

#[test]
fn rewind_works_repeatedly() {
    let mut cur = Cursor::new();
    for _ in 0..5 {
        cur.next();
        cur.next();
        cur.rewind();
    }
    assert_eq!(cur.rowid(), 0);
    assert!(!cur.eof());
}

#[test]
fn update_reports_unsupported_and_changes_nothing() {
    let mut v = Vfs::new();
    let conn = v.open(OPEN_WAL, 0);
    v.record_write(&conn, 64, true);
    let before = scan(&v.file_stats);
    let outcome = VTab::update(&mut v);
    assert_eq!(outcome, Err(Error::Unsupported));
    let after = scan(&v.file_stats);
    for (a, b) in before.iter().zip(after.iter()) {
        assert!(rows_equal(a, b));
    }
}

#[test]
fn wal_write_end_to_end() {
    let mut v = Vfs::new();
    let conn = v.open(OPEN_WAL, 0);
    assert_eq!(conn.filetype, FileType::Wal);
    v.record_write(&conn, 4096, true);
    let rows = scan(&v.file_stats);
    for row in &rows {
        if row.file == "wal" {
            match row.stat {
                "write" => assert_eq!(row.count, 1),
                "bytesOut" => assert_eq!(row.count, 4096),
                "open" => assert_eq!(row.count, 1),
                _ => assert_eq!(row.count, 0),
            }
        }
    }
    // The write-ahead-log rows sit in their own band of row ids.
    let wal_rows: Vec<&Row> = rows.iter().filter(|r| r.file == "wal").collect();
    assert_eq!(wal_rows.len(), 13);
    assert!(wal_rows.iter().all(|r| (26..=38).contains(&r.rowid)));
}

#[test]
fn category_labels_are_stable() {
    assert_eq!(FileType::Main.label(), "main");
    assert_eq!(FileType::Journal.label(), "journal");
    assert_eq!(FileType::Wal.label(), "wal");
    assert_eq!(FileType::MasterJournal.label(), "master-journal");
    assert_eq!(FileType::SubJournal.label(), "sub-journal");
    assert_eq!(FileType::TempDb.label(), "temp-database");
    assert_eq!(FileType::TempJournal.label(), "temp-journal");
    assert_eq!(FileType::Transient.label(), "transient-db");
    assert_eq!(FileType::Any.label(), "*");
}

#[test]
fn metric_labels_are_stable() {
    assert_eq!(StatField::BytesIn.label(), "bytesIn");
    assert_eq!(StatField::BytesOut.label(), "bytesOut");
    assert_eq!(StatField::Read.label(), "read");
    assert_eq!(StatField::Write.label(), "write");
    assert_eq!(StatField::Sync.label(), "sync");
    assert_eq!(StatField::Open.label(), "open");
    assert_eq!(StatField::Lock.label(), "lock");
    assert_eq!(StatField::Access.label(), "access");
    assert_eq!(StatField::Delete.label(), "delete");
    assert_eq!(StatField::FullPath.label(), "fullPath");
    assert_eq!(StatField::Random.label(), "random");
    assert_eq!(StatField::Sleep.label(), "sleep");
    assert_eq!(StatField::CurrentTime.label(), "currentTime");
}

#[test]
fn schema_is_the_fixed_three_columns() {
    assert_eq!(VTab::schema(), "CREATE TABLE x(file,stat,count)");
}

#[test]
fn rowid_is_category_times_thirteen_plus_metric() {
    let cur = Cursor {
        filetype: FileType::Wal,
        field: StatField::Write,
    };
    assert_eq!(cur.rowid(), 2 * 13 + 3);
    let last = Cursor {
        filetype: FileType::Any,
        field: StatField::CurrentTime,
    };
    assert_eq!(last.rowid(), 116);
    assert_eq!(Cursor::new().rowid(), 0);
}

#[test]
fn eof_exactly_on_the_last_row() {
    let mut cur = Cursor::new();
    let mut steps: usize = 0;
    while !cur.eof() {
        cur.next();
        steps += 1;
    }
    assert_eq!(steps, 116);
    assert_eq!(cur.rowid(), 116);
}

#[test]
fn next_wraps_from_the_last_row_to_the_first() {
    let mut cur = Cursor {
        filetype: FileType::Any,
        field: StatField::CurrentTime,
    };
    assert!(cur.eof());
    cur.next();
    assert_eq!(cur.rowid(), 0);
    assert_eq!(cur.filetype, FileType::Main);
    assert_eq!(cur.field, StatField::BytesIn);
}

#[test]
fn registration_outcomes() {
    assert_eq!(registration_outcome(false, 0), Err(Error::BackendNotFound));
    assert_eq!(registration_outcome(true, 5), Err(Error::RegistrationFailed(5)));
    assert_eq!(registration_outcome(true, 0), Ok(()));
}

#[test]
fn connect_and_create_outcomes() {
    assert!(VTab::connect(0).is_ok());
    assert_eq!(VTab::connect(7).err(), Some(7));
    assert_eq!(VTab::create_outcome(0), Ok(()));
    assert_eq!(
        VTab::create_outcome(21),
        Err(Error::RegistrationFailed(21))
    );
}

#[test]
fn error_messages() {
    assert_eq!(
        Error::BackendNotFound.message(),
        "could not find the default backend"
    );
    assert_eq!(
        Error::RegistrationFailed(1).message(),
        "the host rejected the registration"
    );
    assert_eq!(Error::Unsupported.message(), "the exposed table is read-only");
    assert_eq!(
        Error::InvariantViolation.message(),
        "a foreign handle does not belong to this layer"
    );
}

#[test]
fn handle_size_grows_by_the_record() {
    assert_eq!(extended_handle_size(120, 56), 176);
    assert_eq!(extended_handle_size(0, 0), 0);
}

#[test]
fn counter_values_survive_the_row_projection() {
    let mut v = Vfs::new();
    let conn = v.open(OPEN_TEMP_JOURNAL, 0);
    for _ in 0..3 {
        v.record_sync(&conn);
    }
    let rows = scan(&v.file_stats);
    let sync_row = rows
        .iter()
        .find(|r| r.file == "temp-journal" && r.stat == "sync")
        .unwrap();
    assert_eq!(sync_row.count, 3);
    assert_eq!(sync_row.rowid, 6 * 13 + 4);
}
